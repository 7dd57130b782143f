//! The line shapes of a WeeChat log, each written as a function on the
//! characters of a message with the semantics of a leftmost, lazy (`.*?`)
//! or greedy (`.*`) match in which `.` never crosses a line feed.

use vstd::prelude::*;
use crate::text::{
    chars_of, find, first_occ, has_newline, has_newline_in, has_prefix, last_occ, lemma_first_occ,
    lemma_last_occ, lemma_newline_free_subrange, newline_free, occurs_at, rfind, starts_with,
    substring,
};

verus! {

/// ` (`, which opens the `(user@host)` part of a join, quit or part notice.
pub open spec fn open_sep() -> Seq<char> {
    " ("@
}

/// `@`, between user and host.
pub open spec fn at_sep() -> Seq<char> {
    "@"@
}

/// `) has joined `
pub open spec fn joined_sep() -> Seq<char> {
    ") has joined "@
}

/// `) has quit `
pub open spec fn quit_sep() -> Seq<char> {
    ") has quit "@
}

/// `) has left `
pub open spec fn left_sep() -> Seq<char> {
    ") has left "@
}

/// ` has kicked `
pub open spec fn kicked_sep() -> Seq<char> {
    " has kicked "@
}

/// An occurrence of ` (` is a space followed by an opening parenthesis.
pub proof fn lemma_open_sep_at(m: Seq<char>, q: int)
    requires
        occurs_at(m, open_sep(), q),
    ensures
        open_sep().len() == 2,
        q + 2 <= m.len(),
        m[q] == ' ',
        m[q + 1] == '(',
{
    reveal_strlit(" (");
    assert(m.subrange(q, q + 2)[0] == m[q]);
    assert(m.subrange(q, q + 2)[1] == m[q + 1]);
}

/// The decomposition `nick (user@host)<tail>rest`, given by the indices of
/// ` (`, `@` and `tail`, is one that the shape admits.
pub open spec fn user_split_valid(m: Seq<char>, tail: Seq<char>, i: int, j: int, k: int) -> bool {
    &&& newline_free(m)
    &&& occurs_at(m, open_sep(), i)
    &&& i + open_sep().len() <= j
    &&& occurs_at(m, at_sep(), j)
    &&& j + at_sep().len() <= k
    &&& occurs_at(m, tail, k)
}

/// The indices `(i, j, k)` of ` (`, `@` and `tail` that a lazy match of
/// `^(.*?) \((.*?)@(.*?)<tail>(.*)$` picks: each the first one after the
/// previous.
pub open spec fn user_split(m: Seq<char>, tail: Seq<char>) -> Option<(int, int, int)> {
    if !newline_free(m) {
        None
    } else {
        match first_occ(m, open_sep(), 0) {
            None => None,
            Some(i) => match first_occ(m, at_sep(), i + open_sep().len()) {
                None => None,
                Some(j) => match first_occ(m, tail, j + at_sep().len()) {
                    None => None,
                    Some(k) => Some((i, j, k)),
                },
            },
        }
    }
}

/// The four captures `(nick, user, host, rest)` of a line of the shape
/// `nick (user@host)<tail>rest`.
pub open spec fn user_captures(m: Seq<char>, tail: Seq<char>) -> Option<
    (Seq<char>, Seq<char>, Seq<char>, Seq<char>),
> {
    match user_split(m, tail) {
        None => None,
        Some((i, j, k)) => Some(
            (
                m.subrange(0, i),
                m.subrange(i + open_sep().len(), j),
                m.subrange(j + at_sep().len(), k),
                m.subrange(k + tail.len(), m.len() as int),
            ),
        ),
    }
}

/// The lazy match takes, among all decompositions the shape admits, the one
/// whose separators stand leftmost; it exists exactly when any does.
pub proof fn lemma_user_split_leftmost(m: Seq<char>, tail: Seq<char>)
    ensures
        user_split(m, tail) is Some <==> exists|i: int, j: int, k: int|
            user_split_valid(m, tail, i, j, k),
        user_split(m, tail) matches Some((i, j, k)) ==> {
            &&& user_split_valid(m, tail, i, j, k)
            &&& forall|i2: int, j2: int, k2: int|
                user_split_valid(m, tail, i2, j2, k2) ==> i <= i2 && j <= j2 && k <= k2
        },
{
    lemma_first_occ(m, open_sep(), 0);
    if let Some(i) = first_occ(m, open_sep(), 0) {
        lemma_first_occ(m, at_sep(), i + open_sep().len());
        if let Some(j) = first_occ(m, at_sep(), i + open_sep().len()) {
            lemma_first_occ(m, tail, j + at_sep().len());
        }
    }
    if user_split(m, tail) is None {
        assert forall|i2: int, j2: int, k2: int| !user_split_valid(m, tail, i2, j2, k2) by {
            if user_split_valid(m, tail, i2, j2, k2) {
                let i = first_occ(m, open_sep(), 0)->0;
                let j = first_occ(m, at_sep(), i + open_sep().len())->0;
                assert(first_occ(m, tail, j + at_sep().len()) is Some);
            }
        }
    } else {
        let (i, j, k) = user_split(m, tail)->0;
        assert(user_split_valid(m, tail, i, j, k));
    }
}

/// The captures of a line of the shape `nick (user@host)<tail>rest` put
/// back together give the line.
pub proof fn lemma_user_captures_recompose(m: Seq<char>, tail: Seq<char>)
    ensures
        user_captures(m, tail) matches Some((a, b, c, d)) ==> m == a + open_sep() + b + at_sep()
            + c + tail + d,
{
    if let Some((i, j, k)) = user_split(m, tail) {
        lemma_first_occ(m, open_sep(), 0);
        lemma_first_occ(m, at_sep(), i + open_sep().len());
        lemma_first_occ(m, tail, j + at_sep().len());
        let (a, b, c, d) = user_captures(m, tail)->0;
        assert(m =~= a + open_sep() + b + at_sep() + c + tail + d);
    }
}

/// Finds the split of `nick (user@host)<tail>rest` that a lazy match picks.
fn find_user_split(m: &Vec<char>, tail: &Vec<char>) -> (r: Option<(usize, usize, usize)>)
    ensures
        r matches Some((i, j, k)) ==> user_split(m@, tail@) == Some(
            (i as int, j as int, k as int),
        ) && k + tail@.len() <= m@.len(),
        r is None ==> user_split(m@, tail@) is None,
{
    if has_newline(m) {
        return None;
    }
    let n = m.len();
    let open = chars_of(" (");
    let at = chars_of("@");
    proof { lemma_first_occ(m@, open@, 0); }
    let i = match find(m, &open, 0) {
        None => return None,
        Some(i) => i,
    };
    proof { lemma_first_occ(m@, at@, i + open@.len()); }
    let j = match find(m, &at, i + open.len()) {
        None => return None,
        Some(j) => j,
    };
    proof { lemma_first_occ(m@, tail@, j + at@.len()); }
    let k = match find(m, tail, j + at.len()) {
        None => return None,
        Some(k) => k,
    };
    Some((i, j, k))
}

/// Matches `msg` against the shape `nick (user@host)<tail>rest`.
fn match_user_line(msg: &str, tail: &str) -> (r: Option<(String, String, String, String)>)
    ensures
        match r {
            Some((a, b, c, d)) => user_captures(msg@, tail@) == Some((a@, b@, c@, d@)),
            None => user_captures(msg@, tail@) is None,
        },
{
    let m = chars_of(msg);
    let t = chars_of(tail);
    let n = m.len();
    match find_user_split(&m, &t) {
        None => None,
        Some((i, j, k)) => {
            proof {
                lemma_first_occ(m@, open_sep(), 0);
                lemma_first_occ(m@, at_sep(), i + open_sep().len());
                lemma_first_occ(m@, t@, j + at_sep().len());
                reveal_strlit(" (");
                reveal_strlit("@");
            }
            let nick = substring(msg, 0, i);
            let user = substring(msg, i + 2, j);
            let host = substring(msg, j + 1, k);
            let rest = substring(msg, k + t.len(), n);
            Some((nick, user, host, rest))
        },
    }
}

/// `nick (user@host) has joined channel`: `(nick, user, host, channel)`.
pub open spec fn join_captures(m: Seq<char>) -> Option<(Seq<char>, Seq<char>, Seq<char>, Seq<char>)> {
    user_captures(m, joined_sep())
}

/// `nick (user@host) has quit comment`: `(nick, user, host, comment)`.
pub open spec fn quit_captures(m: Seq<char>) -> Option<(Seq<char>, Seq<char>, Seq<char>, Seq<char>)> {
    user_captures(m, quit_sep())
}

/// Matches a join notice.
pub fn match_join(msg: &str) -> (r: Option<(String, String, String, String)>)
    ensures
        match r {
            Some((a, b, c, d)) => join_captures(msg@) == Some((a@, b@, c@, d@)),
            None => join_captures(msg@) is None,
        },
{
    match_user_line(msg, ") has joined ")
}

/// Matches a quit notice.
pub fn match_quit(msg: &str) -> (r: Option<(String, String, String, String)>)
    ensures
        match r {
            Some((a, b, c, d)) => quit_captures(msg@) == Some((a@, b@, c@, d@)),
            None => quit_captures(msg@) is None,
        },
{
    match_user_line(msg, ") has quit ")
}

/// How the end of a part notice divides into channel and comment: the
/// channel is the shortest prefix after which either nothing or a
/// ` (comment)` follows.
pub open spec fn comment_split(r: Seq<char>) -> (Seq<char>, Option<Seq<char>>) {
    if r.len() > 0 && r.last() == ')' {
        match first_occ(r, open_sep(), 0) {
            Some(q) => (r.subrange(0, q), Some(r.subrange(q + open_sep().len(), r.len() - 1))),
            None => (r, None),
        }
    } else {
        (r, None)
    }
}

/// `nick (user@host) has left channel` or
/// `nick (user@host) has left channel (comment)`:
/// `(nick, user, host, channel, comment)`.
pub open spec fn part_captures(m: Seq<char>) -> Option<
    (Seq<char>, Seq<char>, Seq<char>, Seq<char>, Option<Seq<char>>),
> {
    match user_captures(m, left_sep()) {
        None => None,
        Some((a, b, c, d)) => Some((a, b, c, comment_split(d).0, comment_split(d).1)),
    }
}

/// Matches a part notice.
pub fn match_part(msg: &str) -> (r: Option<(String, String, String, String, Option<String>)>)
    ensures
        match r {
            Some((a, b, c, d, e)) => part_captures(msg@) == Some(
                (a@, b@, c@, d@, e.deep_view()),
            ),
            None => part_captures(msg@) is None,
        },
{
    match match_user_line(msg, ") has left ") {
        None => None,
        Some((nick, user, host, rest)) => {
            let r = chars_of(rest.as_str());
            let n = r.len();
            let open = chars_of(" (");
            if n > 0 && r[n - 1] == ')' {
                proof {
                    lemma_first_occ(r@, open@, 0);
                    reveal_strlit(" (");
                }
                match find(&r, &open, 0) {
                    Some(q) => {
                        proof { lemma_open_sep_at(r@, q as int); }
                        let channel = substring(rest.as_str(), 0, q);
                        let comment = substring(rest.as_str(), q + 2, n - 1);
                        Some((nick, user, host, channel, Some(comment)))
                    },
                    None => Some((nick, user, host, rest, None)),
                }
            } else {
                Some((nick, user, host, rest, None))
            }
        },
    }
}

/// The part notice's channel is the shortest prefix of what follows
/// `) has left ` after which either nothing or ` (comment)` remains.
pub proof fn lemma_comment_split_shortest(r: Seq<char>)
    ensures
        ({
            let (ch, cm) = comment_split(r);
            &&& ch.len() <= r.len()
            &&& r.subrange(0, ch.len() as int) == ch
            &&& match cm {
                None => ch == r,
                Some(c) => r.subrange(ch.len() as int, r.len() as int) == open_sep() + c + seq![')'],
            }
            &&& forall|q: int|
                0 <= q < ch.len() ==> !(occurs_at(r, open_sep(), q) && r.last() == ')')
        }),
{
    lemma_first_occ(r, open_sep(), 0);
    reveal_strlit(" (");
    if r.len() > 0 && r.last() == ')' {
        if let Some(q) = first_occ(r, open_sep(), 0) {
            lemma_open_sep_at(r, q);
            let c = r.subrange(q + 2, r.len() - 1);
            assert(r.subrange(q, r.len() as int) =~= open_sep() + c + seq![')']);
            assert(r.subrange(0, q) =~= comment_split(r).0);
        } else {
            assert(r.subrange(0, r.len() as int) =~= r);
        }
    } else {
        assert(r.subrange(0, r.len() as int) =~= r);
    }
}

/// A kick notice `kicker has kicked target (comment)`, given by the indices
/// of ` has kicked ` and of the ` (` before the comment, as the shape admits it.
pub open spec fn kick_split_valid(m: Seq<char>, i: int, q: int) -> bool {
    &&& newline_free(m)
    &&& m.len() > 0
    &&& m.last() == ')'
    &&& occurs_at(m, kicked_sep(), i)
    &&& i + kicked_sep().len() <= q
    &&& occurs_at(m, open_sep(), q)
    &&& q + open_sep().len() <= m.len() - 1
}

/// The split of `^(.*?) has kicked (.*?) \((.*)\)$` that a lazy match picks.
pub open spec fn kick_split(m: Seq<char>) -> Option<(int, int)> {
    if !newline_free(m) || m.len() == 0 || m.last() != ')' {
        None
    } else {
        match first_occ(m, kicked_sep(), 0) {
            None => None,
            Some(i) => match first_occ(m, open_sep(), i + kicked_sep().len()) {
                None => None,
                Some(q) => Some((i, q)),
            },
        }
    }
}

/// `kicker has kicked target (comment)`: `(kicker, target, comment)`.
pub open spec fn kick_captures(m: Seq<char>) -> Option<(Seq<char>, Seq<char>, Seq<char>)> {
    match kick_split(m) {
        None => None,
        Some((i, q)) => Some(
            (
                m.subrange(0, i),
                m.subrange(i + kicked_sep().len(), q),
                m.subrange(q + open_sep().len(), m.len() - 1),
            ),
        ),
    }
}

/// The kick split picked is the leftmost one the shape admits, and exists
/// exactly when any does.
pub proof fn lemma_kick_split_leftmost(m: Seq<char>)
    ensures
        kick_split(m) is Some <==> exists|i: int, q: int| kick_split_valid(m, i, q),
        kick_split(m) matches Some((i, q)) ==> {
            &&& kick_split_valid(m, i, q)
            &&& forall|i2: int, q2: int| kick_split_valid(m, i2, q2) ==> i <= i2 && q <= q2
        },
{
    reveal_strlit(" (");
    lemma_first_occ(m, kicked_sep(), 0);
    if let Some(i) = first_occ(m, kicked_sep(), 0) {
        lemma_first_occ(m, open_sep(), i + kicked_sep().len());
    }
    if kick_split(m) is None {
        assert forall|i2: int, q2: int| !kick_split_valid(m, i2, q2) by {
            if kick_split_valid(m, i2, q2) {
                assert(first_occ(m, kicked_sep(), 0) is Some);
            }
        }
    } else {
        let (i, q) = kick_split(m)->0;
        lemma_open_sep_at(m, q);
        assert(kick_split_valid(m, i, q));
    }
}

/// The captures of a kick notice put back together give the line.
pub proof fn lemma_kick_captures_recompose(m: Seq<char>)
    ensures
        kick_captures(m) matches Some((a, b, c)) ==> m == a + kicked_sep() + b + open_sep() + c
            + seq![')'],
{
    if let Some((i, q)) = kick_split(m) {
        lemma_first_occ(m, kicked_sep(), 0);
        lemma_first_occ(m, open_sep(), i + kicked_sep().len());
        lemma_open_sep_at(m, q);
        let (a, b, c) = kick_captures(m)->0;
        assert(m =~= a + kicked_sep() + b + open_sep() + c + seq![')']);
    }
}

/// Matches a kick notice.
pub fn match_kick(msg: &str) -> (r: Option<(String, String, String)>)
    ensures
        match r {
            Some((a, b, c)) => kick_captures(msg@) == Some((a@, b@, c@)),
            None => kick_captures(msg@) is None,
        },
{
    let m = chars_of(msg);
    let n = m.len();
    if has_newline(&m) || n == 0 || m[n - 1] != ')' {
        return None;
    }
    let kicked = chars_of(" has kicked ");
    let open = chars_of(" (");
    proof {
        lemma_first_occ(m@, kicked@, 0);
        reveal_strlit(" (");
    }
    let i = match find(&m, &kicked, 0) {
        None => return None,
        Some(i) => i,
    };
    proof { lemma_first_occ(m@, open@, i + kicked@.len()); }
    let q = match find(&m, &open, i + kicked.len()) {
        None => return None,
        Some(q) => q,
    };
    proof { lemma_open_sep_at(m@, q as int); }
    let kicker = substring(msg, 0, i);
    let target = substring(msg, i + kicked.len(), q);
    let comment = substring(msg, q + 2, n - 1);
    Some((kicker, target, comment))
}

/// `Topic for `
pub open spec fn topic_for_prefix() -> Seq<char> {
    "Topic for "@
}

/// ` is `
pub open spec fn is_sep() -> Seq<char> {
    " is "@
}

/// The line has the shape `^Topic for .*? is .*`: after `Topic for ` comes
/// ` is ` with no line feed between them.
pub open spec fn topic_for_line(m: Seq<char>) -> bool {
    &&& has_prefix(m, topic_for_prefix())
    &&& exists|t: int|
        #![trigger occurs_at(m, is_sep(), t)]
        topic_for_prefix().len() <= t && occurs_at(m, is_sep(), t) && newline_free(
            m.subrange(topic_for_prefix().len() as int, t),
        )
}

/// Whether the line reports a channel's topic.
pub fn is_topic_for_line(msg: &str) -> (r: bool)
    ensures
        r == topic_for_line(msg@),
{
    if !starts_with(msg, "Topic for ") {
        return false;
    }
    let m = chars_of(msg);
    let pre = chars_of("Topic for ");
    let is = chars_of(" is ");
    let n = m.len();
    let from = pre.len();
    proof { lemma_first_occ(m@, is@, from as int); }
    match find(&m, &is, from) {
        None => false,
        Some(t) => {
            let r = !has_newline_in(&m, from, t);
            proof {
                if !r {
                    assert forall|t2: int|
                        topic_for_prefix().len() <= t2 && occurs_at(m@, is_sep(), t2) implies !newline_free(
                        m@.subrange(topic_for_prefix().len() as int, t2),
                    ) by {
                        if newline_free(m@.subrange(from as int, t2)) {
                            lemma_newline_free_subrange(m@, from as int, t2, from as int, t as int);
                        }
                    }
                }
            }
            r
        },
    }
}

/// ` has changed topic for `
pub open spec fn changed_topic_sep() -> Seq<char> {
    " has changed topic for "@
}

/// ` from "`
pub open spec fn from_sep() -> Seq<char> {
    " from \""@
}

/// `" to "`
pub open spec fn to_sep() -> Seq<char> {
    "\" to \""@
}

/// `^(.*?) has changed topic for (.*?) from "(.*?)" to "(.*?)"$` admits the
/// decomposition at the given separator indices.
pub open spec fn changed_topic_valid(m: Seq<char>, i: int, j: int, k: int) -> bool {
    &&& newline_free(m)
    &&& m.len() > 0
    &&& m.last() == '"'
    &&& occurs_at(m, changed_topic_sep(), i)
    &&& i + changed_topic_sep().len() <= j
    &&& occurs_at(m, from_sep(), j)
    &&& j + from_sep().len() <= k
    &&& occurs_at(m, to_sep(), k)
    &&& k + to_sep().len() <= m.len() - 1
}

/// The line reports a change of topic.
pub open spec fn topic_changed_line(m: Seq<char>) -> bool {
    exists|i: int, j: int, k: int| changed_topic_valid(m, i, j, k)
}

/// Whether the line reports a change of topic.
pub fn is_topic_changed_line(msg: &str) -> (r: bool)
    ensures
        r == topic_changed_line(msg@),
{
    let m = chars_of(msg);
    let n = m.len();
    if has_newline(&m) || n == 0 || m[n - 1] != '"' {
        return false;
    }
    let p1 = chars_of(" has changed topic for ");
    let p2 = chars_of(" from \"");
    let p3 = chars_of("\" to \"");
    proof { lemma_first_occ(m@, p1@, 0); }
    let i = match find(&m, &p1, 0) {
        None => return false,
        Some(i) => i,
    };
    proof { lemma_first_occ(m@, p2@, i + p1@.len()); }
    let j = match find(&m, &p2, i + p1.len()) {
        None => return false,
        Some(j) => j,
    };
    proof { lemma_first_occ(m@, p3@, j + p2@.len()); }
    let k = match find(&m, &p3, j + p2.len()) {
        None => return false,
        Some(k) => k,
    };
    let r = k + p3.len() < n;
    proof {
        if r {
            assert(changed_topic_valid(m@, i as int, j as int, k as int));
        }
    }
    r
}

/// `You are now known as `
pub open spec fn self_nick_prefix() -> Seq<char> {
    "You are now known as "@
}

/// `^You are now known as (.*?)$`: the new nickname.
pub open spec fn self_nick_capture(m: Seq<char>) -> Option<Seq<char>> {
    let rest = m.subrange(self_nick_prefix().len() as int, m.len() as int);
    if has_prefix(m, self_nick_prefix()) && newline_free(rest) {
        Some(rest)
    } else {
        None
    }
}

/// Matches the notice that one's own nickname changed.
pub fn match_self_nick(msg: &str) -> (r: Option<String>)
    ensures
        match r {
            Some(a) => self_nick_capture(msg@) == Some(a@),
            None => self_nick_capture(msg@) is None,
        },
{
    if !starts_with(msg, "You are now known as ") {
        return None;
    }
    let m = chars_of(msg);
    let pre = chars_of("You are now known as ");
    let n = m.len();
    if has_newline_in(&m, pre.len(), n) {
        return None;
    }
    Some(substring(msg, pre.len(), n))
}

/// ` is now known as `
pub open spec fn known_as_sep() -> Seq<char> {
    " is now known as "@
}

/// `^(.*) is now known as (.*?)$`: `(old, new)`, split at the last
/// ` is now known as `, as the greedy first group asks.
pub open spec fn nick_change_captures(m: Seq<char>) -> Option<(Seq<char>, Seq<char>)> {
    if !newline_free(m) {
        None
    } else {
        match last_occ(m, known_as_sep(), m.len() as int) {
            None => None,
            Some(i) => Some(
                (m.subrange(0, i), m.subrange(i + known_as_sep().len(), m.len() as int)),
            ),
        }
    }
}

/// The old and new nickname put back together give the line, and the old
/// one is the longest that does so: no ` is now known as ` starts after it.
pub proof fn lemma_nick_change_greedy(m: Seq<char>)
    ensures
        nick_change_captures(m) matches Some((a, b)) ==> {
            &&& m == a + known_as_sep() + b
            &&& forall|j: int| a.len() < j <= m.len() ==> !occurs_at(m, known_as_sep(), j)
        },
{
    lemma_last_occ(m, known_as_sep(), m.len() as int);
    if let Some((a, b)) = nick_change_captures(m) {
        assert(m =~= a + known_as_sep() + b);
    }
}

/// Matches the notice that someone's nickname changed.
pub fn match_nick_change(msg: &str) -> (r: Option<(String, String)>)
    ensures
        match r {
            Some((a, b)) => nick_change_captures(msg@) == Some((a@, b@)),
            None => nick_change_captures(msg@) is None,
        },
{
    let m = chars_of(msg);
    let n = m.len();
    if has_newline(&m) {
        return None;
    }
    let sep = chars_of(" is now known as ");
    proof { lemma_last_occ(m@, sep@, n as int); }
    match rfind(&m, &sep) {
        None => None,
        Some(i) => Some((substring(msg, 0, i), substring(msg, i + sep.len(), n))),
    }
}

/// `^@?(.*)$` on the nickname column: the nickname without a leading `@`.
pub open spec fn nick_capture(src: Seq<char>) -> Option<Seq<char>> {
    if !newline_free(src) {
        None
    } else if has_prefix(src, "@"@) {
        Some(src.subrange(1, src.len() as int))
    } else {
        Some(src)
    }
}

/// Matches the nickname column of a message line.
pub fn match_nick(src: &str) -> (r: Option<String>)
    ensures
        match r {
            Some(a) => nick_capture(src@) == Some(a@),
            None => nick_capture(src@) is None,
        },
{
    let m = chars_of(src);
    let n = m.len();
    if has_newline(&m) {
        return None;
    }
    if starts_with(src, "@") {
        proof { reveal_strlit("@"); }
        Some(substring(src, 1, n))
    } else {
        Some(String::from_str(src))
    }
}

} // verus!
