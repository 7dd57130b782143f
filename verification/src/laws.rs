//! What holds of the log reader across calls: what a join records, what a
//! departure or a change of nickname does to it, and what stays fixed.

use vstd::prelude::*;
use crate::event::SpecEvent;
use crate::log_parser::{
    known_prefix, line_columns, line_event, message_column, source_column, spec_read_columns, spec_apply, spec_join, spec_kick, spec_nick, spec_parse_line,
    spec_part, spec_privmsg, spec_quit, SpecState,
};
use crate::message::{SpecCommand, SpecPrefix};
use crate::patterns::{
    at_sep, joined_sep, kicked_sep, known_as_sep, left_sep, lemma_comment_split_shortest,
    lemma_kick_captures_recompose, lemma_nick_change_greedy, lemma_user_captures_recompose,
    open_sep, quit_sep, self_nick_prefix, topic_changed_line, topic_for_line, user_captures,
};
use crate::timestamp::Timestamp;
use crate::weather::{compass_point, compass_sector, intensity, precipitation_family, weather_code_name};
use crate::text::has_prefix;

verus! {

/// After a join of `nick` under `user` and `host`, a message from `nick` is
/// sent as `nick!user@host`.
pub proof fn law_join_then_message(
    st: Option<SpecState>,
    nick: Seq<char>,
    user: Seq<char>,
    host: Seq<char>,
    chan: Seq<char>,
    text: Seq<char>,
)
    ensures
        spec_privmsg(spec_join(st, nick, user, host, chan).1, nick, text).0.prefix == (SpecPrefix {
            nickname: nick,
            username: user,
            hostname: host,
        }),
{
}

/// Reading a join line and then a line said by the one who joined gives a
/// message sent as `nick!user@host`, with the user and host of the join.
pub proof fn law_join_line_then_message_line(
    st: Option<SpecState>,
    join_line: Seq<char>,
    message_line: Seq<char>,
    nick: Seq<char>,
    user: Seq<char>,
    host: Seq<char>,
    chan: Seq<char>,
    text: Seq<char>,
)
    requires
        line_event(join_line) == (SpecEvent::Join {
            nickname: nick,
            username: user,
            hostname: host,
            channel: chan,
        }),
        line_event(message_line) == (SpecEvent::Privmsg { nickname: nick, text }),
    ensures
        spec_parse_line(spec_parse_line(st, join_line).1, message_line).0 matches Ok(Some(p))
            && p.message.prefix == (SpecPrefix { nickname: nick, username: user, hostname: host }),
{
}

/// The first join fixes the channel and one's own nickname; later joins
/// keep them.
pub proof fn law_first_join_fixes_channel(
    st: Option<SpecState>,
    nick: Seq<char>,
    user: Seq<char>,
    host: Seq<char>,
    chan: Seq<char>,
)
    ensures
        st is None ==> spec_join(st, nick, user, host, chan).1.channel == chan
            && spec_join(st, nick, user, host, chan).1.my_nickname == nick,
        st matches Some(s) ==> spec_join(st, nick, user, host, chan).1.channel == s.channel
            && spec_join(st, nick, user, host, chan).1.my_nickname == s.my_nickname,
{
}

/// After a quit or a part of `nick`, a message from `nick` is sent with an
/// empty user and host.
pub proof fn law_departure_forgets(
    s: SpecState,
    nick: Seq<char>,
    user: Seq<char>,
    host: Seq<char>,
    chan: Seq<char>,
    comment: Seq<char>,
    part_comment: Option<Seq<char>>,
    text: Seq<char>,
)
    ensures
        spec_privmsg(spec_quit(s, nick, user, host, comment).1, nick, text).0.prefix == known_prefix(
            nick,
            None,
        ),
        spec_privmsg(spec_part(s, nick, user, host, chan, part_comment).1, nick, text).0.prefix
            == known_prefix(nick, None),
{
}

/// A change of nickname moves the user and host to the new nickname; the
/// old one, if other, is forgotten; all other nicknames keep theirs.
pub proof fn law_nick_moves_attrs(s: SpecState, old: Seq<char>, new: Seq<char>, other: Seq<char>)
    ensures
        spec_nick(s, old, new).1.attrs.get(new) == (if s.attrs.contains_key(old) {
            Some(s.attrs[old])
        } else if old == new {
            None
        } else {
            s.attrs.get(new)
        }),
        old != new ==> !spec_nick(s, old, new).1.attrs.contains_key(old),
        other != old && other != new ==> spec_nick(s, old, new).1.attrs.get(other) == s.attrs.get(
            other,
        ),
{
}

/// Kicks and messages are sent to the channel that the log records.
pub proof fn law_messages_go_to_channel(
    s: SpecState,
    nick: Seq<char>,
    target: Seq<char>,
    comment: Seq<char>,
    text: Seq<char>,
)
    ensures
        spec_privmsg(s, nick, text).0.command == SpecCommand::Privmsg(s.channel, text),
        spec_kick(s, nick, target, comment).0.command == SpecCommand::Kick(
            s.channel,
            target,
            Some(comment),
        ),
{
}

/// An `irc: ...` notice forgets the channel; other notices without a
/// message leave the state as it was; a notice of no known shape gives the
/// line back and leaves the state as it was.
pub proof fn law_notices(st: Option<SpecState>, line: Seq<char>)
    ensures
        spec_apply(st, SpecEvent::Disconnect, line) == (
            Ok::<Option<crate::message::SpecMessage>, Seq<char>>(None),
            None::<SpecState>,
        ),
        spec_apply(st, SpecEvent::Ignored, line) == (
            Ok::<Option<crate::message::SpecMessage>, Seq<char>>(None),
            st,
        ),
        spec_apply(st, SpecEvent::Unknown, line) == (
            Err::<Option<crate::message::SpecMessage>, Seq<char>>(line),
            st,
        ),
{
}

/// Once a channel is recorded, reading a line never changes it: the state
/// after the line either records the same channel or, after `irc: ...`,
/// none at all. One's own nickname changes only with `You are now known as`.
pub proof fn law_channel_stays(s: SpecState, line: Seq<char>)
    ensures
        spec_parse_line(Some(s), line).1 matches Some(s2) ==> s2.channel == s.channel,
        spec_parse_line(Some(s), line).1 matches Some(s2) ==> (s2.my_nickname == s.my_nickname
            || line_event(line) is SelfNick),
{
}

/// Reading a message or a kick leaves the state as it was; so a second
/// message from a nickname is sent as the first one was.
pub proof fn law_messages_keep_state(
    s: SpecState,
    nick: Seq<char>,
    text: Seq<char>,
    text2: Seq<char>,
    target: Seq<char>,
    comment: Seq<char>,
)
    ensures
        spec_privmsg(s, nick, text).1 == s,
        spec_kick(s, nick, target, comment).1 == s,
        spec_privmsg(spec_privmsg(s, nick, text).1, nick, text2).0.prefix == spec_privmsg(
            s,
            nick,
            text,
        ).0.prefix,
{
}

/// A message or a kick is sent with the user and host recorded for the
/// sender, or empty ones for a sender with none recorded.
pub proof fn law_sender_as_recorded(
    s: SpecState,
    nick: Seq<char>,
    text: Seq<char>,
    target: Seq<char>,
    comment: Seq<char>,
)
    ensures
        spec_privmsg(s, nick, text).0.prefix.nickname == nick,
        spec_kick(s, nick, target, comment).0.prefix.nickname == nick,
        s.attrs.contains_key(nick) ==> {
            &&& spec_privmsg(s, nick, text).0.prefix.username == s.attrs[nick].username
            &&& spec_privmsg(s, nick, text).0.prefix.hostname == s.attrs[nick].hostname
            &&& spec_kick(s, nick, target, comment).0.prefix.username == s.attrs[nick].username
            &&& spec_kick(s, nick, target, comment).0.prefix.hostname == s.attrs[nick].hostname
        },
        !s.attrs.contains_key(nick) ==> {
            &&& spec_privmsg(s, nick, text).0.prefix.username.len() == 0
            &&& spec_privmsg(s, nick, text).0.prefix.hostname.len() == 0
            &&& spec_kick(s, nick, target, comment).0.prefix.username.len() == 0
            &&& spec_kick(s, nick, target, comment).0.prefix.hostname.len() == 0
        },
{
}

/// A quit or a part of `nick` forgets `nick` and only `nick`: every other
/// nickname keeps its user and host, and the channel and one's own
/// nickname stay.
pub proof fn law_departure_forgets_only_nick(
    s: SpecState,
    nick: Seq<char>,
    user: Seq<char>,
    host: Seq<char>,
    chan: Seq<char>,
    comment: Seq<char>,
    part_comment: Option<Seq<char>>,
    other: Seq<char>,
)
    ensures
        !spec_quit(s, nick, user, host, comment).1.attrs.contains_key(nick),
        !spec_part(s, nick, user, host, chan, part_comment).1.attrs.contains_key(nick),
        other != nick ==> spec_quit(s, nick, user, host, comment).1.attrs.get(other)
            == s.attrs.get(other),
        other != nick ==> spec_part(s, nick, user, host, chan, part_comment).1.attrs.get(other)
            == s.attrs.get(other),
        spec_quit(s, nick, user, host, comment).1.channel == s.channel,
        spec_quit(s, nick, user, host, comment).1.my_nickname == s.my_nickname,
        spec_part(s, nick, user, host, chan, part_comment).1.channel == s.channel,
        spec_part(s, nick, user, host, chan, part_comment).1.my_nickname == s.my_nickname,
{
}

/// Joins, quits and parts are sent as the `nick!user@host` that the notice
/// names, whatever the state before it.
pub proof fn law_notice_sender(
    st: Option<SpecState>,
    s: SpecState,
    nick: Seq<char>,
    user: Seq<char>,
    host: Seq<char>,
    chan: Seq<char>,
    comment: Seq<char>,
    part_comment: Option<Seq<char>>,
)
    ensures
        spec_join(st, nick, user, host, chan).0.prefix == (SpecPrefix {
            nickname: nick,
            username: user,
            hostname: host,
        }),
        spec_quit(s, nick, user, host, comment).0.prefix == (SpecPrefix {
            nickname: nick,
            username: user,
            hostname: host,
        }),
        spec_part(s, nick, user, host, chan, part_comment).0.prefix == (SpecPrefix {
            nickname: nick,
            username: user,
            hostname: host,
        }),
{
}

/// A join line's message names its sender and channel as the line does:
/// the message column is `nick (user@host) has joined channel` for the
/// message's own sender and channel.
pub proof fn law_join_line_sender(st: Option<SpecState>, line: Seq<char>)
    requires
        line_columns(line) is Some,
    ensures
        spec_parse_line(st, line).0 matches Ok(Some(p)) ==> (p.message.command matches SpecCommand::Join(
            ch,
        ) ==> message_column(line) == p.message.prefix.nickname + open_sep()
            + p.message.prefix.username + at_sep() + p.message.prefix.hostname + joined_sep() + ch),
{
    lemma_user_captures_recompose(message_column(line), joined_sep());
}

/// A quit line's message names its sender and comment as the line does:
/// the message column is `nick (user@host) has quit comment`.
pub proof fn law_quit_line_sender(st: Option<SpecState>, line: Seq<char>)
    requires
        line_columns(line) is Some,
    ensures
        spec_parse_line(st, line).0 matches Ok(Some(p)) ==> (p.message.command matches SpecCommand::Quit(
            Some(c),
        ) ==> message_column(line) == p.message.prefix.nickname + open_sep()
            + p.message.prefix.username + at_sep() + p.message.prefix.hostname + quit_sep() + c),
{
    lemma_user_captures_recompose(message_column(line), quit_sep());
}

/// A part line's message names its sender, channel and comment as the line
/// does: the message column is `nick (user@host) has left channel`,
/// followed by ` (comment)` where the message has a comment.
pub proof fn law_part_line_sender(st: Option<SpecState>, line: Seq<char>)
    requires
        line_columns(line) is Some,
    ensures
        spec_parse_line(st, line).0 matches Ok(Some(p)) ==> (p.message.command matches SpecCommand::Part(
            ch,
            cm,
        ) ==> message_column(line) == p.message.prefix.nickname + open_sep()
            + p.message.prefix.username + at_sep() + p.message.prefix.hostname + left_sep() + ch
            + match cm {
            None => Seq::<char>::empty(),
            Some(c) => open_sep() + c + seq![')'],
        }),
{
    let m = message_column(line);
    lemma_user_captures_recompose(m, left_sep());
    if let Some((a, b, c, d)) = user_captures(m, left_sep()) {
        lemma_comment_split_shortest(d);
        let (ch, cm) = crate::patterns::comment_split(d);
        match cm {
            None => {},
            Some(x) => {
                assert(d =~= d.subrange(0, ch.len() as int) + d.subrange(ch.len() as int, d.len() as int));
            },
        }
        assert(d == ch + match cm {
            None => Seq::<char>::empty(),
            Some(x) => open_sep() + x + seq![')'],
        });
    }
}

/// Distinct weather codes are put in distinct words.
pub proof fn law_weather_names_distinct(c1: u8, c2: u8)
    requires
        weather_code_name(c1) is Some,
        weather_code_name(c2) is Some,
        c1 != c2,
    ensures
        weather_code_name(c1) != weather_code_name(c2),
{
    reveal_strlit("clear");
    reveal_strlit("mainly clear");
    reveal_strlit("partly cloudy");
    reveal_strlit("overcast");
    reveal_strlit("fog");
    reveal_strlit("depositing rime fog");
    reveal_strlit("light drizzle");
    reveal_strlit("moderate drizzle");
    reveal_strlit("dense drizzle");
    reveal_strlit("light freezing drizzle");
    reveal_strlit("dense freezing drizzle");
    reveal_strlit("slight rain");
    reveal_strlit("moderate rain");
    reveal_strlit("heavy rain");
    reveal_strlit("light freezing rain");
    reveal_strlit("heavy freezing rain");
    reveal_strlit("slight snow");
    reveal_strlit("moderate snow");
    reveal_strlit("heavy snow");
    reveal_strlit("snow grains");
    reveal_strlit("slight rain shower");
    reveal_strlit("moderate rain shower");
    reveal_strlit("violent rain shower");
    reveal_strlit("slight snow shower");
    reveal_strlit("heavy snow shower");
    reveal_strlit("Thunderstorm");
    reveal_strlit("thunderstorm with slight hail");
    reveal_strlit("thunderstorm with heavy hail");
    let n1 = weather_code_name(c1)->0;
    let n2 = weather_code_name(c2)->0;
    assert(n1.len() != n2.len() || n1[0] != n2[0] || n1[1] != n2[1] || n1[6] != n2[6] || n1[7]
        != n2[7] || n1[9] != n2[9]);
}

/// A message line's message is said by the nickname of the source column,
/// less its leading `@` where it has one, to the recorded channel, and says the whole message
/// column.
pub proof fn law_privmsg_line_sender(st: Option<SpecState>, line: Seq<char>)
    requires
        line_columns(line) is Some,
    ensures
        spec_parse_line(st, line).0 matches Ok(Some(p)) ==> (p.message.command matches SpecCommand::Privmsg(
            ch,
            text,
        ) ==> {
            &&& text == message_column(line)
            &&& has_prefix(source_column(line), "@"@) ==> source_column(line) == "@"@
                + p.message.prefix.nickname
            &&& !has_prefix(source_column(line), "@"@) ==> source_column(line)
                == p.message.prefix.nickname
            &&& st matches Some(s) ==> ch == s.channel
        }),
{
    let src = source_column(line);
    reveal_strlit("@");
    if src.len() > 0 && crate::text::has_prefix(src, "@"@) {
        assert(src =~= "@"@ + src.subrange(1, src.len() as int));
    }
}

/// Network notices of topics, channel information, modes and notices give
/// no message and leave the state as it was; `irc: ...` gives none and
/// forgets the channel.
pub proof fn law_network_notices(st: Option<SpecState>, line: Seq<char>)
    requires
        line_columns(line) is Some,
        source_column(line) == "--"@,
    ensures
        ({
            let m = message_column(line);
            topic_for_line(m) || topic_changed_line(m) || has_prefix(m, "Topic set by "@)
                || has_prefix(m, "Channel "@) || has_prefix(m, "Mode "@) || has_prefix(m, "Notice"@)
                || has_prefix(m, "PvNotice"@)
        }) ==> spec_parse_line(st, line) == (
            Ok::<Option<crate::log_parser::SpecParsed>, Seq<char>>(None),
            st,
        ),
        has_prefix(message_column(line), "irc: "@) && !topic_changed_line(message_column(line))
            ==> spec_parse_line(st, line) == (
            Ok::<Option<crate::log_parser::SpecParsed>, Seq<char>>(None),
            None::<SpecState>,
        ),
{
    let m = message_column(line);
    reveal_strlit("irc: ");
    reveal_strlit("Topic for ");
    reveal_strlit("Topic set by ");
    reveal_strlit("Channel ");
    reveal_strlit("Mode ");
    reveal_strlit("Notice");
    reveal_strlit("PvNotice");
    reveal_strlit("-->");
    reveal_strlit("<--");
    reveal_strlit("--");
    if has_prefix(m, "irc: "@) {
        assert(m.subrange(0, 5)[0] == m[0]);
        lemma_starts_with(m, "Topic for "@);
        lemma_starts_with(m, "Topic set by "@);
        lemma_starts_with(m, "Channel "@);
        assert(!topic_for_line(m));
    }
}

/// A kick line's message names kicker, target and comment as the line does:
/// the message column is `kicker has kicked target (comment)`.
pub proof fn law_kick_line_sender(st: Option<SpecState>, line: Seq<char>)
    requires
        line_columns(line) is Some,
    ensures
        spec_parse_line(st, line).0 matches Ok(Some(p)) ==> (p.message.command matches SpecCommand::Kick(
            ch,
            target,
            Some(c),
        ) ==> message_column(line) == p.message.prefix.nickname + kicked_sep() + target
            + open_sep() + c + seq![')']),
{
    lemma_kick_captures_recompose(message_column(line));
}

/// A change of nickname names the old and new nickname as the line does:
/// the message column is `old is now known as new`, or, for one's own
/// nickname, `You are now known as new`, the old one being one's own.
pub proof fn law_nick_line_sender(st: Option<SpecState>, line: Seq<char>)
    requires
        line_columns(line) is Some,
    ensures
        spec_parse_line(st, line).0 matches Ok(Some(p)) ==> (p.message.command matches SpecCommand::Nick(
            new,
        ) ==> message_column(line) == p.message.prefix.nickname + known_as_sep() + new || (
        message_column(line) == self_nick_prefix() + new && (st matches Some(s)
            && p.message.prefix.nickname == s.my_nickname))),
{
    let m = message_column(line);
    lemma_nick_change_greedy(m);
    if crate::text::has_prefix(m, self_nick_prefix()) {
        assert(m =~= self_nick_prefix() + m.subrange(self_nick_prefix().len() as int, m.len() as int));
    }
}

/// `You are now known as new` makes `new` one's own nickname, and is sent
/// by the nickname one had.
pub proof fn law_self_nick(s: SpecState, new: Seq<char>, line: Seq<char>)
    ensures
        spec_apply(Some(s), SpecEvent::SelfNick { new_nickname: new }, line).1 matches Some(s2)
            && s2.my_nickname == new && s2.channel == s.channel,
        spec_apply(Some(s), SpecEvent::SelfNick { new_nickname: new }, line).0 matches Ok(Some(m))
            && m.prefix.nickname == s.my_nickname && m.command == SpecCommand::Nick(new),
{
}

/// The message read from a line carries the time given for the line, and a
/// line of no known shape comes back whole.
pub proof fn law_read_columns_time_and_line(
    st: Option<SpecState>,
    t: Timestamp,
    src: Seq<char>,
    msg: Seq<char>,
    line: Seq<char>,
)
    ensures
        spec_read_columns(st, t, src, msg, line).0 matches Ok(Some(p)) ==> p.timestamp == t,
        spec_read_columns(st, t, src, msg, line).0 matches Err(x) ==> x == line,
{
}

/// The eight compass points have distinct names, and the point given for a
/// direction lies within 22.5 degrees of it.
pub proof fn law_compass(d: int, i: int, j: int)
    requires
        0 <= d <= 360,
    ensures
        0 <= i < 8 && 0 <= j < 8 && i != j ==> compass_point(i) != compass_point(j),
        0 <= compass_sector(d) < 8,
        (compass_sector(d) == 0 && (d <= 22 || d >= 338)) || (compass_sector(d) != 0 && 45
            * compass_sector(d) - 22 <= d <= 45 * compass_sector(d) + 22),
{
    reveal_strlit("N");
    reveal_strlit("NE");
    reveal_strlit("E");
    reveal_strlit("SE");
    reveal_strlit("S");
    reveal_strlit("SW");
    reveal_strlit("W");
    reveal_strlit("NW");
    if 0 <= i < 8 && 0 <= j < 8 && i != j {
        let a = compass_point(i);
        let b = compass_point(j);
        assert(a.len() != b.len() || a[0] != b[0] || a[1] != b[1]);
    }
}

/// Where `w` starts with `p`, and where its first letter already differs.
proof fn lemma_starts_with(w: Seq<char>, p: Seq<char>)
    ensures
        p.len() <= w.len() && w.subrange(0, p.len() as int) =~= p ==> has_prefix(w, p),
        0 < p.len() && 0 < w.len() && w[0] != p[0] ==> !has_prefix(w, p),
{
    if 0 < p.len() && 0 < w.len() && w[0] != p[0] && p.len() <= w.len() {
        assert(w.subrange(0, p.len() as int)[0] == w[0]);
    }
}

/// The intensity that the words for each graded weather code begin with.
proof fn lemma_graded_intensities()
    ensures
        intensity(weather_code_name(51)->0) == 0,
        intensity(weather_code_name(53)->0) == 1,
        intensity(weather_code_name(55)->0) == 2,
        intensity(weather_code_name(56)->0) == 0,
        intensity(weather_code_name(57)->0) == 2,
        intensity(weather_code_name(61)->0) == 0,
        intensity(weather_code_name(63)->0) == 1,
        intensity(weather_code_name(65)->0) == 2,
        intensity(weather_code_name(66)->0) == 0,
        intensity(weather_code_name(67)->0) == 2,
        intensity(weather_code_name(71)->0) == 0,
        intensity(weather_code_name(73)->0) == 1,
        intensity(weather_code_name(75)->0) == 2,
        intensity(weather_code_name(80)->0) == 0,
        intensity(weather_code_name(81)->0) == 1,
        intensity(weather_code_name(82)->0) == 2,
        intensity(weather_code_name(85)->0) == 0,
        intensity(weather_code_name(86)->0) == 2,
{
    reveal_strlit("slight ");
    reveal_strlit("light ");
    reveal_strlit("moderate ");
    reveal_strlit("dense ");
    reveal_strlit("heavy ");
    reveal_strlit("violent ");
    reveal_strlit("light drizzle");
    lemma_starts_with("light drizzle"@, "slight "@);
    lemma_starts_with("light drizzle"@, "light "@);
    lemma_starts_with("light drizzle"@, "moderate "@);
    lemma_starts_with("light drizzle"@, "dense "@);
    lemma_starts_with("light drizzle"@, "heavy "@);
    lemma_starts_with("light drizzle"@, "violent "@);
    assert("light drizzle"@.subrange(0, 6) =~= "light "@);
    reveal_strlit("moderate drizzle");
    lemma_starts_with("moderate drizzle"@, "slight "@);
    lemma_starts_with("moderate drizzle"@, "light "@);
    lemma_starts_with("moderate drizzle"@, "moderate "@);
    lemma_starts_with("moderate drizzle"@, "dense "@);
    lemma_starts_with("moderate drizzle"@, "heavy "@);
    lemma_starts_with("moderate drizzle"@, "violent "@);
    assert("moderate drizzle"@.subrange(0, 9) =~= "moderate "@);
    reveal_strlit("dense drizzle");
    lemma_starts_with("dense drizzle"@, "slight "@);
    lemma_starts_with("dense drizzle"@, "light "@);
    lemma_starts_with("dense drizzle"@, "moderate "@);
    lemma_starts_with("dense drizzle"@, "dense "@);
    lemma_starts_with("dense drizzle"@, "heavy "@);
    lemma_starts_with("dense drizzle"@, "violent "@);
    assert("dense drizzle"@.subrange(0, 6) =~= "dense "@);
    reveal_strlit("light freezing drizzle");
    lemma_starts_with("light freezing drizzle"@, "slight "@);
    lemma_starts_with("light freezing drizzle"@, "light "@);
    lemma_starts_with("light freezing drizzle"@, "moderate "@);
    lemma_starts_with("light freezing drizzle"@, "dense "@);
    lemma_starts_with("light freezing drizzle"@, "heavy "@);
    lemma_starts_with("light freezing drizzle"@, "violent "@);
    assert("light freezing drizzle"@.subrange(0, 6) =~= "light "@);
    reveal_strlit("dense freezing drizzle");
    lemma_starts_with("dense freezing drizzle"@, "slight "@);
    lemma_starts_with("dense freezing drizzle"@, "light "@);
    lemma_starts_with("dense freezing drizzle"@, "moderate "@);
    lemma_starts_with("dense freezing drizzle"@, "dense "@);
    lemma_starts_with("dense freezing drizzle"@, "heavy "@);
    lemma_starts_with("dense freezing drizzle"@, "violent "@);
    assert("dense freezing drizzle"@.subrange(0, 6) =~= "dense "@);
    reveal_strlit("slight rain");
    lemma_starts_with("slight rain"@, "slight "@);
    lemma_starts_with("slight rain"@, "light "@);
    lemma_starts_with("slight rain"@, "moderate "@);
    lemma_starts_with("slight rain"@, "dense "@);
    lemma_starts_with("slight rain"@, "heavy "@);
    lemma_starts_with("slight rain"@, "violent "@);
    assert("slight rain"@.subrange(0, 7) =~= "slight "@);
    reveal_strlit("moderate rain");
    lemma_starts_with("moderate rain"@, "slight "@);
    lemma_starts_with("moderate rain"@, "light "@);
    lemma_starts_with("moderate rain"@, "moderate "@);
    lemma_starts_with("moderate rain"@, "dense "@);
    lemma_starts_with("moderate rain"@, "heavy "@);
    lemma_starts_with("moderate rain"@, "violent "@);
    assert("moderate rain"@.subrange(0, 9) =~= "moderate "@);
    reveal_strlit("heavy rain");
    lemma_starts_with("heavy rain"@, "slight "@);
    lemma_starts_with("heavy rain"@, "light "@);
    lemma_starts_with("heavy rain"@, "moderate "@);
    lemma_starts_with("heavy rain"@, "dense "@);
    lemma_starts_with("heavy rain"@, "heavy "@);
    lemma_starts_with("heavy rain"@, "violent "@);
    assert("heavy rain"@.subrange(0, 6) =~= "heavy "@);
    reveal_strlit("light freezing rain");
    lemma_starts_with("light freezing rain"@, "slight "@);
    lemma_starts_with("light freezing rain"@, "light "@);
    lemma_starts_with("light freezing rain"@, "moderate "@);
    lemma_starts_with("light freezing rain"@, "dense "@);
    lemma_starts_with("light freezing rain"@, "heavy "@);
    lemma_starts_with("light freezing rain"@, "violent "@);
    assert("light freezing rain"@.subrange(0, 6) =~= "light "@);
    reveal_strlit("heavy freezing rain");
    lemma_starts_with("heavy freezing rain"@, "slight "@);
    lemma_starts_with("heavy freezing rain"@, "light "@);
    lemma_starts_with("heavy freezing rain"@, "moderate "@);
    lemma_starts_with("heavy freezing rain"@, "dense "@);
    lemma_starts_with("heavy freezing rain"@, "heavy "@);
    lemma_starts_with("heavy freezing rain"@, "violent "@);
    assert("heavy freezing rain"@.subrange(0, 6) =~= "heavy "@);
    reveal_strlit("slight snow");
    lemma_starts_with("slight snow"@, "slight "@);
    lemma_starts_with("slight snow"@, "light "@);
    lemma_starts_with("slight snow"@, "moderate "@);
    lemma_starts_with("slight snow"@, "dense "@);
    lemma_starts_with("slight snow"@, "heavy "@);
    lemma_starts_with("slight snow"@, "violent "@);
    assert("slight snow"@.subrange(0, 7) =~= "slight "@);
    reveal_strlit("moderate snow");
    lemma_starts_with("moderate snow"@, "slight "@);
    lemma_starts_with("moderate snow"@, "light "@);
    lemma_starts_with("moderate snow"@, "moderate "@);
    lemma_starts_with("moderate snow"@, "dense "@);
    lemma_starts_with("moderate snow"@, "heavy "@);
    lemma_starts_with("moderate snow"@, "violent "@);
    assert("moderate snow"@.subrange(0, 9) =~= "moderate "@);
    reveal_strlit("heavy snow");
    lemma_starts_with("heavy snow"@, "slight "@);
    lemma_starts_with("heavy snow"@, "light "@);
    lemma_starts_with("heavy snow"@, "moderate "@);
    lemma_starts_with("heavy snow"@, "dense "@);
    lemma_starts_with("heavy snow"@, "heavy "@);
    lemma_starts_with("heavy snow"@, "violent "@);
    assert("heavy snow"@.subrange(0, 6) =~= "heavy "@);
    reveal_strlit("slight rain shower");
    lemma_starts_with("slight rain shower"@, "slight "@);
    lemma_starts_with("slight rain shower"@, "light "@);
    lemma_starts_with("slight rain shower"@, "moderate "@);
    lemma_starts_with("slight rain shower"@, "dense "@);
    lemma_starts_with("slight rain shower"@, "heavy "@);
    lemma_starts_with("slight rain shower"@, "violent "@);
    assert("slight rain shower"@.subrange(0, 7) =~= "slight "@);
    reveal_strlit("moderate rain shower");
    lemma_starts_with("moderate rain shower"@, "slight "@);
    lemma_starts_with("moderate rain shower"@, "light "@);
    lemma_starts_with("moderate rain shower"@, "moderate "@);
    lemma_starts_with("moderate rain shower"@, "dense "@);
    lemma_starts_with("moderate rain shower"@, "heavy "@);
    lemma_starts_with("moderate rain shower"@, "violent "@);
    assert("moderate rain shower"@.subrange(0, 9) =~= "moderate "@);
    reveal_strlit("violent rain shower");
    lemma_starts_with("violent rain shower"@, "slight "@);
    lemma_starts_with("violent rain shower"@, "light "@);
    lemma_starts_with("violent rain shower"@, "moderate "@);
    lemma_starts_with("violent rain shower"@, "dense "@);
    lemma_starts_with("violent rain shower"@, "heavy "@);
    lemma_starts_with("violent rain shower"@, "violent "@);
    assert("violent rain shower"@.subrange(0, 8) =~= "violent "@);
    reveal_strlit("slight snow shower");
    lemma_starts_with("slight snow shower"@, "slight "@);
    lemma_starts_with("slight snow shower"@, "light "@);
    lemma_starts_with("slight snow shower"@, "moderate "@);
    lemma_starts_with("slight snow shower"@, "dense "@);
    lemma_starts_with("slight snow shower"@, "heavy "@);
    lemma_starts_with("slight snow shower"@, "violent "@);
    assert("slight snow shower"@.subrange(0, 7) =~= "slight "@);
    reveal_strlit("heavy snow shower");
    lemma_starts_with("heavy snow shower"@, "slight "@);
    lemma_starts_with("heavy snow shower"@, "light "@);
    lemma_starts_with("heavy snow shower"@, "moderate "@);
    lemma_starts_with("heavy snow shower"@, "dense "@);
    lemma_starts_with("heavy snow shower"@, "heavy "@);
    lemma_starts_with("heavy snow shower"@, "violent "@);
    assert("heavy snow shower"@.subrange(0, 6) =~= "heavy "@);
}

/// Within each kind of precipitation, a higher WMO code is put in words of
/// a higher intensity: slight or light, then moderate, then dense, heavy or
/// violent.
pub proof fn law_intensity_rises(c1: u8, c2: u8)
    requires
        weather_code_name(c1) is Some,
        weather_code_name(c2) is Some,
        precipitation_family(c1) != 0,
        precipitation_family(c1) == precipitation_family(c2),
        c1 < c2,
    ensures
        0 <= intensity(weather_code_name(c1)->0) < intensity(weather_code_name(c2)->0),
{
    lemma_graded_intensities();
}

} // verus!
