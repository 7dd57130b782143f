//! Reads a WeeChat IRC log line by line into IRC messages, remembering for
//! the channel who is in it, under which user and host.

use vstd::prelude::*;
use vstd::hash_map::StringHashMap;
use crate::event::{classify, needs_state, spec_classify, LogEvent, SpecEvent};
use crate::message::{Command, Message, SpecCommand, SpecMessage, SpecPrefix};
use crate::text::{chars_of, find, first_occ, lemma_first_occ, opt_str_view};
use crate::timestamp::{log_time_format, naive_datetime_parse, parse_log_time, Timestamp};

verus! {

/// The user and host under which a nickname joined.
#[derive(Debug)]
pub struct Attrs {
    pub username: String,
    pub hostname: String,
}

/// The user and host of a nickname, as text.
pub struct SpecAttrs {
    pub username: Seq<char>,
    pub hostname: Seq<char>,
}

impl View for Attrs {
    type V = SpecAttrs;

    open spec fn view(&self) -> SpecAttrs {
        SpecAttrs { username: self.username@, hostname: self.hostname@ }
    }
}

/// The map of nicknames to user and host, as text.
pub open spec fn attrs_view(m: Map<Seq<char>, Attrs>) -> Map<Seq<char>, SpecAttrs> {
    m.map_values(|a: Attrs| a@)
}

/// What the parser knows of the channel that the log records.
pub struct State {
    /// The channel that the log records.
    pub channel: String,
    /// One's own nickname.
    pub my_nickname: String,
    /// The user and host of each nickname in the channel.
    pub attrs: StringHashMap<Attrs>,
}

/// What the parser knows of the channel, as text.
pub struct SpecState {
    pub channel: Seq<char>,
    pub my_nickname: Seq<char>,
    pub attrs: Map<Seq<char>, SpecAttrs>,
}

impl View for State {
    type V = SpecState;

    open spec fn view(&self) -> SpecState {
        SpecState {
            channel: self.channel@,
            my_nickname: self.my_nickname@,
            attrs: attrs_view(self.attrs@),
        }
    }
}

impl State {
    /// The state of a channel just joined, with nobody known in it.
    pub fn new(channel: String, my_nickname: String) -> (r: State)
        ensures
            r@ == (SpecState {
                channel: channel@,
                my_nickname: my_nickname@,
                attrs: Map::empty(),
            }),
    {
        let r = State { channel, my_nickname, attrs: StringHashMap::new() };
        assert(attrs_view(r.attrs@) =~= Map::empty());
        r
    }
}

/// Inserting into the map of nicknames inserts the entry's text.
proof fn lemma_attrs_view_insert(m: Map<Seq<char>, Attrs>, k: Seq<char>, v: Attrs)
    ensures
        attrs_view(m.insert(k, v)) == attrs_view(m).insert(k, v@),
{
    assert(attrs_view(m.insert(k, v)) =~= attrs_view(m).insert(k, v@));
}

/// Removing from the map of nicknames removes the entry's text.
proof fn lemma_attrs_view_remove(m: Map<Seq<char>, Attrs>, k: Seq<char>)
    ensures
        attrs_view(m.remove(k)) == attrs_view(m).remove(k),
{
    assert(attrs_view(m.remove(k)) =~= attrs_view(m).remove(k));
}

/// A sender with the user and host known for it, or empty ones.
pub open spec fn known_prefix(nick: Seq<char>, a: Option<SpecAttrs>) -> SpecPrefix {
    match a {
        Some(x) => SpecPrefix { nickname: nick, username: x.username, hostname: x.hostname },
        None => SpecPrefix { nickname: nick, username: Seq::empty(), hostname: Seq::empty() },
    }
}

/// A join: the first one fixes the channel and one's own nickname; every
/// one records the user and host of the nickname.
pub open spec fn spec_join(
    st: Option<SpecState>,
    nick: Seq<char>,
    user: Seq<char>,
    host: Seq<char>,
    chan: Seq<char>,
) -> (SpecMessage, SpecState) {
    let base = match st {
        Some(s) => s,
        None => SpecState { channel: chan, my_nickname: nick, attrs: Map::empty() },
    };
    (
        SpecMessage {
            prefix: SpecPrefix { nickname: nick, username: user, hostname: host },
            command: SpecCommand::Join(chan),
        },
        SpecState {
            channel: base.channel,
            my_nickname: base.my_nickname,
            attrs: base.attrs.insert(nick, SpecAttrs { username: user, hostname: host }),
        },
    )
}

/// The state without the nickname in its map.
pub open spec fn forget(s: SpecState, nick: Seq<char>) -> SpecState {
    SpecState { channel: s.channel, my_nickname: s.my_nickname, attrs: s.attrs.remove(nick) }
}

/// A quit: the nickname is forgotten.
pub open spec fn spec_quit(
    s: SpecState,
    nick: Seq<char>,
    user: Seq<char>,
    host: Seq<char>,
    comment: Seq<char>,
) -> (SpecMessage, SpecState) {
    (
        SpecMessage {
            prefix: SpecPrefix { nickname: nick, username: user, hostname: host },
            command: SpecCommand::Quit(Some(comment)),
        },
        forget(s, nick),
    )
}

/// A part: the nickname is forgotten.
pub open spec fn spec_part(
    s: SpecState,
    nick: Seq<char>,
    user: Seq<char>,
    host: Seq<char>,
    chan: Seq<char>,
    comment: Option<Seq<char>>,
) -> (SpecMessage, SpecState) {
    (
        SpecMessage {
            prefix: SpecPrefix { nickname: nick, username: user, hostname: host },
            command: SpecCommand::Part(chan, comment),
        },
        forget(s, nick),
    )
}

/// A kick, in the recorded channel, sent with the kicker's known user and
/// host; the state stays.
pub open spec fn spec_kick(
    s: SpecState,
    kicker: Seq<char>,
    target: Seq<char>,
    comment: Seq<char>,
) -> (SpecMessage, SpecState) {
    (
        SpecMessage {
            prefix: known_prefix(kicker, s.attrs.get(kicker)),
            command: SpecCommand::Kick(s.channel, target, Some(comment)),
        },
        s,
    )
}

/// A change of nickname: the user and host move to the new nickname. The
/// message's sender carries the known username in both its user and its
/// host place.
pub open spec fn spec_nick(s: SpecState, old: Seq<char>, new: Seq<char>) -> (SpecMessage, SpecState) {
    let a = s.attrs.get(old);
    let attrs = match a {
        Some(x) => s.attrs.remove(old).insert(new, x),
        None => s.attrs.remove(old),
    };
    let user = match a {
        Some(x) => x.username,
        None => Seq::empty(),
    };
    (
        SpecMessage {
            prefix: SpecPrefix { nickname: old, username: user, hostname: user },
            command: SpecCommand::Nick(new),
        },
        SpecState { channel: s.channel, my_nickname: s.my_nickname, attrs },
    )
}

/// A message said in the recorded channel, sent with the speaker's known
/// user and host; the state stays.
pub open spec fn spec_privmsg(s: SpecState, nick: Seq<char>, text: Seq<char>) -> (SpecMessage, SpecState) {
    (
        SpecMessage {
            prefix: known_prefix(nick, s.attrs.get(nick)),
            command: SpecCommand::Privmsg(s.channel, text),
        },
        s,
    )
}

/// A log line that has no known shape; it holds the whole line.
#[derive(Debug)]
pub struct UnknownMessage(pub String);

/// A message read from the log, with the time of its line.
#[derive(Debug)]
pub struct ParsedMessage {
    pub timestamp: Timestamp,
    pub message: Message,
}

/// A message read from the log, as text.
pub struct SpecParsed {
    pub timestamp: Timestamp,
    pub message: SpecMessage,
}

impl View for ParsedMessage {
    type V = SpecParsed;

    open spec fn view(&self) -> SpecParsed {
        SpecParsed { timestamp: self.timestamp, message: self.message@ }
    }
}

impl ParsedMessage {
    /// The message `message` at time `timestamp`.
    pub fn new(timestamp: Timestamp, message: Message) -> (r: ParsedMessage)
        ensures
            r@ == (SpecParsed { timestamp, message: message@ }),
    {
        ParsedMessage { timestamp, message }
    }
}

/// The text of what reading a line gave.
pub open spec fn parse_result_view(r: Result<Option<ParsedMessage>, UnknownMessage>) -> Result<
    Option<SpecParsed>,
    Seq<char>,
> {
    match r {
        Ok(Some(p)) => Ok(Some(p@)),
        Ok(None) => Ok(None),
        Err(u) => Err(u.0@),
    }
}

/// The text of what taking in an event gave.
pub open spec fn apply_result_view(r: Result<Option<Message>, UnknownMessage>) -> Result<
    Option<SpecMessage>,
    Seq<char>,
> {
    match r {
        Ok(Some(m)) => Ok(Some(m@)),
        Ok(None) => Ok(None),
        Err(u) => Err(u.0@),
    }
}

/// The tab that separates the columns of a log line.
pub open spec fn tab() -> Seq<char> {
    "\t"@
}

/// The time, source and message columns of a log line: what precedes the
/// first tab, what lies between it and the second, and all that follows.
pub open spec fn line_columns(l: Seq<char>) -> Option<(Seq<char>, Seq<char>, Seq<char>)> {
    match first_occ(l, tab(), 0) {
        None => None,
        Some(t1) => match first_occ(l, tab(), t1 + tab().len()) {
            None => None,
            Some(t2) => Some(
                (
                    l.subrange(0, t1),
                    l.subrange(t1 + tab().len(), t2),
                    l.subrange(t2 + tab().len(), l.len() as int),
                ),
            ),
        },
    }
}

/// The source column of a line with three columns.
pub open spec fn source_column(line: Seq<char>) -> Seq<char> {
    let (ts, src, msg) = line_columns(line)->0;
    src
}

/// The message column of a line with three columns.
pub open spec fn message_column(line: Seq<char>) -> Seq<char> {
    let (ts, src, msg) = line_columns(line)->0;
    msg
}

/// What a line with three columns reports.
pub open spec fn line_event(line: Seq<char>) -> SpecEvent {
    let (ts, src, msg) = line_columns(line)->0;
    spec_classify(src, msg)
}

/// Taking in an event: the message it yields, or the line for a notice of
/// no known shape, and the state after it.
pub open spec fn spec_apply(st: Option<SpecState>, e: SpecEvent, line: Seq<char>) -> (
    Result<Option<SpecMessage>, Seq<char>>,
    Option<SpecState>,
) {
    match e {
        SpecEvent::Join { nickname, username, hostname, channel } => {
            let (m, s) = spec_join(st, nickname, username, hostname, channel);
            (Ok(Some(m)), Some(s))
        },
        SpecEvent::Ignored => (Ok(None), st),
        SpecEvent::Disconnect => (Ok(None), None),
        SpecEvent::Unknown => (Err(line), st),
        SpecEvent::Malformed => (Err(line), st),
        _ => match st {
            None => (Err(line), st),
            Some(s) => {
                let (m, s2) = match e {
                    SpecEvent::Quit { nickname, username, hostname, comment } => spec_quit(
                        s,
                        nickname,
                        username,
                        hostname,
                        comment,
                    ),
                    SpecEvent::Part { nickname, username, hostname, channel, comment } => spec_part(
                        s,
                        nickname,
                        username,
                        hostname,
                        channel,
                        comment,
                    ),
                    SpecEvent::Kick { kicker, target, comment } => spec_kick(
                        s,
                        kicker,
                        target,
                        comment,
                    ),
                    SpecEvent::SelfNick { new_nickname } => spec_nick(
                        SpecState {
                            channel: s.channel,
                            my_nickname: new_nickname,
                            attrs: s.attrs,
                        },
                        s.my_nickname,
                        new_nickname,
                    ),
                    SpecEvent::Nick { nickname, new_nickname } => spec_nick(
                        s,
                        nickname,
                        new_nickname,
                    ),
                    SpecEvent::Privmsg { nickname, text } => spec_privmsg(s, nickname, text),
                    _ => spec_privmsg(s, Seq::empty(), Seq::empty()),
                };
                (Ok(Some(m)), Some(s2))
            },
        },
    }
}

/// Reading the columns of a log line: the message with the line's time, `Ok(None)`
/// for a notice that yields none, or the whole `line` for a notice of no known
/// shape; and the state after it.
pub open spec fn spec_read_columns(
    st: Option<SpecState>,
    t: Timestamp,
    src: Seq<char>,
    msg: Seq<char>,
    line: Seq<char>,
) -> (Result<Option<SpecParsed>, Seq<char>>, Option<SpecState>) {
    let (r, s) = spec_apply(st, spec_classify(src, msg), line);
    (
        match r {
            Ok(Some(m)) => Ok(Some(SpecParsed { timestamp: t, message: m })),
            Ok(None) => Ok(None),
            Err(x) => Err(x),
        },
        s,
    )
}

/// Reading a log line: its columns read with the time that chrono reads
/// from the first one.
pub open spec fn spec_parse_line(st: Option<SpecState>, line: Seq<char>) -> (
    Result<Option<SpecParsed>, Seq<char>>,
    Option<SpecState>,
) {
    let (ts, src, msg) = line_columns(line)->0;
    spec_read_columns(st, naive_datetime_parse(ts, log_time_format())->0, src, msg, line)
}

/// A WeeChat log reader: what it knows of the channel, once one was joined.
pub struct LogParser {
    pub state: Option<State>,
}

impl View for LogParser {
    type V = Option<SpecState>;

    open spec fn view(&self) -> Option<SpecState> {
        match self.state {
            Some(s) => Some(s@),
            None => None,
        }
    }
}

impl LogParser {
    /// The source and message columns on which reading does its work: a
    /// known shape where one is required, and a joined channel where the
    /// event needs one.
    pub open spec fn accepts_columns(self, src: Seq<char>, msg: Seq<char>) -> bool {
        let e = spec_classify(src, msg);
        &&& !(e is Malformed)
        &&& needs_state(e) ==> self@ is Some
    }

    /// The lines on which reading does its work: three columns, a time that
    /// chrono reads, and source and message columns that it accepts.
    pub open spec fn accepts(self, line: Seq<char>) -> bool {
        match line_columns(line) {
            None => false,
            Some((ts, src, msg)) => {
                &&& naive_datetime_parse(ts, log_time_format()) is Some
                &&& self.accepts_columns(src, msg)
            },
        }
    }

    /// A reader that knows no channel yet.
    pub fn new() -> (r: LogParser)
        ensures
            r@ is None,
    {
        LogParser { state: None }
    }

    /// Takes in a join of `nickname` under `username` and `hostname`.
    pub fn join(&mut self, nickname: &str, username: &str, hostname: &str, channel: &str) -> (r: Message)
        ensures
            r@ == spec_join(old(self)@, nickname@, username@, hostname@, channel@).0,
            final(self)@ == Some(spec_join(old(self)@, nickname@, username@, hostname@, channel@).1),
            r@.prefix == (SpecPrefix {
                nickname: nickname@,
                username: username@,
                hostname: hostname@,
            }),
            r@.command == SpecCommand::Join(channel@),
            final(self)@->0.attrs.get(nickname@) == Some(
                SpecAttrs { username: username@, hostname: hostname@ },
            ),
            old(self)@ matches Some(s) ==> {
                &&& final(self)@->0.channel == s.channel
                &&& final(self)@->0.my_nickname == s.my_nickname
                &&& forall|o: Seq<char>|
                    o != nickname@ ==> #[trigger] final(self)@->0.attrs.get(o) == s.attrs.get(o)
            },
            old(self)@ is None ==> final(self)@->0.channel == channel@
                && final(self)@->0.my_nickname == nickname@,
    {
        if self.state.is_none() {
            self.state = Some(State::new(String::from_str(channel), String::from_str(nickname)));
        }
        let mut st = self.state.take().unwrap();
        let ghost before = st.attrs@;
        let a = Attrs { username: String::from_str(username), hostname: String::from_str(hostname) };
        proof { lemma_attrs_view_insert(before, nickname@, a); }
        st.attrs.insert(String::from_str(nickname), a);
        self.state = Some(st);
        Message::new(
            String::from_str(nickname),
            String::from_str(username),
            String::from_str(hostname),
            Command::Join(String::from_str(channel)),
        )
    }

    /// Takes in a quit of `nickname`.
    pub fn quit(&mut self, nickname: &str, username: &str, hostname: &str, comment: &str) -> (r: Message)
        requires
            old(self)@ is Some,
        ensures
            r@ == spec_quit(old(self)@->0, nickname@, username@, hostname@, comment@).0,
            final(self)@ == Some(spec_quit(old(self)@->0, nickname@, username@, hostname@, comment@).1),
            r@.prefix == (SpecPrefix {
                nickname: nickname@,
                username: username@,
                hostname: hostname@,
            }),
            r@.command == SpecCommand::Quit(Some(comment@)),
            !final(self)@->0.attrs.contains_key(nickname@),
            final(self)@->0.channel == old(self)@->0.channel,
            final(self)@->0.my_nickname == old(self)@->0.my_nickname,
            forall|o: Seq<char>|
                o != nickname@ ==> #[trigger] final(self)@->0.attrs.get(o) == old(
                    self,
                )@->0.attrs.get(o),
    {
        let mut st = self.state.take().unwrap();
        proof { lemma_attrs_view_remove(st.attrs@, nickname@); }
        st.attrs.remove(nickname);
        self.state = Some(st);
        Message::new(
            String::from_str(nickname),
            String::from_str(username),
            String::from_str(hostname),
            Command::Quit(Some(String::from_str(comment))),
        )
    }

    /// Takes in a part of `nickname` from `channel`.
    pub fn part(
        &mut self,
        nickname: &str,
        username: &str,
        hostname: &str,
        channel: &str,
        comment: Option<&str>,
    ) -> (r: Message)
        requires
            old(self)@ is Some,
        ensures
            r@ == spec_part(old(self)@->0, nickname@, username@, hostname@, channel@, opt_str_view(comment)).0,
            final(self)@ == Some(spec_part(old(self)@->0, nickname@, username@, hostname@, channel@, opt_str_view(comment)).1),
            r@.prefix == (SpecPrefix {
                nickname: nickname@,
                username: username@,
                hostname: hostname@,
            }),
            r@.command == SpecCommand::Part(channel@, opt_str_view(comment)),
            !final(self)@->0.attrs.contains_key(nickname@),
            final(self)@->0.channel == old(self)@->0.channel,
            final(self)@->0.my_nickname == old(self)@->0.my_nickname,
            forall|o: Seq<char>|
                o != nickname@ ==> #[trigger] final(self)@->0.attrs.get(o) == old(
                    self,
                )@->0.attrs.get(o),
    {
        let mut st = self.state.take().unwrap();
        proof { lemma_attrs_view_remove(st.attrs@, nickname@); }
        st.attrs.remove(nickname);
        self.state = Some(st);
        let c = match comment {
            Some(c) => Some(String::from_str(c)),
            None => None,
        };
        Message::new(
            String::from_str(nickname),
            String::from_str(username),
            String::from_str(hostname),
            Command::Part(String::from_str(channel), c),
        )
    }

    /// Takes in a kick of `target` by `kicker`.
    pub fn kick(&mut self, kicker: &str, target: &str, comment: &str) -> (r: Message)
        requires
            old(self)@ is Some,
        ensures
            r@ == spec_kick(old(self)@->0, kicker@, target@, comment@).0,
            final(self)@ == Some(spec_kick(old(self)@->0, kicker@, target@, comment@).1),
            final(self)@ == old(self)@,
            r@.prefix.nickname == kicker@,
            r@.command == SpecCommand::Kick(old(self)@->0.channel, target@, Some(comment@)),
            old(self)@->0.attrs.contains_key(kicker@) ==> r@.prefix.username == old(
                self,
            )@->0.attrs[kicker@].username && r@.prefix.hostname == old(
                self,
            )@->0.attrs[kicker@].hostname,
            !old(self)@->0.attrs.contains_key(kicker@) ==> r@.prefix.username.len() == 0
                && r@.prefix.hostname.len() == 0,
    {
        let st = self.state.as_ref().unwrap();
        let (username, hostname) = match st.attrs.get(kicker) {
            Some(a) => (a.username.clone(), a.hostname.clone()),
            None => (String::new(), String::new()),
        };
        Message::new(
            String::from_str(kicker),
            username,
            hostname,
            Command::Kick(st.channel.clone(), String::from_str(target), Some(String::from_str(comment))),
        )
    }

    /// Takes in a change of nickname from `nickname` to `new_nickname`.
    pub fn nick(&mut self, nickname: &str, new_nickname: &str) -> (r: Message)
        requires
            old(self)@ is Some,
        ensures
            r@ == spec_nick(old(self)@->0, nickname@, new_nickname@).0,
            final(self)@ == Some(spec_nick(old(self)@->0, nickname@, new_nickname@).1),
            r@.prefix.nickname == nickname@,
            r@.command == SpecCommand::Nick(new_nickname@),
            r@.prefix.hostname == r@.prefix.username,
            old(self)@->0.attrs.contains_key(nickname@) ==> r@.prefix.username == old(
                self,
            )@->0.attrs[nickname@].username,
            !old(self)@->0.attrs.contains_key(nickname@) ==> r@.prefix.username.len() == 0,
            final(self)@->0.channel == old(self)@->0.channel,
            final(self)@->0.my_nickname == old(self)@->0.my_nickname,
            final(self)@->0.attrs.get(new_nickname@) == (if old(self)@->0.attrs.contains_key(
                nickname@,
            ) {
                Some(old(self)@->0.attrs[nickname@])
            } else if nickname@ == new_nickname@ {
                None
            } else {
                old(self)@->0.attrs.get(new_nickname@)
            }),
            nickname@ != new_nickname@ ==> !final(self)@->0.attrs.contains_key(nickname@),
            forall|o: Seq<char>|
                o != nickname@ && o != new_nickname@ ==> #[trigger] final(self)@->0.attrs.get(o)
                    == old(self)@->0.attrs.get(o),
    {
        let mut st = self.state.take().unwrap();
        let ghost m0 = st.attrs@;
        let found = match st.attrs.get(nickname) {
            Some(a) => Some(Attrs { username: a.username.clone(), hostname: a.hostname.clone() }),
            None => None,
        };
        proof { lemma_attrs_view_remove(m0, nickname@); }
        st.attrs.remove(nickname);
        let username = match found {
            Some(a) => {
                let u = a.username.clone();
                proof { lemma_attrs_view_insert(m0.remove(nickname@), new_nickname@, a); }
                st.attrs.insert(String::from_str(new_nickname), a);
                u
            },
            None => String::new(),
        };
        self.state = Some(st);
        Message::new(
            String::from_str(nickname),
            username.clone(),
            username,
            Command::Nick(String::from_str(new_nickname)),
        )
    }

    /// Takes in `message`, said by `nickname` in the channel.
    pub fn privmsg(&mut self, nickname: &str, message: &str) -> (r: Message)
        requires
            old(self)@ is Some,
        ensures
            r@ == spec_privmsg(old(self)@->0, nickname@, message@).0,
            final(self)@ == Some(spec_privmsg(old(self)@->0, nickname@, message@).1),
            final(self)@ == old(self)@,
            r@.prefix.nickname == nickname@,
            r@.command == SpecCommand::Privmsg(old(self)@->0.channel, message@),
            old(self)@->0.attrs.contains_key(nickname@) ==> r@.prefix.username == old(
                self,
            )@->0.attrs[nickname@].username && r@.prefix.hostname == old(
                self,
            )@->0.attrs[nickname@].hostname,
            !old(self)@->0.attrs.contains_key(nickname@) ==> r@.prefix.username.len() == 0
                && r@.prefix.hostname.len() == 0,
    {
        let st = self.state.as_ref().unwrap();
        let (username, hostname) = match st.attrs.get(nickname) {
            Some(a) => (a.username.clone(), a.hostname.clone()),
            None => (String::new(), String::new()),
        };
        Message::new(
            String::from_str(nickname),
            username,
            hostname,
            Command::Privmsg(st.channel.clone(), String::from_str(message)),
        )
    }

    /// Takes in what a line reports; for a notice of no known shape the
    /// error holds the whole `line`.
    fn apply(&mut self, event: LogEvent, line: &str) -> (r: Result<Option<Message>, UnknownMessage>)
        requires
            !(event@ is Malformed),
            needs_state(event@) ==> old(self)@ is Some,
        ensures
            (apply_result_view(r), final(self)@) == spec_apply(old(self)@, event@, line@),
    {
        match event {
            LogEvent::Join { nickname, username, hostname, channel } => Ok(
                Some(self.join(nickname.as_str(), username.as_str(), hostname.as_str(), channel.as_str())),
            ),
            LogEvent::Quit { nickname, username, hostname, comment } => Ok(
                Some(self.quit(nickname.as_str(), username.as_str(), hostname.as_str(), comment.as_str())),
            ),
            LogEvent::Part { nickname, username, hostname, channel, comment } => {
                let c = match &comment {
                    Some(c) => Some(c.as_str()),
                    None => None,
                };
                Ok(
                    Some(
                        self.part(
                            nickname.as_str(),
                            username.as_str(),
                            hostname.as_str(),
                            channel.as_str(),
                            c,
                        ),
                    ),
                )
            },
            LogEvent::Kick { kicker, target, comment } => Ok(
                Some(self.kick(kicker.as_str(), target.as_str(), comment.as_str())),
            ),
            LogEvent::Ignored => Ok(None),
            LogEvent::Disconnect => {
                self.state = None;
                Ok(None)
            },
            LogEvent::SelfNick { new_nickname } => {
                let mut st = self.state.take().unwrap();
                let my_nickname = st.my_nickname.clone();
                st.my_nickname = new_nickname.clone();
                self.state = Some(st);
                Ok(Some(self.nick(my_nickname.as_str(), new_nickname.as_str())))
            },
            LogEvent::Nick { nickname, new_nickname } => Ok(
                Some(self.nick(nickname.as_str(), new_nickname.as_str())),
            ),
            LogEvent::Privmsg { nickname, text } => Ok(
                Some(self.privmsg(nickname.as_str(), text.as_str())),
            ),
            LogEvent::Unknown => Err(UnknownMessage(String::from_str(line))),
            LogEvent::Malformed => Err(UnknownMessage(String::from_str(line))),
        }
    }

    /// Reads one log line: `time<TAB>source<TAB>message`. Joins, quits,
    /// parts, kicks, nickname changes and messages give an IRC message with
    /// the line's time; other known notices give `Ok(None)` (`irc: ...`
    /// forgets the channel); a notice of no known shape gives the line back.
    pub fn parse_line(&mut self, line: &str) -> (r: Result<Option<ParsedMessage>, UnknownMessage>)
        requires
            old(self).accepts(line@),
        ensures
            (parse_result_view(r), final(self)@) == spec_parse_line(old(self)@, line@),
    {
        let v = chars_of(line);
        let n = v.len();
        let tab = chars_of("\t");
        proof { lemma_first_occ(v@, tab@, 0); }
        let t1 = find(&v, &tab, 0).unwrap();
        proof { lemma_first_occ(v@, tab@, t1 + tab@.len()); }
        let t2 = find(&v, &tab, t1 + tab.len()).unwrap();
        let ts = line.substring_char(0, t1);
        let src = line.substring_char(t1 + tab.len(), t2);
        let msg = line.substring_char(t2 + tab.len(), n);
        let timestamp = parse_log_time(ts).unwrap();
        self.read_columns(timestamp, src, msg, line)
    }

    /// Reads the source column `src` and the message column `msg` of the log
    /// line `line`, whose time is `timestamp`, as `parse_line` does.
    pub fn read_columns(&mut self, timestamp: Timestamp, src: &str, msg: &str, line: &str) -> (r:
        Result<Option<ParsedMessage>, UnknownMessage>)
        requires
            old(self).accepts_columns(src@, msg@),
        ensures
            (parse_result_view(r), final(self)@) == spec_read_columns(
                old(self)@,
                timestamp,
                src@,
                msg@,
                line@,
            ),
    {
        let event = classify(src, msg);
        match self.apply(event, line) {
            Ok(Some(message)) => Ok(Some(ParsedMessage::new(timestamp, message))),
            Ok(None) => Ok(None),
            Err(e) => Err(e),
        }
    }

    /// Reads one log line as `parse_line` does where it accepts the line,
    /// and gives `None`, changing nothing, on a line that it does not: one
    /// without three columns, with a time that chrono does not read, a join
    /// or nickname column of the wrong shape, or an event that needs a
    /// joined channel before any.
    pub fn try_parse_line(&mut self, line: &str) -> (r: Option<Result<Option<ParsedMessage>, UnknownMessage>>)
        ensures
            r is None <==> !old(self).accepts(line@),
            r is None ==> final(self)@ == old(self)@,
            r matches Some(x) ==> (parse_result_view(x), final(self)@) == spec_parse_line(
                old(self)@,
                line@,
            ),
    {
        let v = chars_of(line);
        let n = v.len();
        let tab = chars_of("\t");
        proof { lemma_first_occ(v@, tab@, 0); }
        let t1 = match find(&v, &tab, 0) {
            Some(t) => t,
            None => return None,
        };
        proof { lemma_first_occ(v@, tab@, t1 + tab@.len()); }
        let t2 = match find(&v, &tab, t1 + tab.len()) {
            Some(t) => t,
            None => return None,
        };
        let ts = line.substring_char(0, t1);
        let src = line.substring_char(t1 + tab.len(), t2);
        let msg = line.substring_char(t2 + tab.len(), n);
        if parse_log_time(ts).is_err() {
            return None;
        }
        let event = classify(src, msg);
        if event.is_malformed() || (event.needs_state() && self.state.is_none()) {
            return None;
        }
        Some(self.parse_line(line))
    }
}

} // verus!
