//! What one line of a WeeChat log reports, read from its source column and
//! its message column.

use vstd::prelude::*;
use crate::patterns::{
    is_topic_changed_line, is_topic_for_line, join_captures, kick_captures, match_join,
    match_kick, match_nick, match_nick_change, match_part, match_quit, match_self_nick,
    nick_capture, nick_change_captures, part_captures, quit_captures, self_nick_capture,
    topic_changed_line, topic_for_line,
};
use crate::text::{has_prefix, starts_with, str_eq};

verus! {

/// What a log line reports.
#[derive(Debug)]
#[allow(inconsistent_fields)]
pub enum LogEvent {
    /// `nick (user@host) has joined channel`
    Join { nickname: String, username: String, hostname: String, channel: String },
    /// `nick (user@host) has quit comment`
    Quit { nickname: String, username: String, hostname: String, comment: String },
    /// `nick (user@host) has left channel (comment)`
    Part {
        nickname: String,
        username: String,
        hostname: String,
        channel: String,
        comment: Option<String>,
    },
    /// `kicker has kicked target (comment)`
    Kick { kicker: String, target: String, comment: String },
    /// A notice that changes nothing: topics, channel and mode information,
    /// notices.
    Ignored,
    /// `irc: ...`, the end of a connection.
    Disconnect,
    /// `You are now known as new`
    SelfNick { new_nickname: String },
    /// `old is now known as new`
    Nick { nickname: String, new_nickname: String },
    /// A message said in the channel by `nickname`.
    Privmsg { nickname: String, text: String },
    /// A notice of no known shape.
    Unknown,
    /// A line whose shape the parser requires and that does not have it.
    Malformed,
}

/// What a log line reports, as text.
#[allow(inconsistent_fields)]
pub enum SpecEvent {
    Join { nickname: Seq<char>, username: Seq<char>, hostname: Seq<char>, channel: Seq<char> },
    Quit { nickname: Seq<char>, username: Seq<char>, hostname: Seq<char>, comment: Seq<char> },
    Part {
        nickname: Seq<char>,
        username: Seq<char>,
        hostname: Seq<char>,
        channel: Seq<char>,
        comment: Option<Seq<char>>,
    },
    Kick { kicker: Seq<char>, target: Seq<char>, comment: Seq<char> },
    Ignored,
    Disconnect,
    SelfNick { new_nickname: Seq<char> },
    Nick { nickname: Seq<char>, new_nickname: Seq<char> },
    Privmsg { nickname: Seq<char>, text: Seq<char> },
    Unknown,
    Malformed,
}

impl View for LogEvent {
    type V = SpecEvent;

    open spec fn view(&self) -> SpecEvent {
        match self {
            LogEvent::Join { nickname, username, hostname, channel } => SpecEvent::Join {
                nickname: nickname@,
                username: username@,
                hostname: hostname@,
                channel: channel@,
            },
            LogEvent::Quit { nickname, username, hostname, comment } => SpecEvent::Quit {
                nickname: nickname@,
                username: username@,
                hostname: hostname@,
                comment: comment@,
            },
            LogEvent::Part { nickname, username, hostname, channel, comment } => SpecEvent::Part {
                nickname: nickname@,
                username: username@,
                hostname: hostname@,
                channel: channel@,
                comment: comment.deep_view(),
            },
            LogEvent::Kick { kicker, target, comment } => SpecEvent::Kick {
                kicker: kicker@,
                target: target@,
                comment: comment@,
            },
            LogEvent::Ignored => SpecEvent::Ignored,
            LogEvent::Disconnect => SpecEvent::Disconnect,
            LogEvent::SelfNick { new_nickname } => SpecEvent::SelfNick {
                new_nickname: new_nickname@,
            },
            LogEvent::Nick { nickname, new_nickname } => SpecEvent::Nick {
                nickname: nickname@,
                new_nickname: new_nickname@,
            },
            LogEvent::Privmsg { nickname, text } => SpecEvent::Privmsg {
                nickname: nickname@,
                text: text@,
            },
            LogEvent::Unknown => SpecEvent::Unknown,
            LogEvent::Malformed => SpecEvent::Malformed,
        }
    }
}

/// The event can only be taken in once a channel has been joined.
pub open spec fn needs_state(e: SpecEvent) -> bool {
    match e {
        SpecEvent::Quit { .. } | SpecEvent::Part { .. } | SpecEvent::Kick { .. }
        | SpecEvent::SelfNick { .. } | SpecEvent::Nick { .. } | SpecEvent::Privmsg { .. } => true,
        _ => false,
    }
}

impl LogEvent {
    /// Whether the event can only be taken in once a channel has been joined.
    pub fn needs_state(&self) -> (r: bool)
        ensures
            r == needs_state(self@),
    {
        match self {
            LogEvent::Quit { .. } | LogEvent::Part { .. } | LogEvent::Kick { .. }
            | LogEvent::SelfNick { .. } | LogEvent::Nick { .. } | LogEvent::Privmsg { .. } => true,
            _ => false,
        }
    }

    /// Whether the line lacks a shape that the parser requires of it.
    pub fn is_malformed(&self) -> (r: bool)
        ensures
            r == (self@ is Malformed),
    {
        match self {
            LogEvent::Malformed => true,
            _ => false,
        }
    }
}

/// The reading of a departure line (source `<--`): a quit, else a part,
/// else a kick.
pub open spec fn departure_event(msg: Seq<char>) -> SpecEvent {
    if let Some((a, b, c, d)) = quit_captures(msg) {
        SpecEvent::Quit { nickname: a, username: b, hostname: c, comment: d }
    } else if let Some((a, b, c, d, e)) = part_captures(msg) {
        SpecEvent::Part { nickname: a, username: b, hostname: c, channel: d, comment: e }
    } else if let Some((a, b, c)) = kick_captures(msg) {
        SpecEvent::Kick { kicker: a, target: b, comment: c }
    } else {
        SpecEvent::Unknown
    }
}

/// The reading of a network line (source `--`), tried in this order.
pub open spec fn network_event(msg: Seq<char>) -> SpecEvent {
    if topic_for_line(msg) || topic_changed_line(msg) || has_prefix(msg, "Topic set by "@)
        || has_prefix(msg, "Channel "@) {
        SpecEvent::Ignored
    } else if has_prefix(msg, "irc: "@) {
        SpecEvent::Disconnect
    } else if has_prefix(msg, "Mode "@) || has_prefix(msg, "Notice"@) || has_prefix(
        msg,
        "PvNotice"@,
    ) {
        SpecEvent::Ignored
    } else if let Some(n) = self_nick_capture(msg) {
        SpecEvent::SelfNick { new_nickname: n }
    } else if let Some((a, b)) = nick_change_captures(msg) {
        SpecEvent::Nick { nickname: a, new_nickname: b }
    } else {
        SpecEvent::Unknown
    }
}

/// What the line with source column `src` and message column `msg` reports.
pub open spec fn spec_classify(src: Seq<char>, msg: Seq<char>) -> SpecEvent {
    if src == "-->"@ {
        match join_captures(msg) {
            Some((a, b, c, d)) => SpecEvent::Join {
                nickname: a,
                username: b,
                hostname: c,
                channel: d,
            },
            None => SpecEvent::Malformed,
        }
    } else if src == "<--"@ {
        departure_event(msg)
    } else if src == "--"@ {
        network_event(msg)
    } else {
        match nick_capture(src) {
            Some(n) => SpecEvent::Privmsg { nickname: n, text: msg },
            None => SpecEvent::Malformed,
        }
    }
}

/// Reads a departure line.
fn classify_departure(msg: &str) -> (r: LogEvent)
    ensures
        r@ == departure_event(msg@),
{
    if let Some((nickname, username, hostname, comment)) = match_quit(msg) {
        LogEvent::Quit { nickname, username, hostname, comment }
    } else if let Some((nickname, username, hostname, channel, comment)) = match_part(msg) {
        LogEvent::Part { nickname, username, hostname, channel, comment }
    } else if let Some((kicker, target, comment)) = match_kick(msg) {
        LogEvent::Kick { kicker, target, comment }
    } else {
        LogEvent::Unknown
    }
}

/// Reads a network line.
fn classify_network(msg: &str) -> (r: LogEvent)
    ensures
        r@ == network_event(msg@),
{
    if is_topic_for_line(msg) || is_topic_changed_line(msg) || starts_with(msg, "Topic set by ")
        || starts_with(msg, "Channel ") {
        LogEvent::Ignored
    } else if starts_with(msg, "irc: ") {
        LogEvent::Disconnect
    } else if starts_with(msg, "Mode ") || starts_with(msg, "Notice") || starts_with(
        msg,
        "PvNotice",
    ) {
        LogEvent::Ignored
    } else if let Some(new_nickname) = match_self_nick(msg) {
        LogEvent::SelfNick { new_nickname }
    } else if let Some((nickname, new_nickname)) = match_nick_change(msg) {
        LogEvent::Nick { nickname, new_nickname }
    } else {
        LogEvent::Unknown
    }
}

/// Reads what a log line reports from its source and message columns.
pub fn classify(src: &str, msg: &str) -> (r: LogEvent)
    ensures
        r@ == spec_classify(src@, msg@),
{
    if str_eq(src, "-->") {
        match match_join(msg) {
            Some((nickname, username, hostname, channel)) => LogEvent::Join {
                nickname,
                username,
                hostname,
                channel,
            },
            None => LogEvent::Malformed,
        }
    } else if str_eq(src, "<--") {
        classify_departure(msg)
    } else if str_eq(src, "--") {
        classify_network(msg)
    } else {
        match match_nick(src) {
            Some(nickname) => LogEvent::Privmsg { nickname, text: String::from_str(msg) },
            None => LogEvent::Malformed,
        }
    }
}

} // verus!
