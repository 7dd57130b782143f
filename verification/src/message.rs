//! IRC messages as the log parser rebuilds them: who sent them and what
//! command they carry.

use vstd::prelude::*;

verus! {

/// The sender of a message: `nickname!username@hostname`.
#[derive(Debug)]
pub struct Prefix {
    pub nickname: String,
    pub username: String,
    pub hostname: String,
}

/// The IRC commands that a WeeChat log records.
#[derive(Debug)]
pub enum Command {
    /// `JOIN channel`
    Join(String),
    /// `QUIT [comment]`
    Quit(Option<String>),
    /// `PART channel [comment]`
    Part(String, Option<String>),
    /// `KICK channel target [comment]`
    Kick(String, String, Option<String>),
    /// `NICK new-nickname`
    Nick(String),
    /// `PRIVMSG target text`
    Privmsg(String, String),
}

/// An IRC message: its sender and its command.
#[derive(Debug)]
pub struct Message {
    pub prefix: Prefix,
    pub command: Command,
}

/// The sender of a message, as text.
pub struct SpecPrefix {
    pub nickname: Seq<char>,
    pub username: Seq<char>,
    pub hostname: Seq<char>,
}

/// A command, as text.
pub enum SpecCommand {
    Join(Seq<char>),
    Quit(Option<Seq<char>>),
    Part(Seq<char>, Option<Seq<char>>),
    Kick(Seq<char>, Seq<char>, Option<Seq<char>>),
    Nick(Seq<char>),
    Privmsg(Seq<char>, Seq<char>),
}

/// A message, as text.
pub struct SpecMessage {
    pub prefix: SpecPrefix,
    pub command: SpecCommand,
}

impl View for Prefix {
    type V = SpecPrefix;

    open spec fn view(&self) -> SpecPrefix {
        SpecPrefix { nickname: self.nickname@, username: self.username@, hostname: self.hostname@ }
    }
}

impl View for Command {
    type V = SpecCommand;

    open spec fn view(&self) -> SpecCommand {
        match self {
            Command::Join(c) => SpecCommand::Join(c@),
            Command::Quit(c) => SpecCommand::Quit(c.deep_view()),
            Command::Part(ch, c) => SpecCommand::Part(ch@, c.deep_view()),
            Command::Kick(ch, t, c) => SpecCommand::Kick(ch@, t@, c.deep_view()),
            Command::Nick(n) => SpecCommand::Nick(n@),
            Command::Privmsg(t, x) => SpecCommand::Privmsg(t@, x@),
        }
    }
}

impl View for Message {
    type V = SpecMessage;

    open spec fn view(&self) -> SpecMessage {
        SpecMessage { prefix: self.prefix@, command: self.command@ }
    }
}

impl Message {
    /// A message from `nickname!username@hostname` carrying `command`.
    pub fn new(nickname: String, username: String, hostname: String, command: Command) -> (r: Message)
        ensures
            r@ == (SpecMessage {
                prefix: SpecPrefix { nickname: nickname@, username: username@, hostname: hostname@ },
                command: command@,
            }),
    {
        Message { prefix: Prefix { nickname, username, hostname }, command }
    }
}

} // verus!
