use wevebot::log_parser::{LogParser, ParsedMessage};
use wevebot::message::{Command, Message};
use wevebot::timestamp::Timestamp;

fn time(hour: u32, minute: u32, second: u32) -> Timestamp {
    Timestamp { year: 2024, month: 3, day: 9, hour, minute, second, nanosecond: 0 }
}

fn line(t: &str, src: &str, msg: &str) -> String {
    format!("2024-03-09 {t}\t{src}\t{msg}")
}

fn message(parsed: Result<Option<ParsedMessage>, wevebot::log_parser::UnknownMessage>) -> Message {
    parsed.ok().expect("known line").expect("a message").message
}

fn prefix(m: &Message) -> (String, String, String) {
    (m.prefix.nickname.clone(), m.prefix.username.clone(), m.prefix.hostname.clone())
}

fn joined() -> LogParser {
    let mut p = LogParser::new();
    p.parse_line(&line("10:00:00", "-->", "me (mine@home) has joined #room")).unwrap();
    p.parse_line(&line("10:00:01", "-->", "bob (b@bobhost) has joined #room")).unwrap();
    p
}

#[test]
fn join_records_channel_and_user() {
    let mut p = LogParser::new();
    let r = p.parse_line(&line("10:00:00", "-->", "me (mine@home) has joined #room")).unwrap().unwrap();
    assert_eq!(r.timestamp, time(10, 0, 0));
    assert_eq!(prefix(&r.message), ("me".into(), "mine".into(), "home".into()));
    assert!(matches!(r.message.command, Command::Join(ref c) if c == "#room"));
    let st = p.state.as_ref().unwrap();
    assert_eq!(st.channel, "#room");
    assert_eq!(st.my_nickname, "me");
}

#[test]
fn later_join_keeps_channel() {
    let mut p = joined();
    p.parse_line(&line("10:01:00", "-->", "eve (e@eh) has joined #other")).unwrap();
    assert_eq!(p.state.as_ref().unwrap().channel, "#room");
    assert_eq!(p.state.as_ref().unwrap().my_nickname, "me");
}

#[test]
fn message_carries_user_and_host() {
    let mut p = joined();
    let m = message(p.parse_line(&line("10:02:00", "@bob", "hello\tworld")));
    assert_eq!(prefix(&m), ("bob".into(), "b".into(), "bobhost".into()));
    assert!(matches!(m.command, Command::Privmsg(ref c, ref t) if c == "#room" && t == "hello\tworld"));
}

#[test]
fn unknown_speaker_has_empty_user_and_host() {
    let mut p = joined();
    let m = message(p.parse_line(&line("10:02:00", "carol", "hi")));
    assert_eq!(prefix(&m), ("carol".into(), "".into(), "".into()));
}

#[test]
fn quit_forgets_user() {
    let mut p = joined();
    let m = message(p.parse_line(&line("10:03:00", "<--", "bob (b@bobhost) has quit (Ping timeout)")));
    assert_eq!(prefix(&m), ("bob".into(), "b".into(), "bobhost".into()));
    assert!(matches!(m.command, Command::Quit(Some(ref c)) if c == "(Ping timeout)"));
    let m = message(p.parse_line(&line("10:04:00", "bob", "back")));
    assert_eq!(prefix(&m), ("bob".into(), "".into(), "".into()));
}

#[test]
fn part_with_and_without_comment() {
    let mut p = joined();
    let m = message(p.parse_line(&line("10:03:00", "<--", "bob (b@bobhost) has left #room (bye)")));
    assert!(matches!(m.command, Command::Part(ref c, Some(ref x)) if c == "#room" && x == "bye"));
    assert!(p.state.as_ref().unwrap().attrs.get("bob").is_none());
    let m = message(p.parse_line(&line("10:03:01", "<--", "me (mine@home) has left #room")));
    assert!(matches!(m.command, Command::Part(ref c, None) if c == "#room"));
}

#[test]
fn kick_uses_channel_and_kicker() {
    let mut p = joined();
    let m = message(p.parse_line(&line("10:05:00", "<--", "bob has kicked eve (spam)")));
    assert_eq!(prefix(&m), ("bob".into(), "b".into(), "bobhost".into()));
    assert!(matches!(m.command,
        Command::Kick(ref c, ref t, Some(ref x)) if c == "#room" && t == "eve" && x == "spam"));
}

#[test]
fn nick_change_moves_user() {
    let mut p = joined();
    let m = message(p.parse_line(&line("10:06:00", "--", "bob is now known as robert")));
    // The username is given in both the user and the host place.
    assert_eq!(prefix(&m), ("bob".into(), "b".into(), "b".into()));
    assert!(matches!(m.command, Command::Nick(ref n) if n == "robert"));
    let m = message(p.parse_line(&line("10:06:01", "robert", "hi")));
    assert_eq!(prefix(&m), ("robert".into(), "b".into(), "bobhost".into()));
}

#[test]
fn own_nick_change() {
    let mut p = joined();
    let m = message(p.parse_line(&line("10:07:00", "--", "You are now known as myself")));
    assert_eq!(prefix(&m), ("me".into(), "mine".into(), "mine".into()));
    assert_eq!(p.state.as_ref().unwrap().my_nickname, "myself");
    let m = message(p.parse_line(&line("10:07:01", "myself", "ok")));
    assert_eq!(prefix(&m), ("myself".into(), "mine".into(), "home".into()));
}

#[test]
fn notices_without_message() {
    let mut p = joined();
    for msg in [
        "Topic for #room is hello",
        "bob has changed topic for #room from \"a\" to \"b\"",
        "Topic set by bob on Sat, 09 Mar 2024",
        "Channel #room: 3 nicks",
        "Mode #room [+nt]",
        "Notice(x): y",
        "PvNotice(x): y",
    ] {
        assert!(matches!(p.parse_line(&line("10:08:00", "--", msg)), Ok(None)), "{msg}");
    }
    assert!(p.state.is_some());
    assert!(matches!(p.parse_line(&line("10:09:00", "--", "irc: disconnected from server")), Ok(None)));
    assert!(p.state.is_none());
}

#[test]
fn unknown_notice_gives_line_back() {
    let mut p = joined();
    let l = line("10:10:00", "--", "something else");
    match p.parse_line(&l) {
        Err(e) => assert_eq!(e.0, l),
        Ok(_) => panic!("expected an unknown message"),
    }
    let l = line("10:10:01", "<--", "someone left somehow");
    assert!(matches!(p.parse_line(&l), Err(ref e) if e.0 == l));
}

#[test]
fn try_parse_line_refuses_what_parse_line_cannot_take() {
    let mut p = LogParser::new();
    assert!(p.try_parse_line("no tabs here").is_none());
    assert!(p.try_parse_line("2024-03-09 10:00:00\tonly two").is_none());
    assert!(p.try_parse_line("yesterday\tbob\thi").is_none());
    assert!(p.try_parse_line(&line("10:00:00", "bob", "before any join")).is_none());
    assert!(p.try_parse_line(&line("10:00:00", "-->", "not a join")).is_none());
    assert!(p.try_parse_line(&line("10:00:00", "bad\nnick", "hi")).is_none());
    assert!(p.state.is_none());
    assert!(matches!(p.try_parse_line(&line("10:00:00", "--", "Mode #x")), Some(Ok(None))));
    let r = p.try_parse_line(&line("10:00:00", "-->", "me (u@h) has joined #x"));
    assert!(matches!(r, Some(Ok(Some(_)))));
    assert!(p.try_parse_line(&line("10:00:01", "bob", "hi")).is_some());
}

#[test]
fn timestamp_comes_from_first_column() {
    let mut p = joined();
    let r = p.parse_line("1999-12-31 23:59:58\tbob\tparty").unwrap().unwrap();
    assert_eq!(r.timestamp, Timestamp { year: 1999, month: 12, day: 31, hour: 23, minute: 59, second: 58, nanosecond: 0 });
}
