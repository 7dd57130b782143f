use lazy_regex::Regex;
use wevebot::patterns::{
    is_topic_changed_line, is_topic_for_line, match_join, match_kick, match_nick,
    match_nick_change, match_part, match_quit, match_self_nick,
};

const TOKENS: &[&str] = &[
    "a", "bc", " ", "(", ")", "@", " (", ") has joined ", ") has quit ", ") has left ",
    " has kicked ", "\n", "x@y", "Topic for ", " is ", " has changed topic for ", " from \"",
    "\" to \"", "\"", "You are now known as ", " is now known as ", "é", "\t", "#chan",
];

/// Deterministic pseudo-random lines made of the tokens above.
fn samples() -> Vec<String> {
    let mut out = Vec::new();
    let mut seed: u64 = 0x2545_f491_4f6c_dd1d;
    for _ in 0..6000 {
        seed = seed.wrapping_mul(6364136223846793005).wrapping_add(1442695040888963407);
        let len = (seed >> 60) as usize;
        let mut s = String::new();
        for _ in 0..len {
            seed = seed.wrapping_mul(6364136223846793005).wrapping_add(1442695040888963407);
            s.push_str(TOKENS[((seed >> 33) as usize) % TOKENS.len()]);
        }
        out.push(s);
    }
    out.push("nick (user@host) has joined #chan".to_string());
    out.push("a (b@c) has joined d (e@f) has joined g".to_string());
    out.push("a (b@c) has left #x (bye (now))".to_string());
    out.push("a (b@c) has left #x".to_string());
    out.push("a (b@c) has left #x ()".to_string());
    out.push("op has kicked victim (reason (really))".to_string());
    out
}

fn group(c: &lazy_regex::Captures, i: usize) -> String {
    c.get(i).map_or(String::new(), |m| m.as_str().to_string())
}

#[test]
fn join_agrees_with_regex() {
    let re = Regex::new(r#"^(.*?) \((.*?)@(.*?)\) has joined (.*)$"#).unwrap();
    for s in samples() {
        let expected = re.captures(&s).map(|c| (group(&c, 1), group(&c, 2), group(&c, 3), group(&c, 4)));
        assert_eq!(match_join(&s), expected, "{s:?}");
    }
}

#[test]
fn quit_agrees_with_regex() {
    let re = Regex::new(r#"^(.*?) \((.*?)@(.*?)\) has quit (.*)$"#).unwrap();
    for s in samples() {
        let expected = re.captures(&s).map(|c| (group(&c, 1), group(&c, 2), group(&c, 3), group(&c, 4)));
        assert_eq!(match_quit(&s), expected, "{s:?}");
    }
}

#[test]
fn part_agrees_with_regex() {
    let re = Regex::new(r"^(.*?) \((.*?)@(.*?)\) has left (.*?)( \(.*\))?$").unwrap();
    let inner = Regex::new(r" \((.*)\)").unwrap();
    for s in samples() {
        let expected = re.captures(&s).map(|c| {
            let comment = group(&c, 5);
            let comment = if comment.is_empty() {
                None
            } else {
                Some(group(&inner.captures(&comment).unwrap(), 1))
            };
            (group(&c, 1), group(&c, 2), group(&c, 3), group(&c, 4), comment)
        });
        assert_eq!(match_part(&s), expected, "{s:?}");
    }
}

#[test]
fn kick_agrees_with_regex() {
    let re = Regex::new(r"^(.*?) has kicked (.*?) \((.*)\)$").unwrap();
    for s in samples() {
        let expected = re.captures(&s).map(|c| (group(&c, 1), group(&c, 2), group(&c, 3)));
        assert_eq!(match_kick(&s), expected, "{s:?}");
    }
}

#[test]
fn topic_lines_agree_with_regex() {
    let topic = Regex::new(r#"^Topic for .*? is .*"#).unwrap();
    let changed =
        Regex::new(r#"^(.*?) has changed topic for (.*?) from "(.*?)" to "(.*?)"$"#).unwrap();
    for s in samples() {
        assert_eq!(is_topic_for_line(&s), topic.is_match(&s), "{s:?}");
        assert_eq!(is_topic_changed_line(&s), changed.is_match(&s), "{s:?}");
    }
}

#[test]
fn nick_lines_agree_with_regex() {
    let own = Regex::new(r#"^You are now known as (.*?)$"#).unwrap();
    let other = Regex::new(r#"^(.*) is now known as (.*?)$"#).unwrap();
    let nick = Regex::new(r"^@?(.*)$").unwrap();
    for s in samples() {
        assert_eq!(match_self_nick(&s), own.captures(&s).map(|c| group(&c, 1)), "{s:?}");
        assert_eq!(
            match_nick_change(&s),
            other.captures(&s).map(|c| (group(&c, 1), group(&c, 2))),
            "{s:?}"
        );
        assert_eq!(match_nick(&s), nick.captures(&s).map(|c| group(&c, 1)), "{s:?}");
    }
}

#[test]
fn join_captures_leftmost_separators() {
    assert_eq!(
        match_join("a (b@c) has joined d (e@f) has joined g"),
        Some(("a".to_string(), "b".to_string(), "c".to_string(), "d (e@f) has joined g".to_string()))
    );
}

#[test]
fn part_comment_is_optional() {
    assert_eq!(
        match_part("nick (u@h) has left #x (bye now)"),
        Some(("nick".into(), "u".into(), "h".into(), "#x".into(), Some("bye now".into())))
    );
    assert_eq!(
        match_part("nick (u@h) has left #x"),
        Some(("nick".into(), "u".into(), "h".into(), "#x".into(), None))
    );
}

#[test]
fn kick_comment_runs_to_the_last_parenthesis() {
    assert_eq!(
        match_kick("op has kicked victim (reason (really))"),
        Some(("op".into(), "victim".into(), "reason (really)".into()))
    );
}

#[test]
fn nick_change_splits_at_last_separator() {
    assert_eq!(
        match_nick_change("a is now known as b is now known as c"),
        Some(("a is now known as b".into(), "c".into()))
    );
}

#[test]
fn newlines_never_match() {
    assert_eq!(match_join("n (u@h) has joined #c\n"), None);
    assert_eq!(match_nick("bad\nnick"), None);
    assert_eq!(match_nick("@op"), Some("op".to_string()));
}
