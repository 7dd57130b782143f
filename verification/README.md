# wevebot

An IRC weather bot and a WeeChat log reader, with their logic verified by Verus.

- `src/` is the verified library:
  - `text.rs`: searching and slicing of strings over their characters;
  - `patterns.rs`: the shapes of WeeChat log lines (joins, quits, parts,
    kicks, topics, nickname changes), each with the semantics of a leftmost
    lazy or greedy match in which `.` stops at a line feed, and proofs that
    the captures are the leftmost (or, for a greedy group, the longest) ones;
  - `timestamp.rs`: date-times read with chrono;
  - `message.rs`: the IRC messages that a log line stands for;
  - `event.rs`: what a log line reports;
  - `log_parser.rs`: the log reader and the state it keeps of the channel;
  - `weather.rs`: which messages ask the bot for the weather and what it answers;
  - `laws.rs`: what holds of the log reader across lines.
- `app/` holds the programs: the bot (network, serde, floating point) and,
  when the binary is run as `parse-weechat-log`, the log reader on standard input.
- `tests/` runs the library, and checks the line shapes against the `regex` crate.
