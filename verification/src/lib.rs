//! Verified core of an IRC weather bot and of a WeeChat log parser.

pub mod text;
pub mod patterns;
pub mod timestamp;
pub mod message;
pub mod event;
pub mod log_parser;
pub mod weather;
pub mod laws;
