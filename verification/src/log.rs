//! Log requests from the webview.
//!
//! The log family arrives over the event bus: a `println` request carries a
//! plain message, a `log` request carries a message and a level.  The host
//! observes the decoded requests and performs the actual printing.

use vstd::prelude::*;
use vstd::string::*;

use crate::json::{json_data, spec_member_str, JsonData};
use crate::strutil::str_eq;

verus! {

/// The level of a levelled log request, as its payload spells it.
#[derive(Clone, Copy, Debug, PartialEq, Eq, Structural)]
pub enum LogLevel {
    Trace,
    Debug,
    Info,
    Warn,
    Error,
}

/// The level a payload name denotes.
pub open spec fn spec_log_level_of_name(s: Seq<char>) -> Option<LogLevel> {
    if s == "trace"@ {
        Some(LogLevel::Trace)
    } else if s == "debug"@ {
        Some(LogLevel::Debug)
    } else if s == "info"@ {
        Some(LogLevel::Info)
    } else if s == "warn"@ {
        Some(LogLevel::Warn)
    } else if s == "error"@ {
        Some(LogLevel::Error)
    } else {
        None
    }
}

/// Parses a log level name.
pub fn log_level_of_name(s: &str) -> (r: Option<LogLevel>)
    ensures
        r == spec_log_level_of_name(s@),
{
    if str_eq(s, "trace") {
        Some(LogLevel::Trace)
    } else if str_eq(s, "debug") {
        Some(LogLevel::Debug)
    } else if str_eq(s, "info") {
        Some(LogLevel::Info)
    } else if str_eq(s, "warn") {
        Some(LogLevel::Warn)
    } else if str_eq(s, "error") {
        Some(LogLevel::Error)
    } else {
        None
    }
}

/// A decoded levelled log request.
pub struct LogRequest {
    /// The message to log.
    pub message: String,
    /// The level to log it at.
    pub level: LogLevel,
}

/// What a `println` payload decodes to: its `message` member.
pub open spec fn spec_println_request(d: JsonData) -> Option<Seq<char>> {
    spec_member_str(d, "message"@)
}

/// What a `log` payload decodes to: its `message` member and the level its
/// `level` member names.
pub open spec fn spec_log_request(d: JsonData) -> Option<(Seq<char>, LogLevel)> {
    match (spec_member_str(d, "message"@), spec_member_str(d, "level"@)) {
        (Some(m), Some(l)) => match spec_log_level_of_name(l) {
            Some(level) => Some((m, level)),
            None => None,
        },
        _ => None,
    }
}

/// Decodes a `println` request from its parsed payload.  A malformed payload
/// yields `None` and is dropped.
pub fn decode_println_request(v: &serde_json::Value) -> (r: Option<String>)
    ensures
        r.is_some() == spec_println_request(json_data(*v)).is_some(),
        r matches Some(m) ==> m@ == spec_println_request(json_data(*v)).unwrap(),
{
    crate::json::member_str(v, "message")
}

/// Decodes a levelled `log` request from its parsed payload.  A malformed
/// payload yields `None` and is dropped.
pub fn decode_log_request(v: &serde_json::Value) -> (r: Option<LogRequest>)
    ensures
        r.is_some() == spec_log_request(json_data(*v)).is_some(),
        r matches Some(req) ==> ({
            let m = spec_log_request(json_data(*v)).unwrap();
            req.message@ == m.0 && req.level == m.1
        }),
{
    let message = crate::json::member_str(v, "message");
    let level_name = crate::json::member_str(v, "level");
    match (message, level_name) {
        (Some(m), Some(l)) => match log_level_of_name(l.as_str()) {
            Some(level) => Some(LogRequest { message: m, level }),
            None => None,
        },
        _ => None,
    }
}

} // verus!
