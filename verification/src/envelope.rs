//! Inbound envelopes.
//!
//! The webview sends one kind of JSON envelope, tagged by its fields: a
//! command envelope carries `command_id`, `args` and a `correlation` token; an
//! event envelope carries `event_id`, a `payload` (JSON as a string) and an
//! optional `target` session.  The native callback classifies each envelope
//! into a command or event message and pushes it into the inbound queue; the
//! per-frame dispatchers consume the messages.

use vstd::prelude::*;
use vstd::string::*;

use crate::json::{
    has_member, json_data, json_is_null, json_member, json_of_text, json_u64, member_str,
    spec_has_member, spec_member, spec_member_str, JsonData,
};

verus! {

/// A command message: an envelope that asks the host to run a registered
/// command.  The payload is the raw envelope text; it is parsed again by the
/// dispatch registry during the frame drain.
pub struct CommandMessage {
    /// The session the command came from; its reply is routed back there.
    pub session: u64,
    /// The raw JSON text of the envelope.
    pub payload: String,
}

/// An event message: an envelope that triggers registered event observers.
pub struct EventMessage {
    /// `None` means broadcast/global; `Some` addresses one session's
    /// point-addressed observers.
    pub target: Option<u64>,
    /// The event identifier observers filter by.
    pub event_id: String,
    /// The serialized event body (JSON as a string).
    pub payload: String,
}

/// A classified inbound message.
pub enum InboundMessage {
    Command(CommandMessage),
    Event(EventMessage),
}

/// The decoded form of a command envelope.
pub struct CommandEnvelope {
    /// The registered command identifier.
    pub command_id: String,
    /// The command's arguments, an arbitrary JSON subtree (null when the
    /// envelope has no `args` member).
    pub args: serde_json::Value,
    /// The caller-supplied token that matches the eventual result back to the
    /// promise that requested it.
    pub correlation: String,
}

/// The mathematical model of a decoded envelope.
pub ghost enum EnvelopeData {
    Command { command_id: Seq<char>, args: JsonData, correlation: Seq<char> },
    Event { event_id: Seq<char>, payload: Seq<char>, target: Option<int> },
}

/// The `args` member of a command envelope, null when absent.
pub open spec fn spec_args(d: JsonData) -> JsonData {
    match spec_member(d, "args"@) {
        Some(a) => a,
        None => JsonData::Null,
    }
}

/// The `target` member of an event envelope: `Some(None)` when absent or
/// null (broadcast), `Some(Some(n))` for a session number, `None` when the
/// member is of any other shape (malformed).
pub open spec fn spec_target(d: JsonData) -> Option<Option<int>> {
    match spec_member(d, "target"@) {
        None => Some(None),
        Some(JsonData::Null) => Some(None),
        Some(JsonData::Num(n)) => if 0 <= n <= u64::MAX {
            Some(Some(n))
        } else {
            None
        },
        Some(_) => None,
    }
}

/// Classifies a parsed JSON document as an envelope.  A document with a
/// `command_id` member must carry string `command_id` and `correlation`
/// members; otherwise a document with an `event_id` member must carry string
/// `event_id` and `payload` members and a well-shaped `target`.  Anything
/// else is malformed.
pub open spec fn spec_envelope(d: JsonData) -> Option<EnvelopeData> {
    if spec_has_member(d, "command_id"@) {
        match (spec_member_str(d, "command_id"@), spec_member_str(d, "correlation"@)) {
            (Some(cid), Some(corr)) => Some(
                EnvelopeData::Command { command_id: cid, args: spec_args(d), correlation: corr },
            ),
            _ => None,
        }
    } else if spec_has_member(d, "event_id"@) {
        match (
            spec_member_str(d, "event_id"@),
            spec_member_str(d, "payload"@),
            spec_target(d),
        ) {
            (Some(eid), Some(pay), Some(tgt)) => Some(
                EnvelopeData::Event { event_id: eid, payload: pay, target: tgt },
            ),
            _ => None,
        }
    } else {
        None
    }
}

/// What parsing a raw envelope text yields.
pub open spec fn spec_parsed_envelope(s: Seq<char>) -> Option<EnvelopeData> {
    match json_of_text(s) {
        Some(d) => spec_envelope(d),
        None => None,
    }
}

/// Whether an exec target field agrees with its model.
pub open spec fn target_matches(t: Option<u64>, m: Option<int>) -> bool {
    match (t, m) {
        (Option::None, Option::None) => true,
        (Option::Some(a), Option::Some(b)) => a == b,
        _ => false,
    }
}

/// Relies on `serde_json::Value::Null`: the null value.
#[verifier::external_body]
fn json_null() -> (r: serde_json::Value)
    ensures
        json_data(r) is Null,
{
    serde_json::Value::Null
}

/// Decodes the command fields of a parsed envelope value.
fn decode_command(v: &serde_json::Value) -> (r: Option<CommandEnvelope>)
    requires
        spec_has_member(json_data(*v), "command_id"@),
    ensures
        match spec_envelope(json_data(*v)) {
            Some(EnvelopeData::Command { command_id, args, correlation }) => {
                &&& r.is_some()
                &&& r.unwrap().command_id@ == command_id
                &&& json_data(r.unwrap().args) == args
                &&& r.unwrap().correlation@ == correlation
            },
            _ => r.is_none(),
        },
{
    let cid = member_str(v, "command_id");
    let corr = member_str(v, "correlation");
    match (cid, corr) {
        (Some(command_id), Some(correlation)) => {
            let args = match json_member(v, "args") {
                Some(a) => a,
                None => json_null(),
            };
            Some(CommandEnvelope { command_id, args, correlation })
        },
        _ => None,
    }
}

/// Decodes the event fields of a parsed envelope value.
fn decode_event(v: &serde_json::Value) -> (r: Option<EventMessage>)
    requires
        !spec_has_member(json_data(*v), "command_id"@),
        spec_has_member(json_data(*v), "event_id"@),
    ensures
        match spec_envelope(json_data(*v)) {
            Some(EnvelopeData::Event { event_id, payload, target }) => {
                &&& r.is_some()
                &&& r.unwrap().event_id@ == event_id
                &&& r.unwrap().payload@ == payload
                &&& target_matches(r.unwrap().target, target)
            },
            _ => r.is_none(),
        },
{
    let eid = member_str(v, "event_id");
    let pay = member_str(v, "payload");
    let target: Option<Option<u64>> = match json_member(v, "target") {
        None => Some(None),
        Some(t) => {
            if json_is_null(&t) {
                Some(None)
            } else {
                match json_u64(&t) {
                    Some(n) => Some(Some(n)),
                    None => None,
                }
            }
        },
    };
    match (eid, pay, target) {
        (Some(event_id), Some(payload), Some(tgt)) => Some(
            EventMessage { target: tgt, event_id, payload },
        ),
        _ => None,
    }
}

/// Parses a raw envelope text into a command envelope, when it is one.
///
/// Returns `Some` exactly when the text parses as JSON and classifies as a
/// command envelope.
pub fn parse_command_envelope(raw: &str) -> (r: Option<CommandEnvelope>)
    ensures
        match spec_parsed_envelope(raw@) {
            Some(EnvelopeData::Command { command_id, args, correlation }) => {
                &&& r.is_some()
                &&& r.unwrap().command_id@ == command_id
                &&& json_data(r.unwrap().args) == args
                &&& r.unwrap().correlation@ == correlation
            },
            _ => r.is_none(),
        },
{
    match crate::json::json_parse(raw) {
        None => None,
        Some(v) => {
            if has_member(&v, "command_id") {
                decode_command(&v)
            } else {
                None
            }
        },
    }
}

/// Classifies one raw envelope from a webview callback.
///
/// Returns `None` exactly when the envelope is malformed: not JSON, or
/// neither a well-formed command nor a well-formed event envelope.  A
/// malformed envelope is dropped by the caller with a diagnostic; it never
/// affects other envelopes.
pub fn classify_inbound(session: u64, raw: &str) -> (r: Option<InboundMessage>)
    ensures
        match spec_parsed_envelope(raw@) {
            None => r.is_none(),
            Some(EnvelopeData::Command { .. }) => r matches Some(InboundMessage::Command(c))
                && c.session == session && c.payload@ == raw@,
            Some(EnvelopeData::Event { event_id, payload, target }) => r matches Some(
                InboundMessage::Event(e),
            ) && e.event_id@ == event_id && e.payload@ == payload && target_matches(
                e.target,
                target,
            ),
        },
{
    match crate::json::json_parse(raw) {
        None => None,
        Some(v) => {
            if has_member(&v, "command_id") {
                match decode_command(&v) {
                    Some(_) => Some(
                        InboundMessage::Command(
                            CommandMessage { session, payload: raw.to_owned() },
                        ),
                    ),
                    None => None,
                }
            } else if has_member(&v, "event_id") {
                match decode_event(&v) {
                    Some(e) => Some(InboundMessage::Event(e)),
                    None => None,
                }
            } else {
                None
            }
        },
    }
}

} // verus!
