//! A webview–host message bridge.
//!
//! The host embeds one or more webview sessions and exchanges structured
//! messages with them.  This crate holds the bridge's logic, verified with
//! Verus:
//!
//! - an inbound message queue that carries command and event messages from
//!   webview callback threads into the host's per-frame scheduler
//!   ([`queue::MessageQueue`]);
//! - a command-dispatch registry that routes command messages to typed host
//!   operations and correlates their eventual results back to the caller
//!   ([`registry::CommandRegistry`]);
//! - a typed event-trigger bus that fans event messages out to a broadcast
//!   stream and to point-addressed observers ([`trigger::EventRegistry`]);
//! - an outbound event emitter that turns host events into script calls, one
//!   per live session ([`emitter::Sessions`]);
//! - an asynchronous local-resource resolver that answers the webview's
//!   virtual-protocol requests ([`resolver::ResourceResolver`]).
//!
//! All side effects — evaluating a script in a session, loading bytes from
//! disk, showing a notification — are values returned to the embedding host,
//! which performs them and feeds results back in.  The logic that decides what
//! to do is what this crate verifies.

pub mod config;
pub mod log;
pub mod emitter;
pub mod envelope;
pub mod fsapi;
pub mod json;
pub mod mime;
pub mod ops;
pub mod plugins;
pub mod queue;
pub mod registry;
pub mod resolver;
pub mod strutil;
pub mod trigger;

pub use queue::MessageQueue;
