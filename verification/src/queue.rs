//! The inbound message queue.
//!
//! Webview callback threads hand messages to the frame scheduler through this
//! buffer.  The embedding host wraps a [`MessageQueue`] in its own
//! mutual-exclusion lock; producers must take the lock blocking (a push may
//! never be lost), while the per-frame cleanup may use a non-blocking attempt
//! and skip a frame.  The queue itself is the verified core of that handoff:
//! a push appends exactly one message, and a drain returns everything
//! accumulated so far and leaves the buffer empty.

use vstd::prelude::*;

verus! {

/// A handoff buffer from message producers to the single-threaded frame
/// scheduler.
///
/// Its view is the sequence of messages accumulated since the last drain, in
/// push order.
pub struct MessageQueue<T> {
    buf: Vec<T>,
}

impl<T> View for MessageQueue<T> {
    type V = Seq<T>;

    closed spec fn view(&self) -> Seq<T> {
        self.buf@
    }
}

impl<T> MessageQueue<T> {
    /// Creates an empty queue.
    pub fn new() -> (q: Self)
        ensures
            q@ === Seq::<T>::empty(),
    {
        MessageQueue { buf: Vec::new() }
    }

    /// Appends one message; no message is ever dropped by a push.
    pub fn push(&mut self, message: T)
        ensures
            final(self)@ === old(self)@.push(message),
    {
        self.buf.push(message);
    }

    /// Returns all messages accumulated since the last drain, in push order,
    /// and atomically empties the buffer.
    pub fn drain_and_clear(&mut self) -> (drained: Vec<T>)
        ensures
            drained@ === old(self)@,
            final(self)@ === Seq::<T>::empty(),
    {
        let mut out: Vec<T> = Vec::new();
        core::mem::swap(&mut out, &mut self.buf);
        out
    }

    /// The number of messages waiting.
    pub fn len(&self) -> (n: usize)
        ensures
            n == self@.len(),
    {
        self.buf.len()
    }

    /// Whether the queue holds no message.
    pub fn is_empty(&self) -> (b: bool)
        ensures
            b == (self@.len() == 0),
    {
        self.buf.len() == 0
    }
}

impl<T> Default for MessageQueue<T> {
    fn default() -> (q: Self)
        ensures
            q@ === Seq::<T>::empty(),
    {
        MessageQueue::new()
    }
}

} // verus!
