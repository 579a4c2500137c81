//! The mailbox transport: a single-slot, acknowledged, blocking rendezvous
//! channel moving one tagged message at a time between the two cores. It is
//! the sole cross-core synchronization primitive; every remote operation is
//! one or more send/receive round-trips over it.
//!
//! On hardware, `send` busy-waits for the peer's acknowledgment and `recv`
//! busy-waits for a message. In this model the waits become preconditions:
//! a send is enabled once the slot is free (the previous message was
//! acknowledged), a receive once a message is pending. Round-trip fidelity —
//! the peer receives exactly the value that was sent — is the `ensures` of
//! `send` and `recv` together.

use vstd::prelude::*;
use vstd::string::StringSliceAdditionalSpecFns;
use crate::msg::Message;

verus! {

/// The log line that precedes a halt on a protocol violation: the peer sent
/// a variant the pending handshake cannot accept, so after this message the
/// receiving core stops taking protocol steps.
pub fn log_unexpected_reply(out: &mut Vec<Message>)
    ensures
        final(out)@.len() == old(out)@.len() + 1,
        final(out)@.subrange(0, old(out)@.len() as int) == old(out)@,
        final(out)@.last() matches Message::Log(m) && m@ == "unexpected reply\n".spec_bytes(),
{
    let text = vstd::slice::slice_to_vec(("unexpected reply\n").as_bytes());
    out.push(Message::Log(text));
    assert(out@.subrange(0, old(out)@.len() as int) =~= old(out)@);
}

/// The single message slot shared by the two cores. `None` means the channel
/// is idle (the last message was copied and acknowledged); `Some(m)` means
/// `m` has been handed over and not yet acknowledged. There is no buffering:
/// exactly one outstanding message exists at any time.
pub struct Mailbox {
    slot: Option<Message>,
}

impl Mailbox {
    /// An idle channel.
    pub fn new() -> (r: Mailbox)
        ensures
            r.inflight() is None,
    {
        Mailbox { slot: None }
    }

    /// The message currently occupying the channel, if any.
    pub closed spec fn inflight(&self) -> Option<Message> {
        self.slot
    }

    /// The channel is idle: the peer has acknowledged the last message.
    pub open spec fn is_free(&self) -> bool {
        self.inflight() is None
    }

    /// Hand `m` to the peer. On hardware this blocks until the peer has
    /// copied the message and signaled acknowledgment; here the completed
    /// wait is the precondition that the slot is free.
    pub fn send(&mut self, m: Message)
        requires
            old(self).is_free(),
        ensures
            final(self).inflight() == Some(m),
    {
        self.slot = Some(m);
    }

    /// Take the pending message and acknowledge it. The value received is
    /// exactly the value the peer sent, and the channel is idle afterwards.
    pub fn recv(&mut self) -> (m: Message)
        requires
            old(self).inflight() is Some,
        ensures
            old(self).inflight() == Some(m),
            final(self).is_free(),
    {
        let taken = self.slot.take();
        taken.unwrap()
    }
}

} // verus!
