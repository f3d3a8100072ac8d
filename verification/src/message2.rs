//! Alice's responder for Bob's second setup message.
//!
//! The transport delivers inbound request-response events; this model
//! keeps the decisions: a request is queued for the driver and answered
//! with an empty acknowledgement, a response is a protocol violation a
//! running peer reports instead of crashing on, and transport failures
//! are counted and survived.  The queues are what the event loop drains;
//! the sockets behind them stay outside the library.

use vstd::prelude::*;

use crate::protocol::{ExecutionSetupMsg2, ExecutionSetupMsg3, ProtocolError};

verus! {

/// What this behaviour surfaces to the driver.
#[derive(Clone, Copy)]
pub enum OutEvent {
    /// Bob's second setup message arrived.
    Msg(ExecutionSetupMsg2),
}

/// What this behaviour can answer on a response channel.
#[derive(Clone, Copy)]
pub enum Reply {
    /// Alice's partial signatures.
    Msg3(ExecutionSetupMsg3),
    /// The empty acknowledgement that completes an exchange.
    Empty,
}

/// What the transport can hand the behaviour.
#[derive(Clone, Copy)]
pub enum InboundEvent {
    /// A request from Bob, with its response channel.
    Request {
        /// The message Bob sent.
        request: ExecutionSetupMsg2,
        /// The channel the answer goes out on.
        channel: u64,
    },
    /// A response, which nobody should be sending Alice here.
    Response,
    /// An inbound transfer failed.
    InboundFailure,
    /// An outbound transfer failed.
    OutboundFailure,
}

/// The responder: queued driver events, queued replies, and a count of
/// survived transport failures.
pub struct Message2 {
    events: Vec<OutEvent>,
    replies: Vec<(u64, Reply)>,
    failures: u64,
}

impl Message2 {
    /// The events queued for the driver, oldest first.
    pub closed spec fn spec_events(self) -> Seq<OutEvent> {
        self.events@
    }

    /// The replies queued for the transport, oldest first.
    pub closed spec fn spec_replies(self) -> Seq<(u64, Reply)> {
        self.replies@
    }

    /// How many transport failures were survived.
    pub closed spec fn spec_failures(self) -> u64 {
        self.failures
    }

    /// How many replies wait for the transport.
    pub fn reply_count(&self) -> (r: usize)
        ensures
            r == self.spec_replies().len(),
    {
        self.replies.len()
    }

    /// How many transport failures were survived so far.
    pub fn failure_count(&self) -> (r: u64)
        ensures
            r == self.spec_failures(),
    {
        self.failures
    }

    /// Queues Alice's partial signatures on Bob's response channel.
    pub fn send(&mut self, channel: u64, msg: ExecutionSetupMsg3)
        ensures
            final(self).spec_replies() == old(self).spec_replies().push(
                (channel, Reply::Msg3(msg))),
            final(self).spec_events() == old(self).spec_events(),
            final(self).spec_failures() == old(self).spec_failures(),
    {
        self.replies.push((channel, Reply::Msg3(msg)));
    }

    /// Hands the driver the oldest queued event, if any.
    pub fn poll(&mut self) -> (r: Option<OutEvent>)
        ensures
            old(self).spec_events().len() == 0 ==> r is None
                && final(self).spec_events() == old(self).spec_events(),
            old(self).spec_events().len() > 0 ==> r == Some(old(self).spec_events()[0])
                && final(self).spec_events() == old(self).spec_events().drop_first(),
            final(self).spec_replies() == old(self).spec_replies(),
            final(self).spec_failures() == old(self).spec_failures(),
    {
        if self.events.len() == 0 {
            return None;
        }
        let ev = self.events.remove(0);
        Some(ev)
    }

    /// Takes one transport event.  A request is queued for the driver
    /// and acknowledged; a response is reported as an unexpected
    /// message, since Alice only ever answers requests here; failures
    /// are counted and survived.
    pub fn inject_event(&mut self, event: InboundEvent) -> (r: Result<(), ProtocolError>)
        requires
            old(self).spec_failures() < u64::MAX,
        ensures
            event matches InboundEvent::Request { request, channel } ==> r is Ok
                && final(self).spec_events() == old(self).spec_events().push(
                    OutEvent::Msg(request))
                && final(self).spec_replies() == old(self).spec_replies().push(
                    (channel, Reply::Empty))
                && final(self).spec_failures() == old(self).spec_failures(),
            event is Response ==> r == Err::<(), ProtocolError>(
                ProtocolError::UnexpectedMessage)
                && *final(self) == *old(self),
            (event is InboundFailure || event is OutboundFailure) ==> r is Ok
                && final(self).spec_failures() == old(self).spec_failures() + 1
                && final(self).spec_events() == old(self).spec_events()
                && final(self).spec_replies() == old(self).spec_replies(),
    {
        match event {
            InboundEvent::Request { request, channel } => {
                self.events.push(OutEvent::Msg(request));
                self.replies.push((channel, Reply::Empty));
                Ok(())
            },
            InboundEvent::Response => Err(ProtocolError::UnexpectedMessage),
            InboundEvent::InboundFailure => {
                self.failures = self.failures + 1;
                Ok(())
            },
            InboundEvent::OutboundFailure => {
                self.failures = self.failures + 1;
                Ok(())
            },
        }
    }
}

impl Default for Message2 {
    /// An idle responder: nothing queued, no failures seen.
    fn default() -> (r: Message2)
        ensures
            r.spec_events() == Seq::<OutEvent>::empty(),
            r.spec_replies() == Seq::<(u64, Reply)>::empty(),
            r.spec_failures() == 0,
    {
        Message2 { events: Vec::new(), replies: Vec::new(), failures: 0 }
    }
}

} // verus!
