//! Events: time-stamped, uniquely identified messages delivered over links.
//!
//! The kernel never inspects a payload; it is a tagged value decoded by the
//! component that owns the receiving port.

use crate::types::{Cycle, EventId};
use crate::word::{Byte, Word};
use vstd::prelude::*;

verus! {

/// The value carried by an event. The kernel is payload-agnostic: components
/// that share a link must agree on the variant they exchange.
#[derive(Clone, Copy, Debug)]
pub enum Payload {
    /// A clock tick; carries no data.
    Clock,
    /// A packet identifier and an end-of-stream flag.
    Packet(u128, bool),
    /// A word of simulated data.
    Word(Word),
    /// A byte of simulated data.
    Byte(Byte),
}

/// The message that actually travels through the kernel: an identifier, the
/// cycle at which it must be delivered, and an opaque payload.
#[derive(Clone, Copy, Debug)]
pub struct SimEvent {
    pub event_id: EventId,
    pub scheduled_time: Cycle,
    pub payload: Payload,
}

/// What every event type exposes to the kernel: identity, schedule, and an
/// opaque payload.
pub trait Event: Sized {
    /// The event's identifier.
    spec fn spec_event_id(&self) -> EventId;

    /// The cycle at which the event is to be delivered.
    spec fn spec_scheduled_time(&self) -> Cycle;

    /// Whether the event is a clock tick produced by the manager.
    spec fn spec_is_clock(&self) -> bool;

    /// The carried payload.
    spec fn spec_payload(&self) -> Payload;

    fn is_clock_event(&self) -> (r: bool)
        ensures
            r == self.spec_is_clock(),
    ;

    fn get_event_id(&self) -> (r: EventId)
        ensures
            r == self.spec_event_id(),
    ;

    fn get_scheduled_time(&self) -> (r: Cycle)
        ensures
            r == self.spec_scheduled_time(),
    ;

    fn set_scheduled_time(&mut self, scheduled_time: Cycle)
        ensures
            final(self).spec_scheduled_time() == scheduled_time,
            final(self).spec_event_id() == old(self).spec_event_id(),
            final(self).spec_payload() == old(self).spec_payload(),
            final(self).spec_is_clock() == old(self).spec_is_clock(),
    ;

    fn get_inner(&self) -> (r: Payload)
        ensures
            r == self.spec_payload(),
    ;

    /// The kernel message form of this event.
    fn to_event(&self) -> (r: SimEvent)
        ensures
            r.event_id == self.spec_event_id(),
            r.scheduled_time == self.spec_scheduled_time(),
            r.payload == self.spec_payload(),
    ;
}

/// The payload of a kernel event, for callers that know the concrete kind.
pub fn get_inner(event: &SimEvent) -> (r: Payload)
    ensures
        r == event.payload,
{
    event.payload
}

impl Event for SimEvent {
    open spec fn spec_event_id(&self) -> EventId {
        self.event_id
    }

    open spec fn spec_scheduled_time(&self) -> Cycle {
        self.scheduled_time
    }

    open spec fn spec_is_clock(&self) -> bool {
        self.payload is Clock
    }

    open spec fn spec_payload(&self) -> Payload {
        self.payload
    }

    fn is_clock_event(&self) -> (r: bool) {
        matches!(self.payload, Payload::Clock)
    }

    fn get_event_id(&self) -> (r: EventId) {
        self.event_id
    }

    fn get_scheduled_time(&self) -> (r: Cycle) {
        self.scheduled_time
    }

    fn set_scheduled_time(&mut self, scheduled_time: Cycle) {
        self.scheduled_time = scheduled_time;
    }

    fn get_inner(&self) -> (r: Payload) {
        self.payload
    }

    fn to_event(&self) -> (r: SimEvent) {
        *self
    }
}

} // verus!
