//! The event the manager fans out to every clock subscriber once per cycle.

use crate::event::{Event, Payload, SimEvent};
use crate::types::{Cycle, EventId};
use vstd::prelude::*;

verus! {

/// A pure tick notification: it carries no payload and is produced only by
/// the manager itself, once per cycle per subscriber.
#[derive(Clone, Copy, Debug)]
pub struct ClockEvent {
    pub event_id: EventId,
    pub scheduled_time: Cycle,
}

impl ClockEvent {
    pub fn new(scheduled_time: Cycle, event_id: EventId) -> (r: ClockEvent)
        ensures
            r.event_id == event_id,
            r.scheduled_time == scheduled_time,
    {
        ClockEvent { event_id, scheduled_time }
    }
}

impl Event for ClockEvent {
    open spec fn spec_event_id(&self) -> EventId {
        self.event_id
    }

    open spec fn spec_scheduled_time(&self) -> Cycle {
        self.scheduled_time
    }

    open spec fn spec_is_clock(&self) -> bool {
        true
    }

    open spec fn spec_payload(&self) -> Payload {
        Payload::Clock
    }

    fn is_clock_event(&self) -> (r: bool) {
        true
    }

    fn get_event_id(&self) -> (r: EventId) {
        self.event_id
    }

    fn get_scheduled_time(&self) -> (r: Cycle) {
        self.scheduled_time
    }

    fn set_scheduled_time(&mut self, scheduled_time: Cycle) {
        self.scheduled_time = scheduled_time;
    }

    fn get_inner(&self) -> (r: Payload) {
        Payload::Clock
    }

    fn to_event(&self) -> (r: SimEvent) {
        SimEvent {
            event_id: self.event_id,
            scheduled_time: self.scheduled_time,
            payload: Payload::Clock,
        }
    }
}

} // verus!
