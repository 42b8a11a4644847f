//! The event the sample components exchange: a packet identifier together
//! with an end-of-stream flag.

use crate::event::{Event, Payload, SimEvent};
use crate::types::{Cycle, EventId};
use vstd::prelude::*;

verus! {

/// A packet event: its identifier within the stream, and whether it is the
/// last packet of the stream.
#[derive(Clone, Copy, Debug)]
pub struct SimpleEvent {
    pub scheduled_time: Cycle,
    pub event_id: EventId,
    pub packet_id: u128,
    pub is_last: bool,
}

impl SimpleEvent {
    pub fn new(scheduled_time: Cycle, packet_id: u128, is_last: bool, event_id: EventId) -> (r:
        SimpleEvent)
        ensures
            r == (SimpleEvent { scheduled_time, event_id, packet_id, is_last }),
    {
        SimpleEvent { scheduled_time, event_id, packet_id, is_last }
    }
}

impl Event for SimpleEvent {
    open spec fn spec_event_id(&self) -> EventId {
        self.event_id
    }

    open spec fn spec_scheduled_time(&self) -> Cycle {
        self.scheduled_time
    }

    open spec fn spec_is_clock(&self) -> bool {
        false
    }

    open spec fn spec_payload(&self) -> Payload {
        Payload::Packet(self.packet_id, self.is_last)
    }

    fn is_clock_event(&self) -> (r: bool) {
        false
    }

    fn get_event_id(&self) -> (r: EventId) {
        self.event_id
    }

    fn get_scheduled_time(&self) -> (r: Cycle) {
        self.scheduled_time
    }

    fn set_scheduled_time(&mut self, scheduled_time: Cycle) {
        self.scheduled_time = scheduled_time;
    }

    fn get_inner(&self) -> (r: Payload) {
        Payload::Packet(self.packet_id, self.is_last)
    }

    fn to_event(&self) -> (r: SimEvent) {
        SimEvent {
            event_id: self.event_id,
            scheduled_time: self.scheduled_time,
            payload: Payload::Packet(self.packet_id, self.is_last),
        }
    }
}

} // verus!
