//! Events carrying datapath values, and the emit helpers every datapath
//! component uses: mint an identifier, stamp the current cycle, schedule.

use crate::event::{Event, Payload, SimEvent};
use crate::sim_manager::{send_event, SimManager};
use crate::task::task_to;
use crate::types::{wrap_inc, Cycle, EventId, Output};
use crate::word::{Byte, Word};
use vstd::prelude::*;

verus! {

/// The kernel event that carries a word scheduled at a time.
pub open spec fn word_event(event_id: EventId, scheduled_time: Cycle, w: Word) -> SimEvent {
    SimEvent { event_id, scheduled_time, payload: Payload::Word(w) }
}

/// The kernel event that carries a byte scheduled at a time.
pub open spec fn byte_event(event_id: EventId, scheduled_time: Cycle, b: Byte) -> SimEvent {
    SimEvent { event_id, scheduled_time, payload: Payload::Byte(b) }
}

/// An event carrying one word of simulated data.
#[derive(Clone, Copy, Debug)]
pub struct WordEvent {
    pub scheduled_time: Cycle,
    pub data: Word,
    pub event_id: EventId,
}

impl WordEvent {
    pub fn new(scheduled_time: Cycle, data: Word, event_id: EventId) -> (r: WordEvent)
        ensures
            r == (WordEvent { scheduled_time, data, event_id }),
    {
        WordEvent { scheduled_time, data, event_id }
    }
}

impl Event for WordEvent {
    open spec fn spec_event_id(&self) -> EventId {
        self.event_id
    }

    open spec fn spec_scheduled_time(&self) -> Cycle {
        self.scheduled_time
    }

    open spec fn spec_is_clock(&self) -> bool {
        false
    }

    open spec fn spec_payload(&self) -> Payload {
        Payload::Word(self.data)
    }

    fn is_clock_event(&self) -> (r: bool) {
        false
    }

    fn get_event_id(&self) -> (r: EventId) {
        self.event_id
    }

    fn get_scheduled_time(&self) -> (r: Cycle) {
        self.scheduled_time
    }

    fn set_scheduled_time(&mut self, scheduled_time: Cycle) {
        self.scheduled_time = scheduled_time;
    }

    fn get_inner(&self) -> (r: Payload) {
        Payload::Word(self.data)
    }

    fn to_event(&self) -> (r: SimEvent) {
        SimEvent {
            event_id: self.event_id,
            scheduled_time: self.scheduled_time,
            payload: Payload::Word(self.data),
        }
    }
}

/// An event carrying one byte of simulated data.
#[derive(Clone, Copy, Debug)]
pub struct ByteEvent {
    pub scheduled_time: Cycle,
    pub data: Byte,
    pub event_id: EventId,
}

impl ByteEvent {
    pub fn new(scheduled_time: Cycle, data: Byte, event_id: EventId) -> (r: ByteEvent)
        ensures
            r == (ByteEvent { scheduled_time, data, event_id }),
    {
        ByteEvent { scheduled_time, data, event_id }
    }
}

impl Event for ByteEvent {
    open spec fn spec_event_id(&self) -> EventId {
        self.event_id
    }

    open spec fn spec_scheduled_time(&self) -> Cycle {
        self.scheduled_time
    }

    open spec fn spec_is_clock(&self) -> bool {
        false
    }

    open spec fn spec_payload(&self) -> Payload {
        Payload::Byte(self.data)
    }

    fn is_clock_event(&self) -> (r: bool) {
        false
    }

    fn get_event_id(&self) -> (r: EventId) {
        self.event_id
    }

    fn get_scheduled_time(&self) -> (r: Cycle) {
        self.scheduled_time
    }

    fn set_scheduled_time(&mut self, scheduled_time: Cycle) {
        self.scheduled_time = scheduled_time;
    }

    fn get_inner(&self) -> (r: Payload) {
        Payload::Byte(self.data)
    }

    fn to_event(&self) -> (r: SimEvent) {
        SimEvent {
            event_id: self.event_id,
            scheduled_time: self.scheduled_time,
            payload: Payload::Byte(self.data),
        }
    }
}

/// Emit a word on an output port: mint an identifier, stamp the current
/// cycle, and schedule exactly that event, bound to exactly that port.
pub fn send_word(mgr: &mut SimManager, output: &Output, w: Word)
    requires
        old(mgr).wf(),
    ensures
        final(mgr).wf(),
        final(mgr)@ == old(mgr)@.with_heap(final(mgr)@.heap).with_next_id(
            wrap_inc(old(mgr)@.next_id),
        ),
        final(mgr)@.heap.to_multiset() == old(mgr)@.heap.to_multiset().insert(
            task_to(*output, word_event(old(mgr)@.next_id, old(mgr)@.cycle, w)),
        ),
{
    let t = mgr.get_curr_cycle();
    let id = mgr.request_new_event_id();
    let ev = WordEvent::new(t, w, id);
    send_event(mgr, output, ev.to_event());
}

/// Emit a byte on an output port: mint an identifier, stamp the current
/// cycle, and schedule exactly that event, bound to exactly that port.
pub fn send_byte(mgr: &mut SimManager, output: &Output, b: Byte)
    requires
        old(mgr).wf(),
    ensures
        final(mgr).wf(),
        final(mgr)@ == old(mgr)@.with_heap(final(mgr)@.heap).with_next_id(
            wrap_inc(old(mgr)@.next_id),
        ),
        final(mgr)@.heap.to_multiset() == old(mgr)@.heap.to_multiset().insert(
            task_to(*output, byte_event(old(mgr)@.next_id, old(mgr)@.cycle, b)),
        ),
{
    let t = mgr.get_curr_cycle();
    let id = mgr.request_new_event_id();
    let ev = ByteEvent::new(t, b, id);
    send_event(mgr, output, ev.to_event());
}

} // verus!
