//! A task is an event bundled with the channel on which it must be
//! delivered. Tasks are ordered by `(scheduled_time, event_id)`, earliest
//! first, so that releases are reproducible.

use crate::event::SimEvent;
use crate::types::Output;
use vstd::prelude::*;

verus! {

/// An event together with its destination endpoint.
pub struct Task {
    pub event: SimEvent,
    pub event_callback: Output,
}

impl Task {
    pub fn new(event: SimEvent, event_callback: Output) -> (r: Task)
        ensures
            r.event == event,
            r.event_callback == event_callback,
    {
        Task { event, event_callback }
    }
}

/// The task that delivers `event` on the endpoint `event_callback`.
pub open spec fn task_to(event_callback: Output, event: SimEvent) -> Task {
    Task { event, event_callback }
}

/// The events of a sequence of tasks, in the same order.
pub open spec fn heap_events(s: Seq<Task>) -> Seq<SimEvent> {
    s.map_values(|t: Task| t.event)
}

/// The total order on tasks used by the event heap: earlier scheduled time
/// first, ties broken by event identifier.
pub open spec fn event_le(a: SimEvent, b: SimEvent) -> bool {
    a.scheduled_time < b.scheduled_time || (a.scheduled_time == b.scheduled_time && a.event_id
        <= b.event_id)
}

/// Whether `a` strictly precedes `b` in heap order.
pub open spec fn event_lt(a: SimEvent, b: SimEvent) -> bool {
    a.scheduled_time < b.scheduled_time || (a.scheduled_time == b.scheduled_time && a.event_id
        < b.event_id)
}

/// Executable form of the heap order test.
pub fn event_le_exec(a: &SimEvent, b: &SimEvent) -> (r: bool)
    ensures
        r == event_le(*a, *b),
{
    a.scheduled_time < b.scheduled_time || (a.scheduled_time == b.scheduled_time && a.event_id
        <= b.event_id)
}

} // verus!
