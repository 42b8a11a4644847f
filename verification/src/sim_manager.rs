//! The simulation manager: the global clock, the event heap, the reorder
//! buffer of released-but-unacknowledged events, the clock-tick subscriber
//! list, the event-identifier generator and the termination registry.
//!
//! The manager owns all of that state exclusively; components reach it only
//! through the methods here. Time only moves forward: a cycle completes when
//! every event released at the current cycle has been acknowledged and
//! nothing earlier than the future remains pending.

use crate::channel::{clone_sender, try_recv, try_send, ChannelPoll};
use crate::clock_event::ClockEvent;
use crate::error::SimError;
use crate::event::{Event, Payload, SimEvent};
use crate::queue::{sorted_events, TaskQueue};
use crate::task::{event_le, heap_events, task_to, Task};
use crate::types::{
    counter_inc, wrap_add, wrap_inc, ComponentId, Cycle, EventId, Output,
};
use vstd::multiset::Multiset;
use vstd::prelude::*;

verus! {

/// The manager's abstract state: what every contract here speaks about.
#[verifier::ext_equal]
pub struct SimManagerView {
    /// The current cycle of the global clock.
    pub cycle: Cycle,
    /// Pending tasks (each an event with its destination endpoint), in
    /// release order: earliest first.
    pub heap: Seq<Task>,
    /// Identifiers of events released from the heap but not yet
    /// acknowledged: the reorder buffer.
    pub rob: Set<EventId>,
    /// The next event identifier to be minted.
    pub next_id: EventId,
    /// How many acknowledgements have been absorbed in all.
    pub processed: u128,
    /// Components currently voting "do not terminate yet".
    pub votes: Set<ComponentId>,
    /// The clock-tick subscriber endpoints, in registration order.
    pub subs: Seq<Output>,
}

impl SimManagerView {
    pub open spec fn with_heap(self, heap: Seq<Task>) -> SimManagerView {
        SimManagerView { heap, ..self }
    }

    pub open spec fn with_rob(self, rob: Set<EventId>) -> SimManagerView {
        SimManagerView { rob, ..self }
    }

    pub open spec fn with_next_id(self, next_id: EventId) -> SimManagerView {
        SimManagerView { next_id, ..self }
    }

    pub open spec fn with_processed(self, processed: u128) -> SimManagerView {
        SimManagerView { processed, ..self }
    }

    pub open spec fn with_votes(self, votes: Set<ComponentId>) -> SimManagerView {
        SimManagerView { votes, ..self }
    }

    pub open spec fn with_cycle(self, cycle: Cycle) -> SimManagerView {
        SimManagerView { cycle, ..self }
    }

    pub open spec fn with_subs(self, subs: Seq<Output>) -> SimManagerView {
        SimManagerView { subs, ..self }
    }
}

/// Whether nothing in the heap is due at or before the current cycle.
pub open spec fn heap_settled(v: SimManagerView) -> bool {
    v.heap.len() == 0 || v.heap[0].event.scheduled_time > v.cycle
}

/// Whether some pending task is dated strictly in the past: the condition
/// the next drain reports as a time fault.
pub open spec fn has_past_due(v: SimManagerView) -> bool {
    exists|i: int|
        0 <= i < v.heap.len() && (#[trigger] v.heap[i]).event.scheduled_time < v.cycle
}

/// Whether no released event is still awaiting its acknowledgement.
pub open spec fn rob_empty(v: SimManagerView) -> bool {
    v.rob =~= Set::<EventId>::empty()
}

/// Whether the current cycle is complete: nothing unacknowledged, nothing
/// due any more.
pub open spec fn quiescent(v: SimManagerView) -> bool {
    rob_empty(v) && heap_settled(v)
}

/// Whether no component is holding the simulation open.
pub open spec fn votes_empty(v: SimManagerView) -> bool {
    v.votes =~= Set::<ComponentId>::empty()
}

/// The identifiers of a sequence of tasks' events.
pub open spec fn ids_of(s: Seq<Task>) -> Set<EventId> {
    s.map_values(|t: Task| t.event.event_id).to_set()
}

/// Whether `b` holds at least as many copies as `a` of every task dated
/// strictly after cycle `c`: nothing scheduled beyond `c` has been lost.
pub open spec fn counts_ge(a: Seq<Task>, b: Seq<Task>, c: Cycle) -> bool {
    forall|t: Task|
        t.event.scheduled_time > c ==> #[trigger] b.to_multiset().count(t)
            >= a.to_multiset().count(t)
}

/// Dropping a released prefix that was all due at or before `c` keeps
/// every task dated after `c`.
proof fn lemma_counts_ge_skip(s: Seq<Task>, k: int, c: Cycle)
    requires
        0 <= k <= s.len(),
        forall|i: int| 0 <= i < k ==> (#[trigger] s[i]).event.scheduled_time <= c,
    ensures
        counts_ge(s, s.skip(k), c),
{
    broadcast use vstd::multiset::group_multiset_axioms;

    let front = s.take(k);
    let back = s.skip(k);
    assert(s =~= front + back);
    vstd::seq_lib::lemma_multiset_commutative(front, back);
    assert forall|t: Task| t.event.scheduled_time > c implies #[trigger] back.to_multiset().count(
        t,
    ) >= s.to_multiset().count(t) by {
        front.to_multiset_ensures();
        if front.to_multiset().count(t) > 0 {
            assert(front.contains(t));
            let i = choose|i: int| 0 <= i < front.len() && front[i] == t;
            assert(s[i].event.scheduled_time <= c);
        }
        assert(front.to_multiset().count(t) == 0);
    }
}

/// Growing one counter bound to a later cycle only weakens it.
proof fn lemma_counts_ge_later(a: Seq<Task>, b: Seq<Task>, c1: Cycle, c2: Cycle)
    requires
        counts_ge(a, b, c1),
        c1 <= c2,
    ensures
        counts_ge(a, b, c2),
{
}

/// The bound composes along intermediate heaps.
proof fn lemma_counts_ge_trans(a: Seq<Task>, b: Seq<Task>, d: Seq<Task>, c: Cycle)
    requires
        counts_ge(a, b, c),
        counts_ge(b, d, c),
    ensures
        counts_ge(a, d, c),
{
}

/// A heap that only grew keeps every task.
proof fn lemma_counts_ge_grow(a: Seq<Task>, b: Seq<Task>, c: Cycle)
    requires
        a.to_multiset().subset_of(b.to_multiset()),
    ensures
        counts_ge(a, b, c),
{
    broadcast use vstd::multiset::group_multiset_axioms;

}

/// One minting of an event identifier: the relation between the state
/// before, the identifier handed out, and the state after.
pub open spec fn mint_step(pre: SimManagerView, r: EventId, post: SimManagerView) -> bool {
    r == pre.next_id && post == pre.with_next_id(wrap_inc(pre.next_id))
}

/// The batch of clock tasks scheduled in one tick: one per subscriber
/// (duplicates kept, in registration order), each a fresh clock event
/// stamped with the given cycle, with consecutive identifiers, addressed
/// to that subscriber's own endpoint.
pub open spec fn clock_batch(cycle: Cycle, first_id: EventId, subs: Seq<Output>) -> Seq<Task> {
    Seq::new(
        subs.len(),
        |k: int|
            Task {
                event: SimEvent {
                    event_id: wrap_add(first_id, k),
                    scheduled_time: cycle,
                    payload: Payload::Clock,
                },
                event_callback: subs[k],
            },
    )
}

/// Every task of a clock batch is a clock tick stamped with the batch's
/// cycle, addressed to the matching subscriber, one per subscriber.
pub proof fn lemma_clock_batch_properties(cycle: Cycle, first_id: EventId, subs: Seq<Output>)
    ensures
        clock_batch(cycle, first_id, subs).len() == subs.len(),
        forall|k: int|
            0 <= k < subs.len() ==> (#[trigger] clock_batch(cycle, first_id, subs)[k]).event.scheduled_time
                == cycle && clock_batch(cycle, first_id, subs)[k].event.payload is Clock
                && clock_batch(cycle, first_id, subs)[k].event_callback == subs[k],
{
}

/// The global clock, ordering, acknowledgement tracking and termination
/// registry of one simulation.
pub struct SimManager {
    curr_cycle: Cycle,
    event_q: TaskQueue,
    clock_tick_q: Vec<Output>,
    rob: Vec<EventId>,
    next_event_id: EventId,
    ack_recv: crossbeam_channel::Receiver<EventId>,
    component_do_not_end_set: Vec<ComponentId>,
    event_processed: u128,
}

impl View for SimManager {
    type V = SimManagerView;

    closed spec fn view(&self) -> SimManagerView {
        SimManagerView {
            cycle: self.curr_cycle,
            heap: self.event_q.tasks(),
            rob: self.rob@.to_set(),
            next_id: self.next_event_id,
            processed: self.event_processed,
            votes: self.component_do_not_end_set@.to_set(),
            subs: self.clock_tick_q@,
        }
    }
}

impl SimManager {
    /// The manager's internal invariant: the heap is in release order and
    /// the reorder buffer and vote registry hold each entry once.
    pub closed spec fn wf(&self) -> bool {
        self.event_q.wf() && self.rob@.no_duplicates()
            && self.component_do_not_end_set@.no_duplicates()
    }

    /// A well-formed manager's pending events are in release order.
    pub proof fn lemma_heap_sorted(&self)
        requires
            self.wf(),
        ensures
            sorted_events(heap_events(self@.heap)),
    {
    }

    /// A fresh manager: clock at zero, nothing pending, nothing released,
    /// no identifier minted, nobody subscribed, nobody voting.
    pub fn new(ack_recv: crossbeam_channel::Receiver<EventId>) -> (r: SimManager)
        ensures
            r.wf(),
            r@.cycle == 0,
            r@.heap.len() == 0,
            rob_empty(r@),
            r@.next_id == 0,
            r@.processed == 0,
            votes_empty(r@),
            r@.subs.len() == 0,
    {
        let r = SimManager {
            curr_cycle: 0,
            event_q: TaskQueue::new(),
            clock_tick_q: Vec::new(),
            rob: Vec::new(),
            next_event_id: 0,
            ack_recv,
            component_do_not_end_set: Vec::new(),
            event_processed: 0,
        };
        proof {
            assert(r.rob@.to_set() =~= Set::<EventId>::empty());
            assert(r.component_do_not_end_set@.to_set() =~= Set::<ComponentId>::empty());
        }
        r
    }

    /// Schedule a task. The heap gains exactly that task, destination and
    /// all; nothing else changes. Nothing is checked here: an event forged
    /// into the past is detected, fatally, at the next drain.
    pub fn enq_event(&mut self, event: Task)
        requires
            old(self).wf(),
        ensures
            final(self).wf(),
            final(self)@ == old(self)@.with_heap(final(self)@.heap),
            final(self)@.heap.to_multiset() == old(self)@.heap.to_multiset().insert(event),
            final(self)@.heap.len() == old(self)@.heap.len() + 1,
    {
        self.event_q.push(event);
    }

    /// The current cycle of the global clock.
    pub fn get_curr_cycle(&self) -> (r: Cycle)
        ensures
            r == self@.cycle,
    {
        self.curr_cycle
    }

    /// Advance the clock by one cycle.
    fn increment_cycle(&mut self)
        requires
            old(self).wf(),
        ensures
            final(self).wf(),
            final(self)@ == old(self)@.with_cycle(wrap_inc(old(self)@.cycle)),
    {
        self.curr_cycle = counter_inc(self.curr_cycle);
    }

    /// Mint the next event identifier: strictly one more than every
    /// identifier handed out before (within the 128-bit space of one run).
    pub fn request_new_event_id(&mut self) -> (r: EventId)
        requires
            old(self).wf(),
        ensures
            final(self).wf(),
            mint_step(old(self)@, r, final(self)@),
            r == old(self)@.next_id,
            final(self)@ == old(self)@.with_next_id(wrap_inc(old(self)@.next_id)),
    {
        let ret = self.next_event_id;
        self.next_event_id = counter_inc(self.next_event_id);
        ret
    }

    /// Subscribe a channel to the clock: from the next tick on it receives
    /// exactly one clock event per cycle.
    pub fn register_clock_tick(&mut self, sender: Output)
        requires
            old(self).wf(),
        ensures
            final(self).wf(),
            final(self)@ == old(self)@.with_subs(old(self)@.subs.push(sender)),
    {
        self.clock_tick_q.push(sender);
    }

    /// Record a component's vote against ending the simulation.
    pub fn register_do_not_end(&mut self, component_id: ComponentId)
        requires
            old(self).wf(),
        ensures
            final(self).wf(),
            final(self)@ == old(self)@.with_votes(old(self)@.votes.insert(component_id)),
    {
        let ghost pre = self.component_do_not_end_set@;
        if !contains_id(&self.component_do_not_end_set, component_id) {
            proof {
                lemma_distinct_push(pre, component_id);
            }
            self.component_do_not_end_set.push(component_id);
        } else {
            proof {
                assert(pre.to_set() =~= pre.to_set().insert(component_id));
            }
        }
    }

    /// Withdraw a component's vote against ending the simulation.
    pub fn register_can_end(&mut self, component_id: ComponentId)
        requires
            old(self).wf(),
        ensures
            final(self).wf(),
            final(self)@ == old(self)@.with_votes(old(self)@.votes.remove(component_id)),
    {
        let ghost pre = self.component_do_not_end_set@;
        match index_of_id(&self.component_do_not_end_set, component_id) {
            Some(pos) => {
                self.component_do_not_end_set.remove(pos);
                proof {
                    lemma_distinct_seq_remove_to_set(pre, pos as int);
                }
            },
            None => {
                proof {
                    assert(pre.to_set() =~= pre.to_set().remove(component_id));
                }
            },
        }
    }

    /// Whether the simulation may end: true exactly when no component is
    /// voting "do not terminate yet".
    pub fn sim_can_end(&self) -> (r: bool)
        ensures
            r == votes_empty(self@),
    {
        let r = self.component_do_not_end_set.len() == 0;
        proof {
            if self.component_do_not_end_set@.len() == 0 {
                assert(self.component_do_not_end_set@.to_set() =~= Set::<ComponentId>::empty());
            } else {
                assert(self.component_do_not_end_set@.to_set().contains(
                    self.component_do_not_end_set@[0],
                ));
            }
        }
        r
    }

    /// How many acknowledgements the manager has absorbed in all.
    pub fn get_event_processed(&self) -> (r: u128)
        ensures
            r == self@.processed,
    {
        self.event_processed
    }

    /// How many events are pending in the heap.
    pub fn pending_events(&self) -> (r: usize)
        ensures
            r == self@.heap.len(),
    {
        self.event_q.len()
    }

    /// The cycle of the earliest pending event, if any.
    pub fn next_pending_time(&self) -> (r: Option<Cycle>)
        ensures
            self@.heap.len() == 0 ==> r is None,
            self@.heap.len() > 0 ==> r == Some(self@.heap[0].event.scheduled_time),
    {
        match self.event_q.peek_event() {
            Some(e) => Some(e.scheduled_time),
            None => None,
        }
    }

    /// Whether the event identifier is in the reorder buffer.
    fn rob_contains(&self, id: EventId) -> (r: bool)
        ensures
            r == self@.rob.contains(id),
    {
        contains_id(&self.rob, id)
    }

    /// Drain every acknowledgement waiting on the ack channel, removing each
    /// acknowledged identifier from the reorder buffer and counting it as
    /// processed. An acknowledgement for an identifier that is not in the
    /// reorder buffer is a phantom ack, and fatal; a closed ack channel is
    /// fatal too, since outstanding releases could never complete.
    pub fn recv_ack(&mut self) -> (r: Result<(), SimError>)
        requires
            old(self).wf(),
        ensures
            final(self).wf(),
            final(self)@ == old(self)@.with_rob(final(self)@.rob).with_processed(
                final(self)@.processed,
            ),
            final(self)@.rob.subset_of(old(self)@.rob),
            final(self)@.processed == wrap_add(
                old(self)@.processed,
                old(self)@.rob.len() - final(self)@.rob.len(),
            ),
            r is Err ==> (r == Err::<(), SimError>(SimError::PhantomAck) || r == Err::<
                (),
                SimError,
            >(SimError::ChannelClosed)),
    {
        proof {
            old(self).rob@.unique_seq_to_set();
            assert(wrap_add(old(self)@.processed, 0) == old(self)@.processed) by {
                vstd::arithmetic::div_mod::lemma_small_mod(
                    old(self)@.processed as nat,
                    (u128::MAX + 1) as nat,
                );
            }
        }
        let ghost pre_rob = self.rob@;
        let ghost pre_processed = self.event_processed;
        loop
            invariant
                self.wf(),
                self@ == old(self)@.with_rob(self@.rob).with_processed(self@.processed),
                self.rob@.to_set().subset_of(pre_rob.to_set()),
                pre_rob.to_set() == old(self)@.rob,
                pre_processed == old(self)@.processed,
                self.rob@.len() <= pre_rob.len(),
                pre_rob.len() == old(self)@.rob.len(),
                self.event_processed == wrap_add(
                    pre_processed,
                    pre_rob.len() - self.rob@.len(),
                ),
            decreases self.rob@.len(),
        {
            proof {
                self.rob@.unique_seq_to_set();
            }
            match try_recv(&self.ack_recv) {
                ChannelPoll::Empty => {
                    return Ok(());
                },
                ChannelPoll::Closed => {
                    return Err(SimError::ChannelClosed);
                },
                ChannelPoll::Item(ack_id) => {
                    match index_of_id(&self.rob, ack_id) {
                        Some(pos) => {
                            let ghost cur = self.rob@;
                            self.rob.remove(pos);
                            self.event_processed = counter_inc(self.event_processed);
                            proof {
                                lemma_distinct_seq_remove_to_set(cur, pos as int);
                                assert(self.rob@.to_set() =~= cur.to_set().remove(ack_id));
                                crate::types::lemma_wrap_add_inc(
                                    pre_processed,
                                    pre_rob.len() - cur.len(),
                                );
                            }
                        },
                        None => {
                            return Err(SimError::PhantomAck);
                        },
                    }
                },
            }
        }
    }

    /// Release every heap task due at the current cycle, in heap order:
    /// its identifier enters the reorder buffer and the event is forwarded
    /// on the task's destination channel (a send to a torn-down destination
    /// is dropped). A pending event dated in the past is a time fault, and
    /// fatal; the heap is then left untouched.
    pub fn send_events(&mut self) -> (r: Result<(), SimError>)
        requires
            old(self).wf(),
        ensures
            final(self).wf(),
            final(self)@ == old(self)@.with_heap(final(self)@.heap).with_rob(final(self)@.rob),
            r is Err ==> r == Err::<(), SimError>(SimError::TimeFault) && final(self)@ == old(self)@,
            (r is Err) <==> has_past_due(old(self)@),
            r is Ok ==> {
                let k = old(self)@.heap.len() - final(self)@.heap.len();
                &&& 0 <= k <= old(self)@.heap.len()
                &&& final(self)@.heap == old(self)@.heap.skip(k)
                &&& forall|i: int|
                    0 <= i < k ==> (#[trigger] old(self)@.heap[i]).event.scheduled_time == old(self)@.cycle
                &&& heap_settled(final(self)@)
                &&& final(self)@.rob == old(self)@.rob.union(ids_of(old(self)@.heap.take(k)))
            },
    {
        let ghost pre = self@;
        proof {
            assert(pre.heap.skip(0) =~= pre.heap);
            assert(ids_of(pre.heap.take(0)) =~= Set::<EventId>::empty()) by {
                assert(pre.heap.take(0).map_values(|t: Task| t.event.event_id) =~= Seq::<
                    EventId,
                >::empty());
            }
            assert(pre.rob.union(ids_of(pre.heap.take(0))) =~= pre.rob);
        }
        loop
            invariant
                self.wf(),
                self@ == old(self)@.with_heap(self@.heap).with_rob(self@.rob),
                pre == old(self)@,
                sorted_events(heap_events(pre.heap)),
                self@.heap.len() <= pre.heap.len(),
                self@.heap == pre.heap.skip(pre.heap.len() - self@.heap.len()),
                forall|i: int|
                    0 <= i < pre.heap.len() - self@.heap.len() ==> (#[trigger] pre.heap[i]).event.scheduled_time
                        == pre.cycle,
                self@.rob == pre.rob.union(
                    ids_of(pre.heap.take(pre.heap.len() - self@.heap.len())),
                ),
            decreases self.event_q.events().len(),
        {
            let ghost k = pre.heap.len() - self@.heap.len();
            proof {
                assert forall|j: int| 0 <= j < self@.heap.len() implies pre.heap[k + j] == (
                #[trigger] self@.heap[j]) by {}
            }
            match self.event_q.peek_event() {
                None => {
                    proof {
                        assert forall|i: int| 0 <= i < pre.heap.len() implies (
                        #[trigger] pre.heap[i]).event.scheduled_time >= pre.cycle by {}
                    }
                    return Ok(());
                },
                Some(head) => {
                    proof {
                        assert(head == self@.heap[0].event);
                    }
                    if head.scheduled_time > self.curr_cycle {
                        proof {
                            assert forall|i: int| 0 <= i < pre.heap.len() implies (
                            #[trigger] pre.heap[i]).event.scheduled_time >= pre.cycle by {
                                if i >= k {
                                    assert(self@.heap[i - k] == pre.heap[i]);
                                    if i > k {
                                        assert(event_le(
                                            heap_events(self@.heap)[0],
                                            heap_events(self@.heap)[i - k],
                                        ));
                                    }
                                }
                            }
                        }
                        return Ok(());
                    }
                    if head.scheduled_time < self.curr_cycle {
                        proof {
                            assert(pre.heap[k].event == head);
                            if k != 0 {
                                assert(pre.heap[0].event.scheduled_time == pre.cycle);
                                assert(event_le(
                                    heap_events(pre.heap)[0],
                                    heap_events(pre.heap)[k],
                                ));
                                assert(false);
                            }
                            assert(self@ =~= pre);
                        }
                        return Err(SimError::TimeFault);
                    }
                    let ghost cur_rob = self@.rob;
                    match self.event_q.pop_min() {
                        Some(task) => {
                            let id = task.event.event_id;
                            if !self.rob_contains(id) {
                                proof {
                                    lemma_distinct_push(self.rob@, id);
                                }
                                self.rob.push(id);
                            } else {
                                proof {
                                    assert(cur_rob.insert(id) =~= cur_rob);
                                }
                            }
                            let _delivered = try_send(&task.event_callback, task.event);
                            proof {
                                assert(self@.heap =~= pre.heap.skip(k + 1)) by {
                                    assert(self@.heap =~= pre.heap.skip(k).skip(1));
                                }
                                assert(pre.heap[k].event.scheduled_time == pre.cycle);
                                lemma_ids_of_take_succ(pre.heap, k);
                                assert(self@.rob =~= pre.rob.union(ids_of(pre.heap.take(k + 1))))
                                    by {
                                    assert(self@.rob =~= cur_rob.insert(id));
                                    assert(ids_of(pre.heap.take(k + 1)) =~= ids_of(
                                        pre.heap.take(k),
                                    ).insert(id));
                                }
                            }
                        },
                        None => {
                            proof {
                                assert(false);
                            }
                        },
                    }
                },
            }
        }
    }

    /// Whether the cycle may advance: the reorder buffer is empty and the
    /// heap holds nothing due at or before the current cycle.
    pub fn can_increase_cycle(&self) -> (r: bool)
        requires
            self.wf(),
        ensures
            r == quiescent(self@),
    {
        let rob_clear = self.rob.len() == 0;
        proof {
            if self.rob@.len() == 0 {
                assert(self.rob@.to_set() =~= Set::<EventId>::empty());
            } else {
                assert(self.rob@.to_set().contains(self.rob@[0]));
                assert(!(self@.rob =~= Set::<EventId>::empty()));
            }
        }
        if !rob_clear {
            return false;
        }
        match self.event_q.peek_event() {
            None => true,
            Some(head) => {
                proof {
                    assert(head == self@.heap[0].event);
                }
                head.scheduled_time > self.curr_cycle
            },
        }
    }

    /// Schedule one fresh clock event per subscriber, stamped with the
    /// current cycle, addressed to that subscriber's own endpoint, onto
    /// the heap.
    pub fn schedule_clock_tasks(&mut self)
        requires
            old(self).wf(),
        ensures
            final(self).wf(),
            final(self)@ == old(self)@.with_heap(final(self)@.heap).with_next_id(
                wrap_add(old(self)@.next_id, old(self)@.subs.len() as int),
            ),
            final(self)@.heap.len() == old(self)@.heap.len() + old(self)@.subs.len(),
            final(self)@.heap.to_multiset() == old(self)@.heap.to_multiset().add(
                clock_batch(old(self)@.cycle, old(self)@.next_id, old(self)@.subs).to_multiset(),
            ),
    {
        let ghost pre = self@;
        proof {
            assert(clock_batch(pre.cycle, pre.next_id, pre.subs.take(0)).to_multiset()
                =~= Multiset::<Task>::empty()) by {
                assert(clock_batch(pre.cycle, pre.next_id, pre.subs.take(0)) =~= Seq::<
                    Task,
                >::empty());
                Seq::<Task>::empty().to_multiset_ensures();
            }
            assert(pre.heap.to_multiset().add(Multiset::<Task>::empty())
                =~= pre.heap.to_multiset());
            assert(wrap_add(pre.next_id, 0) == pre.next_id) by {
                vstd::arithmetic::div_mod::lemma_small_mod(
                    pre.next_id as nat,
                    (u128::MAX + 1) as nat,
                );
            }
        }
        let n = self.clock_tick_q.len();
        let mut i: usize = 0;
        while i < n
            invariant
                self.wf(),
                pre == old(self)@,
                n == pre.subs.len(),
                i <= n,
                self@ == pre.with_heap(self@.heap).with_next_id(wrap_add(pre.next_id, i as int)),
                self@.heap.len() == pre.heap.len() + i,
                self@.heap.to_multiset() == pre.heap.to_multiset().add(
                    clock_batch(pre.cycle, pre.next_id, pre.subs.take(i as int)).to_multiset(),
                ),
            decreases n - i,
        {
            let ghost k = i as int;
            let out = clone_sender(&self.clock_tick_q[i]);
            let cycle_now = self.get_curr_cycle();
            let id = self.request_new_event_id();
            let clock_event = ClockEvent::new(cycle_now, id);
            let ghost tk = Task {
                event: SimEvent {
                    event_id: wrap_add(pre.next_id, k),
                    scheduled_time: pre.cycle,
                    payload: Payload::Clock,
                },
                event_callback: pre.subs[k],
            };
            self.enq_event(Task::new(clock_event.to_event(), out));
            proof {
                crate::types::lemma_wrap_add_inc(pre.next_id, k);
                assert(clock_batch(pre.cycle, pre.next_id, pre.subs.take(k + 1)) =~= clock_batch(
                    pre.cycle,
                    pre.next_id,
                    pre.subs.take(k),
                ).push(tk));
                clock_batch(pre.cycle, pre.next_id, pre.subs.take(k)).to_multiset_ensures();
                assert(clock_batch(pre.cycle, pre.next_id, pre.subs.take(k + 1)).to_multiset()
                    =~= clock_batch(pre.cycle, pre.next_id, pre.subs.take(k)).to_multiset().insert(
                    tk,
                ));
                assert(self@.heap.to_multiset() =~= pre.heap.to_multiset().add(
                    clock_batch(pre.cycle, pre.next_id, pre.subs.take(k + 1)).to_multiset(),
                ));
            }
            i += 1;
        }
        proof {
            assert(pre.subs.take(n as int) =~= pre.subs);
        }
    }

    /// Inject an event directly: its identifier is entered into the reorder
    /// buffer and the event is sent on the given channel without passing
    /// through the heap. Used for stimulus and bootstrap. Fails, changing
    /// nothing, when the destination has no receivers left.
    pub fn proxy_event(&mut self, event: SimEvent, event_callback: Output) -> (r: Result<
        (),
        SimError,
    >)
        requires
            old(self).wf(),
        ensures
            final(self).wf(),
            final(self)@ == old(self)@.with_rob(final(self)@.rob),
            r is Ok ==> final(self)@.rob == old(self)@.rob.insert(event.event_id),
            r is Err ==> r == Err::<(), SimError>(SimError::ChannelClosed) && final(self)@ == old(self)@,
    {
        let id = event.event_id;
        if try_send(&event_callback, event) {
            if !self.rob_contains(id) {
                proof {
                    lemma_distinct_push(self.rob@, id);
                }
                self.rob.push(id);
            } else {
                proof {
                    assert(old(self)@.rob.insert(id) =~= old(self)@.rob);
                }
            }
            Ok(())
        } else {
            Err(SimError::ChannelClosed)
        }
    }
}

/// How many drain passes a single cycle may take before the driver gives
/// up. A pass that makes no progress at all is detected much earlier; this
/// bound only makes the drain loops finite.
pub const DRAIN_FUEL: u64 = 0xffff_ffff_ffff_ffff;

impl SimManager {
    /// Settle all combinational activity at the current cycle without
    /// advancing the clock: drain acknowledgements, release due events and
    /// poll the components, over and over, until the cycle is quiescent.
    /// On success the reorder buffer is empty, nothing due remains, and no
    /// task scheduled for a later cycle has been lost; the clock never
    /// moves. A pending past-dated task is reported as the time fault,
    /// with the heap untouched.
    pub fn run_cycle_end(&mut self, dispatchers: &mut Vec<crate::sim_dispatcher::SimDispatcher>)
        -> (r: Result<(), SimError>)
        requires
            old(self).wf(),
        ensures
            final(self).wf(),
            final(self)@.cycle == old(self)@.cycle,
            final(self)@.subs == old(self)@.subs,
            has_past_due(old(self)@) ==> (r == Err::<(), SimError>(SimError::TimeFault) || r
                == Err::<(), SimError>(SimError::PhantomAck) || r == Err::<(), SimError>(
                SimError::ChannelClosed,
            )) && final(self)@.heap == old(self)@.heap,
            r is Ok ==> quiescent(final(self)@) && counts_ge(
                old(self)@.heap,
                final(self)@.heap,
                final(self)@.cycle,
            ),
    {
        let mut fuel: u64 = DRAIN_FUEL;
        loop
            invariant
                self.wf(),
                self@.cycle == old(self)@.cycle,
                self@.subs == old(self)@.subs,
                has_past_due(old(self)@) ==> self@.heap == old(self)@.heap,
                counts_ge(old(self)@.heap, self@.heap, self@.cycle),
            decreases fuel,
        {
            let pre_processed = self.event_processed;
            let pre_next = self.next_event_id;
            let pre_rob = self.rob.len();
            let pre_heap = self.event_q.len();
            self.recv_ack()?;
            let ghost before_send = self@;
            self.send_events()?;
            proof {
                if has_past_due(old(self)@) {
                    assert(has_past_due(before_send));
                    assert(false);
                }
                let k = before_send.heap.len() - self@.heap.len();
                lemma_counts_ge_skip(before_send.heap, k, self@.cycle);
                lemma_counts_ge_trans(old(self)@.heap, before_send.heap, self@.heap, self@.cycle);
            }
            if self.can_increase_cycle() {
                return Ok(());
            }
            let ghost before_poll = self@;
            crate::sim_dispatcher::poll_all(dispatchers, self);
            proof {
                broadcast use vstd::multiset::group_multiset_axioms;

                lemma_counts_ge_grow(before_poll.heap, self@.heap, self@.cycle);
                lemma_counts_ge_trans(old(self)@.heap, before_poll.heap, self@.heap, self@.cycle);
            }
            self.recv_ack()?;
            let no_progress = self.event_processed == pre_processed && self.next_event_id
                == pre_next && self.rob.len() == pre_rob && self.event_q.len() == pre_heap;
            if no_progress || fuel == 0 {
                return Err(SimError::Stalled);
            }
            fuel = fuel - 1;
        }
    }

    /// Advance the simulation by one cycle, following the cycle protocol:
    /// drain until the current cycle is quiescent, tick the clock, fan one
    /// fresh clock event out to every subscriber, then drain again until
    /// the new cycle is quiescent or the termination vote empties (the
    /// safety valve: once every primary component has voted to end, there
    /// may be nobody left to acknowledge). On every return the clock has
    /// moved at most one cycle forward, the subscriber list is untouched,
    /// and a pending past-dated task is reported as the time fault; on
    /// success no task scheduled beyond the new cycle has been lost.
    pub fn run_cycle(&mut self, dispatchers: &mut Vec<crate::sim_dispatcher::SimDispatcher>)
        -> (r: Result<(), SimError>)
        requires
            old(self).wf(),
        ensures
            final(self).wf(),
            final(self)@.subs == old(self)@.subs,
            final(self)@.cycle == old(self)@.cycle || final(self)@.cycle == wrap_inc(
                old(self)@.cycle,
            ),
            has_past_due(old(self)@) ==> (r == Err::<(), SimError>(SimError::TimeFault) || r
                == Err::<(), SimError>(SimError::PhantomAck) || r == Err::<(), SimError>(
                SimError::ChannelClosed,
            )) && final(self)@.heap == old(self)@.heap && final(self)@.cycle == old(self)@.cycle,
            r is Ok ==> final(self)@.cycle == wrap_inc(old(self)@.cycle) && (quiescent(
                final(self)@,
            ) || votes_empty(final(self)@)),
            r is Ok && old(self)@.cycle < u128::MAX ==> counts_ge(
                old(self)@.heap,
                final(self)@.heap,
                final(self)@.cycle,
            ),
    {
        let mut fuel: u64 = DRAIN_FUEL;
        loop
            invariant
                self.wf(),
                self@.cycle == old(self)@.cycle,
                self@.subs == old(self)@.subs,
                has_past_due(old(self)@) ==> self@.heap == old(self)@.heap,
                counts_ge(old(self)@.heap, self@.heap, self@.cycle),
            decreases fuel,
        {
            let pre_processed = self.event_processed;
            let pre_next = self.next_event_id;
            let pre_rob = self.rob.len();
            let pre_heap = self.event_q.len();
            self.recv_ack()?;
            let ghost before_send = self@;
            self.send_events()?;
            proof {
                if has_past_due(old(self)@) {
                    assert(has_past_due(before_send));
                    assert(false);
                }
                let k = before_send.heap.len() - self@.heap.len();
                lemma_counts_ge_skip(before_send.heap, k, self@.cycle);
                lemma_counts_ge_trans(old(self)@.heap, before_send.heap, self@.heap, self@.cycle);
            }
            if self.can_increase_cycle() {
                self.increment_cycle();
                proof {
                    if old(self)@.cycle < u128::MAX {
                        lemma_counts_ge_later(
                            old(self)@.heap,
                            self@.heap,
                            old(self)@.cycle,
                            self@.cycle,
                        );
                    }
                }
                let ghost before_fanout = self@;
                self.schedule_clock_tasks();
                proof {
                    broadcast use vstd::multiset::group_multiset_axioms;

                    assert(before_fanout.heap.to_multiset().subset_of(
                        self@.heap.to_multiset(),
                    ));
                    if old(self)@.cycle < u128::MAX {
                        lemma_counts_ge_grow(before_fanout.heap, self@.heap, self@.cycle);
                        lemma_counts_ge_trans(
                            old(self)@.heap,
                            before_fanout.heap,
                            self@.heap,
                            self@.cycle,
                        );
                    }
                }
                let mut settle_fuel: u64 = DRAIN_FUEL;
                loop
                    invariant
                        self.wf(),
                        self@.cycle == wrap_inc(old(self)@.cycle),
                        self@.subs == old(self)@.subs,
                        !has_past_due(old(self)@),
                        old(self)@.cycle < u128::MAX ==> counts_ge(
                            old(self)@.heap,
                            self@.heap,
                            self@.cycle,
                        ),
                    decreases settle_fuel,
                {
                    let s_processed = self.event_processed;
                    let s_next = self.next_event_id;
                    let s_rob = self.rob.len();
                    let s_heap = self.event_q.len();
                    self.recv_ack()?;
                    let ghost inner_send = self@;
                    self.send_events()?;
                    proof {
                        if old(self)@.cycle < u128::MAX {
                            let k = inner_send.heap.len() - self@.heap.len();
                            lemma_counts_ge_skip(inner_send.heap, k, self@.cycle);
                            lemma_counts_ge_trans(
                                old(self)@.heap,
                                inner_send.heap,
                                self@.heap,
                                self@.cycle,
                            );
                        }
                    }
                    if self.can_increase_cycle() {
                        return Ok(());
                    }
                    if self.sim_can_end() {
                        return Ok(());
                    }
                    let ghost inner_poll = self@;
                    crate::sim_dispatcher::poll_all(dispatchers, self);
                    proof {
                        broadcast use vstd::multiset::group_multiset_axioms;

                        if old(self)@.cycle < u128::MAX {
                            lemma_counts_ge_grow(inner_poll.heap, self@.heap, self@.cycle);
                            lemma_counts_ge_trans(
                                old(self)@.heap,
                                inner_poll.heap,
                                self@.heap,
                                self@.cycle,
                            );
                        }
                    }
                    self.recv_ack()?;
                    let no_progress = self.event_processed == s_processed && self.next_event_id
                        == s_next && self.rob.len() == s_rob && self.event_q.len() == s_heap;
                    if no_progress || settle_fuel == 0 {
                        return Err(SimError::Stalled);
                    }
                    settle_fuel = settle_fuel - 1;
                }
            }
            let ghost before_poll = self@;
            crate::sim_dispatcher::poll_all(dispatchers, self);
            proof {
                broadcast use vstd::multiset::group_multiset_axioms;

                lemma_counts_ge_grow(before_poll.heap, self@.heap, self@.cycle);
                lemma_counts_ge_trans(old(self)@.heap, before_poll.heap, self@.heap, self@.cycle);
            }
            self.recv_ack()?;
            let no_progress = self.event_processed == pre_processed && self.next_event_id
                == pre_next && self.rob.len() == pre_rob && self.event_q.len() == pre_heap;
            if no_progress || fuel == 0 {
                return Err(SimError::Stalled);
            }
            fuel = fuel - 1;
        }
    }

    /// Run cycles until every primary component has voted that the
    /// simulation may end. With no vote registered at entry, the manager
    /// returns at once, untouched: a run with no components completes at
    /// cycle zero having processed nothing.
    pub fn run(&mut self, dispatchers: &mut Vec<crate::sim_dispatcher::SimDispatcher>) -> (r:
        Result<(), SimError>)
        requires
            old(self).wf(),
        ensures
            final(self).wf(),
            final(self)@.subs == old(self)@.subs,
            r is Ok ==> votes_empty(final(self)@),
            votes_empty(old(self)@) ==> r is Ok && final(self)@ == old(self)@,
    {
        let mut fuel: u64 = DRAIN_FUEL;
        while !self.sim_can_end()
            invariant
                self.wf(),
                self@.subs == old(self)@.subs,
                votes_empty(old(self)@) ==> self@ == old(self)@,
            decreases fuel,
        {
            self.run_cycle(dispatchers)?;
            if fuel == 0 {
                return Err(SimError::Stalled);
            }
            fuel = fuel - 1;
        }
        Ok(())
    }
}

/// Schedule an event for delivery on the given channel: the caller's way of
/// emitting an output. The manager's heap gains exactly this event, bound
/// to exactly this destination.
pub fn send_event(mgr: &mut SimManager, output: &Output, event: SimEvent)
    requires
        old(mgr).wf(),
    ensures
        final(mgr).wf(),
        final(mgr)@ == old(mgr)@.with_heap(final(mgr)@.heap),
        final(mgr)@.heap.to_multiset() == old(mgr)@.heap.to_multiset().insert(
            task_to(*output, event),
        ),
        final(mgr)@.heap.len() == old(mgr)@.heap.len() + 1,
{
    mgr.enq_event(Task::new(event, clone_sender(output)));
}

/// Identifiers minted later strictly exceed identifiers minted earlier:
/// a minted identifier equals the counter's value, and each minting leaves
/// the counter strictly larger, as long as the 128-bit identifier space of
/// the run is not exhausted.
pub proof fn lemma_event_ids_strictly_increase(
    s0: SimManagerView,
    r1: EventId,
    s1: SimManagerView,
    s2: SimManagerView,
    r2: EventId,
    s3: SimManagerView,
)
    requires
        mint_step(s0, r1, s1),
        mint_step(s2, r2, s3),
        s0.next_id < u128::MAX,
        s1.next_id <= s2.next_id,
    ensures
        r2 > r1,
        r2 != r1,
{
}

/// Find the position of an identifier in a vector of identifiers.
fn index_of_id(v: &Vec<u128>, id: u128) -> (r: Option<usize>)
    ensures
        match r {
            Some(pos) => pos < v@.len() && v@[pos as int] == id,
            None => !v@.contains(id),
        },
{
    let mut i: usize = 0;
    while i < v.len()
        invariant
            i <= v@.len(),
            forall|j: int| 0 <= j < i ==> v@[j] != id,
        decreases v@.len() - i,
    {
        if v[i] == id {
            return Some(i);
        }
        i += 1;
    }
    None
}

/// Whether a vector of identifiers contains the given one.
fn contains_id(v: &Vec<u128>, id: u128) -> (r: bool)
    ensures
        r == v@.to_set().contains(id),
{
    let ghost s = v@;
    let r = match index_of_id(v, id) {
        Some(_) => true,
        None => false,
    };
    proof {
        if r {
            assert(s.contains(id));
        }
    }
    r
}

/// Appending an element that is not present keeps a sequence
/// duplicate-free, and adds exactly that element to its set of contents.
proof fn lemma_distinct_push<A>(s: Seq<A>, x: A)
    requires
        s.no_duplicates(),
        !s.contains(x),
    ensures
        s.push(x).no_duplicates(),
        s.push(x).to_set() == s.to_set().insert(x),
{
    assert forall|a: int, b: int| 0 <= a < b < s.push(x).len() implies s.push(x)[a] != s.push(
        x,
    )[b] by {
        if b == s.len() {
            assert(s[a] == s.push(x)[a]);
        }
    }
    s.lemma_push_to_set_commute(x);
    assert(s.push(x).to_set() =~= s.to_set().insert(x));
}

/// Removing one position from a duplicate-free sequence removes exactly
/// that element from its set of contents, and keeps it duplicate-free.
proof fn lemma_distinct_seq_remove_to_set(s: Seq<u128>, i: int)
    requires
        0 <= i < s.len(),
        s.no_duplicates(),
    ensures
        s.remove(i).no_duplicates(),
        s.remove(i).to_set() == s.to_set().remove(s[i]),
{
    s.remove_ensures(i);
    let t = s.remove(i);
    assert forall|a: int, b: int| 0 <= a < b < t.len() implies t[a] != t[b] by {
        let a2 = if a < i {
            a
        } else {
            a + 1
        };
        let b2 = if b < i {
            b
        } else {
            b + 1
        };
        assert(t[a] == s[a2] && t[b] == s[b2]);
    }
    assert(t.to_set() =~= s.to_set().remove(s[i])) by {
        assert forall|e: u128| t.to_set().contains(e) implies s.to_set().remove(s[i]).contains(
            e,
        ) by {
            let j = choose|j: int| 0 <= j < t.len() && t[j] == e;
            let j2 = if j < i {
                j
            } else {
                j + 1
            };
            assert(s[j2] == e);
            assert(j2 != i);
        }
        assert forall|e: u128| s.to_set().remove(s[i]).contains(e) implies t.to_set().contains(
            e,
        ) by {
            let j = choose|j: int| 0 <= j < s.len() && s[j] == e;
            assert(j != i);
            let j2 = if j < i {
                j
            } else {
                j - 1
            };
            assert(t[j2] == e);
        }
    }
}

/// The identifiers of one more released task: the set grows by the
/// identifier at the boundary.
proof fn lemma_ids_of_take_succ(s: Seq<Task>, k: int)
    requires
        0 <= k < s.len(),
    ensures
        ids_of(s.take(k + 1)) == ids_of(s.take(k)).insert(s[k].event.event_id),
{
    let f = |t: Task| t.event.event_id;
    assert(s.take(k + 1) =~= s.take(k).push(s[k]));
    s.take(k).lemma_push_map_commute(f, s[k]);
    s.take(k).map_values(f).lemma_push_to_set_commute(f(s[k]));
    assert(ids_of(s.take(k + 1)) =~= ids_of(s.take(k)).insert(s[k].event.event_id));
}

} // verus!
