//! A clocked source that also listens: it emits one packet per tick,
//! scheduled one cycle ahead, and observes what arrives on its input port.
//! Wiring its output back to its input closes the loop.

use crate::channel::{new_channel, try_recv, try_send, ChannelPoll};
use crate::component::{
    lemma_poll_transition_emit, lemma_poll_transition_refl, lemma_poll_transition_trans,
    poll_transition, Component,
};
use crate::event::{get_inner, Event, Payload, SimEvent};
use crate::sim_manager::{send_event, SimManager, SimManagerView};
use crate::task::task_to;
use crate::simple_component::simple_event::SimpleEvent;
use crate::types::{
    cycle_add, cycle_later, wrap_inc, ComponentId, EventId, Input, Output,
};
use vstd::prelude::*;

verus! {

/// A primary, clocked component with one input and one output port.
pub struct SimpleLoopback {
    pub component_id: ComponentId,
    pub num_packets: u128,
    pub input_receiver: Input,
    pub input: (u128, bool),
    pub input_old: (u128, bool),
    pub output: Output,
    pub sent_count: u128,
    pub clock_sender: Output,
    pub clock_receiver: Input,
    pub ack_sender: crossbeam_channel::Sender<EventId>,
}

impl SimpleLoopback {
    pub fn new(
        component_id: ComponentId,
        num_packets: u128,
        input_receiver: Input,
        output: Output,
        ack_sender: crossbeam_channel::Sender<EventId>,
    ) -> (r: SimpleLoopback)
        ensures
            r.component_id == component_id,
            r.num_packets == num_packets,
            r.sent_count == 0,
            r.input == (0u128, false),
    {
        let clock_tick_channel = new_channel();
        SimpleLoopback {
            component_id,
            num_packets,
            input_receiver,
            input: (0, false),
            input_old: (0, false),
            output,
            sent_count: 0,
            clock_sender: clock_tick_channel.0,
            clock_receiver: clock_tick_channel.1,
            ack_sender,
        }
    }

    pub fn init_impl(&mut self, mgr: &mut SimManager)
        requires
            old(mgr).wf(),
        ensures
            final(mgr).wf(),
            final(mgr)@ == old(mgr)@.with_votes(
                old(mgr)@.votes.insert(old(self).component_id),
            ),
            *final(self) == *old(self),
    {
        mgr.register_do_not_end(self.component_id);
    }

    pub fn reset_impl(&mut self)
        ensures
            final(self).input == (0u128, false),
            final(self).sent_count == 0,
            final(self).component_id == old(self).component_id,
            final(self).num_packets == old(self).num_packets,
    {
        self.input = (0, false);
        self.sent_count = 0;
    }

    pub fn poll_impl(&mut self)
        ensures
            *final(self) == *old(self),
    {
    }

    /// On a tick: emit the next packet one cycle ahead while the stream
    /// lasts, else withdraw the do-not-end vote; always advance the count.
    pub fn on_clock(&mut self, mgr: &mut SimManager)
        requires
            old(mgr).wf(),
        ensures
            final(mgr).wf(),
            *final(self) == (SimpleLoopback {
                sent_count: wrap_inc(old(self).sent_count),
                ..*old(self)
            }),
            old(self).sent_count < old(self).num_packets ==> {
                &&& final(mgr)@ == old(mgr)@.with_heap(final(mgr)@.heap).with_next_id(
                    wrap_inc(old(mgr)@.next_id),
                )
                &&& final(mgr)@.heap.to_multiset() == old(mgr)@.heap.to_multiset().insert(
                    task_to(
                        old(self).output,
                        SimEvent {
                            event_id: old(mgr)@.next_id,
                            scheduled_time: cycle_later(old(mgr)@.cycle, 1),
                            payload: Payload::Packet(
                                old(self).sent_count,
                                old(self).sent_count == old(self).num_packets - 1,
                            ),
                        },
                    ),
                )
            },
            old(self).sent_count >= old(self).num_packets ==> final(mgr)@ == old(mgr)@.with_votes(old(mgr)@.votes.remove(old(self).component_id)),
    {
        let recv_time = mgr.get_curr_cycle();
        if self.sent_count < self.num_packets {
            let is_last = self.sent_count == self.num_packets - 1;
            let event = SimpleEvent::new(
                cycle_add(recv_time, 1),
                self.sent_count,
                is_last,
                mgr.request_new_event_id(),
            );
            send_event(mgr, &self.output, event.to_event());
        } else {
            mgr.register_can_end(self.component_id);
        }
        self.sent_count = crate::types::counter_inc(self.sent_count);
    }

    /// The loopback only observes its input; arrival alone has no further
    /// combinational effect.
    pub fn on_comb(&mut self, mgr: &mut SimManager)
        requires
            old(mgr).wf(),
        ensures
            final(mgr).wf(),
            final(mgr)@ == old(mgr)@,
            *final(self) == *old(self),
    {
    }

    /// Take one clock event: run the clocked callback, then the
    /// combinational callback, then acknowledge.
    pub fn handle_clock(&mut self, mgr: &mut SimManager, event: SimEvent)
        requires
            old(mgr).wf(),
        ensures
            final(mgr).wf(),
            poll_transition(old(mgr)@, final(mgr)@),
            polled_simple_loopback_clock(
                *old(self),
                *final(self),
                old(mgr)@,
                final(mgr)@,
                Some(event),
            ),
    {
        let ghost pre_view = mgr@;
        let ghost count = self.sent_count;
        self.on_clock(mgr);
        proof {
            if count < self.num_packets {
                lemma_poll_transition_emit(
                    pre_view,
                    mgr@,
                    task_to(
                        self.output,
                        SimEvent {
                            event_id: pre_view.next_id,
                            scheduled_time: cycle_later(pre_view.cycle, 1),
                            payload: Payload::Packet(
                                count,
                                count == self.num_packets - 1,
                            ),
                        },
                    ),
                );
            } else {
                lemma_poll_transition_refl(pre_view);
            }
        }
        self.on_comb(mgr);
        let _ = try_send(&self.ack_sender, event.event_id);
    }

    /// Take one event received on the input port: decode the packet into
    /// the port slot, observe it, sync the previous-value slot, and
    /// acknowledge.
    pub fn handle_input(&mut self, mgr: &mut SimManager, event: SimEvent)
        requires
            old(mgr).wf(),
        ensures
            final(mgr).wf(),
            poll_transition(old(mgr)@, final(mgr)@),
            polled_simple_loopback_input(
                *old(self),
                *final(self),
                old(mgr)@,
                final(mgr)@,
                Some(event),
            ),
    {
        match get_inner(&event) {
            Payload::Packet(packet_id, is_last) => {
                self.input = (packet_id, is_last);
            },
            _ => {},
        }
        if self.input.0 != self.input_old.0 || self.input.1 != self.input_old.1 {
            self.on_comb(mgr);
        }
        proof {
            lemma_poll_transition_refl(old(mgr)@);
        }
        self.input_old = self.input;
        let _ = try_send(&self.ack_sender, event.event_id);
    }
}

/// What taking one clock event leaves behind: while the stream lasts,
/// the next packet is scheduled one cycle ahead on the output port; once
/// it is exhausted, the do-not-end vote is withdrawn; the sent counter
/// always advances.
pub open spec fn polled_simple_loopback_clock(
    pre: SimpleLoopback,
    post: SimpleLoopback,
    pre_m: SimManagerView,
    post_m: SimManagerView,
    polled: Option<SimEvent>,
) -> bool {
    match polled {
        None => post == pre && post_m == pre_m,
        Some(e) => {
            &&& post == (SimpleLoopback { sent_count: wrap_inc(pre.sent_count), ..pre })
            &&& (pre.sent_count < pre.num_packets ==> post_m == pre_m.with_heap(
                post_m.heap,
            ).with_next_id(wrap_inc(pre_m.next_id)) && post_m.heap.to_multiset()
                == pre_m.heap.to_multiset().insert(
                task_to(
                    pre.output,
                    SimEvent {
                        event_id: pre_m.next_id,
                        scheduled_time: cycle_later(pre_m.cycle, 1),
                        payload: Payload::Packet(
                            pre.sent_count,
                            pre.sent_count == pre.num_packets - 1,
                        ),
                    },
                ),
            ))
            &&& (pre.sent_count >= pre.num_packets ==> post_m == pre_m.with_votes(
                pre_m.votes.remove(pre.component_id),
            ))
        },
    }
}

/// What taking one event on the input port leaves behind: the decoded
/// packet in the port slot, the previous-value slot synced; observation
/// alone has no further effect on the manager.
pub open spec fn polled_simple_loopback_input(
    pre: SimpleLoopback,
    post: SimpleLoopback,
    pre_m: SimManagerView,
    post_m: SimManagerView,
    polled: Option<SimEvent>,
) -> bool {
    match polled {
        None => post == pre && post_m == pre_m,
        Some(e) => {
            &&& post == (SimpleLoopback { input: post.input, input_old: post.input, ..pre })
            &&& post.input == (match e.payload {
                Payload::Packet(p, l) => (p, l),
                _ => pre.input,
            })
            &&& post_m == pre_m
        },
    }
}

impl Component for SimpleLoopback {
    fn get_component_id(&self) -> ComponentId {
        self.component_id
    }

    fn init(&mut self, mgr: &mut SimManager)
        ensures
            final(mgr)@ == old(mgr)@.with_votes(old(mgr)@.votes.insert(old(self).component_id)).with_subs(
                old(mgr)@.subs.push(old(self).clock_sender),
            ),
    {
        self.init_impl(mgr);
        mgr.register_clock_tick(crate::channel::clone_sender(&self.clock_sender));
    }

    fn reset(&mut self) {
        self.reset_impl();
    }

    fn poll_recv(&mut self, mgr: &mut SimManager)
        ensures
            exists|
                po_clock: Option<SimEvent>,
                po_input: Option<SimEvent>,
                cs1: SimpleLoopback,
                mv1: SimManagerView,
            |
                #![trigger polled_simple_loopback_clock(*old(self), cs1, old(mgr)@, mv1, po_clock), polled_simple_loopback_input(cs1, *final(self), mv1, final(mgr)@, po_input)]
                {
                    &&& polled_simple_loopback_clock(*old(self), cs1, old(mgr)@, mv1, po_clock)
                    &&& polled_simple_loopback_input(cs1, *final(self), mv1, final(mgr)@, po_input)
                },
    {
        self.poll_impl();
        let ghost w0m = mgr@;
        let ghost mut po_clock: Option<SimEvent> = None;
        match try_recv(&self.clock_receiver) {
            ChannelPoll::Item(event) => {
                proof {
                    po_clock = Some(event);
                }
                self.handle_clock(mgr, event);
            },
            _ => {},
        }
        proof {
            lemma_poll_transition_refl(mgr@);
            lemma_poll_transition_trans(old(mgr)@, w0m, mgr@);
        }
        let ghost w1s = *self;
        let ghost w1m = mgr@;
        let ghost mut po_input: Option<SimEvent> = None;
        match try_recv(&self.input_receiver) {
            ChannelPoll::Item(event) => {
                proof {
                    po_input = Some(event);
                }
                self.handle_input(mgr, event);
            },
            _ => {},
        }
        proof {
            lemma_poll_transition_refl(mgr@);
            lemma_poll_transition_trans(old(mgr)@, w1m, mgr@);
            assert(polled_simple_loopback_clock(*old(self), w1s, w0m, w1m, po_clock));
            assert(polled_simple_loopback_input(w1s, *self, w1m, mgr@, po_input));
        }
    }
}

} // verus!
