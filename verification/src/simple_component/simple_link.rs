//! A link that forwards each packet it receives, in the same cycle, to its
//! output: a wire with combinational (zero-cycle) latency.

use crate::channel::{try_recv, try_send, ChannelPoll};
use crate::component::{
    lemma_poll_transition_emit, lemma_poll_transition_refl, lemma_poll_transition_trans,
    poll_transition, Component,
};
use crate::event::{get_inner, Event, Payload, SimEvent};
use crate::sim_manager::{send_event, SimManager, SimManagerView};
use crate::task::task_to;
use crate::simple_component::simple_event::SimpleEvent;
use crate::types::{ComponentId, EventId, Input, Output};
use crate::types::wrap_inc;
use vstd::prelude::*;

verus! {

/// One input port carrying `(packet id, is-last)` pairs, one output port.
pub struct SimpleLink {
    pub component_id: ComponentId,
    pub input_receiver: Input,
    pub output: Output,
    pub ack_sender: crossbeam_channel::Sender<EventId>,
    pub input: (u128, bool),
    pub input_old: (u128, bool),
}

impl SimpleLink {
    pub fn new(
        component_id: ComponentId,
        input_receiver: Input,
        output: Output,
        ack_sender: crossbeam_channel::Sender<EventId>,
    ) -> (r: SimpleLink)
        ensures
            r.component_id == component_id,
            r.input == (0u128, false),
            r.input_old == (0u128, false),
    {
        SimpleLink {
            component_id,
            input_receiver,
            output,
            ack_sender,
            input: (0, false),
            input_old: (0, false),
        }
    }

    pub fn init_impl(&mut self, mgr: &mut SimManager)
        requires
            old(mgr).wf(),
        ensures
            final(mgr).wf(),
            final(mgr)@ == old(mgr)@,
            *final(self) == *old(self),
    {
    }

    pub fn reset_impl(&mut self)
        ensures
            final(self).input == (0u128, false),
            final(self).component_id == old(self).component_id,
    {
        self.input = (0, false);
    }

    pub fn poll_impl(&mut self)
        ensures
            *final(self) == *old(self),
    {
    }

    /// Forward the current input as a fresh packet event scheduled at the
    /// current cycle.
    pub fn on_comb(&mut self, mgr: &mut SimManager)
        requires
            old(mgr).wf(),
        ensures
            final(mgr).wf(),
            *final(self) == *old(self),
            final(mgr)@ == old(mgr)@.with_heap(final(mgr)@.heap).with_next_id(
                wrap_inc(old(mgr)@.next_id),
            ),
            final(mgr)@.heap.to_multiset() == old(mgr)@.heap.to_multiset().insert(
                task_to(
                    old(self).output,
                    SimEvent {
                        event_id: old(mgr)@.next_id,
                        scheduled_time: old(mgr)@.cycle,
                        payload: Payload::Packet(old(self).input.0, old(self).input.1),
                    },
                ),
            ),
    {
        let t = mgr.get_curr_cycle();
        let id = mgr.request_new_event_id();
        let event = SimpleEvent::new(t, self.input.0, self.input.1, id);
        send_event(mgr, &self.output, event.to_event());
    }

    /// Take one event received on the input port: decode the packet into
    /// the port slot, forward it exactly when the value changed, sync the
    /// previous-value slot, and acknowledge.
    pub fn handle_input(&mut self, mgr: &mut SimManager, event: SimEvent)
        requires
            old(mgr).wf(),
        ensures
            final(mgr).wf(),
            poll_transition(old(mgr)@, final(mgr)@),
            polled_simple_link_input(
                *old(self),
                *final(self),
                old(mgr)@,
                final(mgr)@,
                Some(event),
            ),
    {
        match get_inner(&event) {
            Payload::Packet(packet_id, is_last) => {
                self.input = (packet_id, is_last);
            },
            _ => {},
        }
        if self.input.0 != self.input_old.0 || self.input.1 != self.input_old.1 {
            let ghost pre_view = mgr@;
            let ghost sent = self.input;
            self.on_comb(mgr);
            proof {
                lemma_poll_transition_emit(
                    pre_view,
                    mgr@,
                    task_to(
                        self.output,
                        SimEvent {
                            event_id: pre_view.next_id,
                            scheduled_time: pre_view.cycle,
                            payload: Payload::Packet(sent.0, sent.1),
                        },
                    ),
                );
            }
        } else {
            proof {
                lemma_poll_transition_refl(mgr@);
            }
        }
        self.input_old = self.input;
        let _ = try_send(&self.ack_sender, event.event_id);
    }
}

/// The combinational callback's exact effect on the manager: the current
/// input forwarded as one fresh packet event at the current cycle, bound
/// to the link's output port.
pub open spec fn simple_link_emission(c: SimpleLink, pre: SimManagerView, post: SimManagerView) -> bool {
    &&& post == pre.with_heap(post.heap).with_next_id(wrap_inc(pre.next_id))
    &&& post.heap.to_multiset() == pre.heap.to_multiset().insert(
        task_to(
            c.output,
            SimEvent {
                event_id: pre.next_id,
                scheduled_time: pre.cycle,
                payload: Payload::Packet(c.input.0, c.input.1),
            },
        ),
    )
}

/// What taking one event on the input port leaves behind: with no event,
/// nothing; with one, the decoded packet in the port slot (any other
/// payload kind leaves the slot as it was), the previous-value slot
/// synced, and the forwarding emission exactly when the value changed.
pub open spec fn polled_simple_link_input(
    pre: SimpleLink,
    post: SimpleLink,
    pre_m: SimManagerView,
    post_m: SimManagerView,
    polled: Option<SimEvent>,
) -> bool {
    match polled {
        None => post == pre && post_m == pre_m,
        Some(e) => {
            &&& post == (SimpleLink { input: post.input, input_old: post.input, ..pre })
            &&& post.input == (match e.payload {
                Payload::Packet(p, l) => (p, l),
                _ => pre.input,
            })
            &&& (post.input != pre.input_old ==> simple_link_emission(post, pre_m, post_m))
            &&& (post.input == pre.input_old ==> post_m == pre_m)
        },
    }
}

impl Component for SimpleLink {
    fn get_component_id(&self) -> ComponentId {
        self.component_id
    }

    fn init(&mut self, mgr: &mut SimManager)
        ensures
            final(mgr)@ == old(mgr)@,
    {
        self.init_impl(mgr);
    }

    fn reset(&mut self) {
        self.reset_impl();
    }

    fn poll_recv(&mut self, mgr: &mut SimManager)
        ensures
            exists|po_input: Option<SimEvent>|
                #[trigger] polled_simple_link_input(
                    *old(self),
                    *final(self),
                    old(mgr)@,
                    final(mgr)@,
                    po_input,
                ),
    {
        self.poll_impl();
        let ghost w0m = mgr@;
        let ghost mut po_input: Option<SimEvent> = None;
        match try_recv(&self.input_receiver) {
            ChannelPoll::Item(event) => {
                proof {
                    po_input = Some(event);
                }
                self.handle_input(mgr, event);
            },
            _ => {},
        }
        proof {
            lemma_poll_transition_refl(mgr@);
            lemma_poll_transition_trans(old(mgr)@, w0m, mgr@);
            assert(polled_simple_link_input(*old(self), *self, w0m, mgr@, po_input));
        }
    }
}

} // verus!
