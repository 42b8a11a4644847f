//! A sink that consumes packets and withdraws its do-not-end vote when the
//! last packet of the stream arrives.

use crate::channel::{try_recv, try_send, ChannelPoll};
use crate::component::{
    lemma_poll_transition_refl, lemma_poll_transition_trans, poll_transition, Component,
};
use crate::event::{get_inner, Payload, SimEvent};
use crate::sim_manager::{SimManager, SimManagerView};
use crate::types::{ComponentId, EventId, Input};
use vstd::prelude::*;

verus! {

/// One input port carrying `(packet id, is-last)` pairs; no outputs. A
/// primary component: it votes "do not end" at `init` and withdraws the
/// vote on seeing the end of the stream.
pub struct SimpleReceiver {
    pub component_id: ComponentId,
    pub input_receiver: Input,
    pub ack_sender: crossbeam_channel::Sender<EventId>,
    pub input: (u128, bool),
    pub input_old: (u128, bool),
}

impl SimpleReceiver {
    pub fn new(
        component_id: ComponentId,
        input_receiver: Input,
        ack_sender: crossbeam_channel::Sender<EventId>,
    ) -> (r: SimpleReceiver)
        ensures
            r.component_id == component_id,
            r.input == (0u128, false),
            r.input_old == (0u128, false),
    {
        SimpleReceiver {
            component_id,
            input_receiver,
            ack_sender,
            input: (0, false),
            input_old: (0, false),
        }
    }

    pub fn init_impl(&mut self, mgr: &mut SimManager)
        requires
            old(mgr).wf(),
        ensures
            final(mgr).wf(),
            final(mgr)@ == old(mgr)@.with_votes(
                old(mgr)@.votes.insert(old(self).component_id),
            ),
            *final(self) == *old(self),
    {
        mgr.register_do_not_end(self.component_id);
    }

    pub fn reset_impl(&mut self)
        ensures
            final(self).input == (0u128, false),
            final(self).component_id == old(self).component_id,
    {
        self.input = (0, false);
    }

    pub fn poll_impl(&mut self)
        ensures
            *final(self) == *old(self),
    {
    }

    /// Withdraw the do-not-end vote once the end of the stream is seen.
    pub fn on_comb(&mut self, mgr: &mut SimManager)
        requires
            old(mgr).wf(),
        ensures
            final(mgr).wf(),
            *final(self) == *old(self),
            old(self).input.1 ==> final(mgr)@ == old(mgr)@.with_votes(
                old(mgr)@.votes.remove(old(self).component_id),
            ),
            !old(self).input.1 ==> final(mgr)@ == old(mgr)@,
    {
        if self.input.1 {
            mgr.register_can_end(self.component_id);
        }
    }

    /// Take one event received on the input port: decode the packet into
    /// the port slot, fire the combinational callback exactly when the
    /// value changed, sync the previous-value slot, and acknowledge.
    pub fn handle_input(&mut self, mgr: &mut SimManager, event: SimEvent)
        requires
            old(mgr).wf(),
        ensures
            final(mgr).wf(),
            poll_transition(old(mgr)@, final(mgr)@),
            polled_simple_receiver_input(
                *old(self),
                *final(self),
                old(mgr)@,
                final(mgr)@,
                Some(event),
            ),
    {
        match get_inner(&event) {
            Payload::Packet(packet_id, is_last) => {
                self.input = (packet_id, is_last);
            },
            _ => {},
        }
        if self.input.0 != self.input_old.0 || self.input.1 != self.input_old.1 {
            self.on_comb(mgr);
        }
        proof {
            lemma_poll_transition_refl(old(mgr)@);
        }
        self.input_old = self.input;
        let _ = try_send(&self.ack_sender, event.event_id);
    }
}

/// The combinational callback's exact effect on the manager: on seeing
/// the end of the stream the do-not-end vote is withdrawn; otherwise
/// nothing changes.
pub open spec fn simple_receiver_comb(
    c: SimpleReceiver,
    pre: SimManagerView,
    post: SimManagerView,
) -> bool {
    if c.input.1 {
        post == pre.with_votes(pre.votes.remove(c.component_id))
    } else {
        post == pre
    }
}

/// What taking one event on the input port leaves behind: the decoded
/// packet in the port slot, the previous-value slot synced, and -- when
/// the observed value changed -- the combinational callback's vote effect.
pub open spec fn polled_simple_receiver_input(
    pre: SimpleReceiver,
    post: SimpleReceiver,
    pre_m: SimManagerView,
    post_m: SimManagerView,
    polled: Option<SimEvent>,
) -> bool {
    match polled {
        None => post == pre && post_m == pre_m,
        Some(e) => {
            &&& post == (SimpleReceiver { input: post.input, input_old: post.input, ..pre })
            &&& post.input == (match e.payload {
                Payload::Packet(p, l) => (p, l),
                _ => pre.input,
            })
            &&& (post.input != pre.input_old ==> simple_receiver_comb(post, pre_m, post_m))
            &&& (post.input == pre.input_old ==> post_m == pre_m)
        },
    }
}

impl Component for SimpleReceiver {
    fn get_component_id(&self) -> ComponentId {
        self.component_id
    }

    fn init(&mut self, mgr: &mut SimManager)
        ensures
            final(mgr)@ == old(mgr)@.with_votes(old(mgr)@.votes.insert(old(self).component_id)),
    {
        self.init_impl(mgr);
    }

    fn reset(&mut self) {
        self.reset_impl();
    }

    fn poll_recv(&mut self, mgr: &mut SimManager)
        ensures
            exists|po_input: Option<SimEvent>|
                #[trigger] polled_simple_receiver_input(
                    *old(self),
                    *final(self),
                    old(mgr)@,
                    final(mgr)@,
                    po_input,
                ),
    {
        self.poll_impl();
        let ghost w0m = mgr@;
        let ghost mut po_input: Option<SimEvent> = None;
        match try_recv(&self.input_receiver) {
            ChannelPoll::Item(event) => {
                proof {
                    po_input = Some(event);
                }
                self.handle_input(mgr, event);
            },
            _ => {},
        }
        proof {
            lemma_poll_transition_refl(mgr@);
            lemma_poll_transition_trans(old(mgr)@, w0m, mgr@);
            assert(polled_simple_receiver_input(*old(self), *self, w0m, mgr@, po_input));
        }
    }
}

} // verus!
