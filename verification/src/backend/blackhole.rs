//! A sink that swallows words: it records the last value received and
//! does nothing else. Used to terminate otherwise-unconnected outputs and
//! to observe them.

use crate::channel::{try_recv, try_send, ChannelPoll};
use crate::component::{
    lemma_poll_transition_refl, lemma_poll_transition_trans, poll_transition, Component,
};
use crate::event::{get_inner, Payload, SimEvent};
use crate::sim_manager::{SimManager, SimManagerView};
use crate::types::{ComponentId, EventId, Input};
use crate::word::{unknown_word, Word};
use vstd::prelude::*;

verus! {

/// A word sink; its only observable is the last value received.
pub struct WordBlackhole {
    pub component_id: ComponentId,
    pub ack_sender: crossbeam_channel::Sender<EventId>,
    pub input_receiver: Input,
    pub input: Word,
    pub input_old: Word,
}

impl WordBlackhole {
    pub fn new(
        component_id: ComponentId,
        input_receiver: Input,
        ack_sender: crossbeam_channel::Sender<EventId>,
    ) -> (r: WordBlackhole)
        ensures
            r.component_id == component_id,
            r.input == unknown_word(),
    {
        WordBlackhole {
            component_id,
            ack_sender,
            input_receiver,
            input: Word::unknown(),
            input_old: Word::unknown(),
        }
    }

    pub fn init_impl(&mut self, mgr: &mut SimManager)
        requires
            old(mgr).wf(),
        ensures
            final(mgr).wf(),
            final(mgr)@ == old(mgr)@,
            *final(self) == *old(self),
    {
    }

    pub fn reset_impl(&mut self)
        ensures
            final(self).input == unknown_word(),
            final(self).component_id == old(self).component_id,
    {
        self.input = Word::unknown();
    }

    pub fn poll_impl(&mut self)
        ensures
            *final(self) == *old(self),
    {
    }

    /// Arrival has no further effect.
    pub fn on_comb(&mut self, mgr: &mut SimManager)
        requires
            old(mgr).wf(),
        ensures
            final(mgr).wf(),
            final(mgr)@ == old(mgr)@,
            *final(self) == *old(self),
    {
    }

    /// The last word received.
    pub fn get_input(&self) -> (r: Word)
        ensures
            r == self.input,
    {
        self.input
    }

    /// Take one event received on the `input` port: decode the payload
    /// into the port slot, fire the combinational callback exactly when
    /// the value changed, sync the previous-value slot, and acknowledge.
    pub fn handle_input(&mut self, mgr: &mut SimManager, event: SimEvent)
        requires
            old(mgr).wf(),
        ensures
            final(mgr).wf(),
            poll_transition(old(mgr)@, final(mgr)@),
            polled_word_blackhole_input(
                *old(self),
                *final(self),
                old(mgr)@,
                final(mgr)@,
                Some(event),
            ),
    {
        match get_inner(&event) {
            Payload::Word(v) => {
                self.input = v;
            },
            _ => {},
        }
        if !(self.input == self.input_old) {
            self.on_comb(mgr);
        } else {
            proof {
                lemma_poll_transition_refl(mgr@);
            }
        }
        self.input_old = self.input;
        let _ = try_send(&self.ack_sender, event.event_id);
    }
}

/// The combinational callback's exact effect on the manager: none.
pub open spec fn word_blackhole_emission(
    c: WordBlackhole,
    pre: SimManagerView,
    post: SimManagerView,
) -> bool {
    post == pre
}

/// What taking one event on the `input` port leaves behind: with no
/// event, nothing; with one, the decoded payload in the port slot (any
/// other payload kind leaves the slot as it was), the previous-value slot
/// synced, and the combinational callback's emission exactly when the
/// observed value changed.
pub open spec fn polled_word_blackhole_input(
    pre: WordBlackhole,
    post: WordBlackhole,
    pre_m: SimManagerView,
    post_m: SimManagerView,
    polled: Option<SimEvent>,
) -> bool {
    match polled {
        None => post == pre && post_m == pre_m,
        Some(e) => {
            &&& post == (WordBlackhole { input: post.input, input_old: post.input, ..pre })
            &&& post.input == (match e.payload {
                Payload::Word(v) => v,
                _ => pre.input,
            })
            &&& (post.input != pre.input_old ==> word_blackhole_emission(post, pre_m, post_m))
            &&& (post.input == pre.input_old ==> post_m == pre_m)
        },
    }
}

impl Component for WordBlackhole {
    fn get_component_id(&self) -> ComponentId {
        self.component_id
    }

    fn init(&mut self, mgr: &mut SimManager)
        ensures
            final(mgr)@ == old(mgr)@,
    {
        self.init_impl(mgr);
    }

    fn reset(&mut self) {
        self.reset_impl();
    }

    fn poll_recv(&mut self, mgr: &mut SimManager)
        ensures
            exists|po_input: Option<SimEvent>|
                #[trigger] polled_word_blackhole_input(*old(self), *final(self), old(mgr)@, final(mgr)@, po_input),
    {
        self.poll_impl();
        let ghost w0s = *self;
        let ghost w0m = mgr@;
        let ghost mut po_input: Option<SimEvent> = None;
        match try_recv(&self.input_receiver) {
            ChannelPoll::Item(event) => {
                proof {
                    po_input = Some(event);
                }
                self.handle_input(mgr, event);
            },
            _ => {},
        }
        proof {
            lemma_poll_transition_refl(mgr@);
            lemma_poll_transition_trans(old(mgr)@, w0m, mgr@);
        }
        proof {
            assert(polled_word_blackhole_input(w0s, *self, w0m, mgr@, po_input));
        }
    }
}

} // verus!
