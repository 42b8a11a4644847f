//! The memory-data register: latched from memory on a tick, fanned out
//! to the instruction register and the write-back multiplexer.

use crate::backend::event::{send_word, word_event};
use crate::channel::{new_channel, try_recv, try_send, ChannelPoll};
use crate::component::{
    lemma_poll_transition_emit, lemma_poll_transition_refl, lemma_poll_transition_trans,
    poll_transition, Component,
};
use crate::event::{get_inner, Payload, SimEvent};
use crate::sim_manager::{SimManager, SimManagerView};
use crate::task::task_to;
use crate::types::{wrap_inc, ComponentId, EventId, Input, Output};
use crate::word::{unknown_word, Byte, Word};
use vstd::prelude::*;

verus! {

/// The memory-data register.
pub struct Mdr {
    pub data_inner: Word,
    pub component_id: ComponentId,
    pub ack_sender: crossbeam_channel::Sender<EventId>,
    pub clock_sender: Output,
    pub clock_receiver: Input,
    pub load_receiver: Input,
    pub load: Byte,
    pub load_old: Byte,
    pub data_receiver: Input,
    pub data: Word,
    pub data_old: Word,
    pub out_ir: Output,
    pub out_regfile_mux: Output,
}

impl Mdr {
    pub fn new(
        component_id: ComponentId,
        ack_sender: crossbeam_channel::Sender<EventId>,
        load_receiver: Input,
        data_receiver: Input,
        out_ir: Output,
        out_regfile_mux: Output,
    ) -> (r: Mdr)
        ensures
            r.component_id == component_id,
            r.data_inner == unknown_word(),
    {
        let clock_channel = new_channel();
        Mdr {
            data_inner: Word::unknown(),
            component_id,
            ack_sender,
            clock_sender: clock_channel.0,
            clock_receiver: clock_channel.1,
            load_receiver,
            load: Byte::unknown(),
            load_old: Byte::unknown(),
            data_receiver,
            data: Word::unknown(),
            data_old: Word::unknown(),
            out_ir,
            out_regfile_mux,
        }
    }

    pub fn init_impl(&mut self, mgr: &mut SimManager)
        requires
            old(mgr).wf(),
        ensures
            final(mgr).wf(),
            final(mgr)@ == old(mgr)@,
            *final(self) == *old(self),
    {
    }

    pub fn reset_impl(&mut self)
        ensures
            *final(self) == *old(self),
    {
    }

    pub fn poll_impl(&mut self)
        ensures
            *final(self) == *old(self),
    {
    }

    /// On a tick: latch the input when the load line is driven high.
    pub fn on_clock(&mut self, mgr: &mut SimManager)
        requires
            old(mgr).wf(),
        ensures
            final(mgr).wf(),
            final(mgr)@ == old(mgr)@,
            poll_transition(old(mgr)@, final(mgr)@),
            old(self).load.is_known() && old(self).load.spec_u8() != 0 ==> final(self).data_inner
                == old(self).data,
            !(old(self).load.is_known() && old(self).load.spec_u8() != 0)
                ==> final(self).data_inner == old(self).data_inner,
            final(self).component_id == old(self).component_id,
            *final(self) == (Mdr { data_inner: final(self).data_inner, ..*old(self) }),
    {
        if self.load.is_something_nonzero() {
            self.data_inner = self.data;
        }
        proof {
            lemma_poll_transition_refl(mgr@);
        }
    }

    /// Emit the held value to every consumer.
    pub fn on_comb(&mut self, mgr: &mut SimManager)
        requires
            old(mgr).wf(),
        ensures
            final(mgr).wf(),
            *final(self) == *old(self),
            poll_transition(old(mgr)@, final(mgr)@),
mdr_emission(*old(self), old(mgr)@, final(mgr)@),
    {
        let ghost v0 = mgr@;
        send_word(mgr, &self.out_ir, self.data_inner);
        proof {
            lemma_poll_transition_emit(v0, mgr@, task_to(self.out_ir, word_event(v0.next_id, v0.cycle, self.data_inner)));
        }
        let ghost v1 = mgr@;
        send_word(mgr, &self.out_regfile_mux, self.data_inner);
        proof {
            lemma_poll_transition_emit(v1, mgr@, task_to(self.out_regfile_mux, word_event(v1.next_id, v1.cycle, self.data_inner)));
            lemma_poll_transition_trans(v0, v1, mgr@);
        }
    }
    /// Take one event received on the `load` port: decode the payload
    /// into the port slot, fire the combinational callback exactly when
    /// the value changed, sync the previous-value slot, and acknowledge.
    pub fn handle_load(&mut self, mgr: &mut SimManager, event: SimEvent)
        requires
            old(mgr).wf(),
        ensures
            final(mgr).wf(),
            poll_transition(old(mgr)@, final(mgr)@),
            polled_mdr_load(*old(self), *final(self), old(mgr)@, final(mgr)@, Some(event)),
    {
        match get_inner(&event) {
            Payload::Byte(v) => {
                self.load = v;
            },
            _ => {},
        }
        if !(self.load == self.load_old) {
            self.on_comb(mgr);
        } else {
            proof {
                lemma_poll_transition_refl(mgr@);
            }
        }
        self.load_old = self.load;
        let _ = try_send(&self.ack_sender, event.event_id);
    }

    /// Take one event received on the `data` port: decode the payload
    /// into the port slot, fire the combinational callback exactly when
    /// the value changed, sync the previous-value slot, and acknowledge.
    pub fn handle_data(&mut self, mgr: &mut SimManager, event: SimEvent)
        requires
            old(mgr).wf(),
        ensures
            final(mgr).wf(),
            poll_transition(old(mgr)@, final(mgr)@),
            polled_mdr_data(*old(self), *final(self), old(mgr)@, final(mgr)@, Some(event)),
    {
        match get_inner(&event) {
            Payload::Word(v) => {
                self.data = v;
            },
            _ => {},
        }
        if !(self.data == self.data_old) {
            self.on_comb(mgr);
        } else {
            proof {
                lemma_poll_transition_refl(mgr@);
            }
        }
        self.data_old = self.data;
        let _ = try_send(&self.ack_sender, event.event_id);
    }

    /// Take one clock event: run the clocked callback, then the
    /// combinational callback, then acknowledge.
    pub fn handle_clock(&mut self, mgr: &mut SimManager, event: SimEvent)
        requires
            old(mgr).wf(),
        ensures
            final(mgr).wf(),
            poll_transition(old(mgr)@, final(mgr)@),
            polled_mdr_clock(*old(self), *final(self), old(mgr)@, final(mgr)@, Some(event)),
    {
        let ghost m0 = mgr@;
        self.on_clock(mgr);
        let ghost m1 = mgr@;
        self.on_comb(mgr);
        proof {
            lemma_poll_transition_trans(m0, m1, mgr@);
        }
        let _ = try_send(&self.ack_sender, event.event_id);
    }
}

/// The combinational callback's exact effect on the manager.
pub open spec fn mdr_emission(c: Mdr, pre: SimManagerView, post: SimManagerView) -> bool {
    &&& post == pre.with_heap(post.heap).with_next_id(
                wrap_inc(wrap_inc(pre.next_id)),
            )
    &&& post.heap.to_multiset() == pre.heap.to_multiset().insert(
                task_to(c.out_ir, word_event(pre.next_id, pre.cycle, c.data_inner)),
            ).insert(
                task_to(c.out_regfile_mux, word_event(wrap_inc(pre.next_id), pre.cycle, c.data_inner)),
            )
}

/// What taking one event on the `load` port leaves behind: with no
/// event, nothing; with one, the decoded payload in the port slot (any
/// other payload kind leaves the slot as it was), the previous-value slot
/// synced, and the combinational callback's emission exactly when the
/// observed value changed.
pub open spec fn polled_mdr_load(
    pre: Mdr,
    post: Mdr,
    pre_m: SimManagerView,
    post_m: SimManagerView,
    polled: Option<SimEvent>,
) -> bool {
    match polled {
        None => post == pre && post_m == pre_m,
        Some(e) => {
            &&& post == (Mdr { load: post.load, load_old: post.load, ..pre })
            &&& post.load == (match e.payload {
                Payload::Byte(v) => v,
                _ => pre.load,
            })
            &&& (post.load != pre.load_old ==> mdr_emission(post, pre_m, post_m))
            &&& (post.load == pre.load_old ==> post_m == pre_m)
        },
    }
}

/// What taking one event on the `data` port leaves behind: with no
/// event, nothing; with one, the decoded payload in the port slot (any
/// other payload kind leaves the slot as it was), the previous-value slot
/// synced, and the combinational callback's emission exactly when the
/// observed value changed.
pub open spec fn polled_mdr_data(
    pre: Mdr,
    post: Mdr,
    pre_m: SimManagerView,
    post_m: SimManagerView,
    polled: Option<SimEvent>,
) -> bool {
    match polled {
        None => post == pre && post_m == pre_m,
        Some(e) => {
            &&& post == (Mdr { data: post.data, data_old: post.data, ..pre })
            &&& post.data == (match e.payload {
                Payload::Word(v) => v,
                _ => pre.data,
            })
            &&& (post.data != pre.data_old ==> mdr_emission(post, pre_m, post_m))
            &&& (post.data == pre.data_old ==> post_m == pre_m)
        },
    }
}

/// What taking one clock event leaves behind: the clocked callback's
/// effect, then the combinational callback's, then the acknowledgement.
pub open spec fn polled_mdr_clock(
    pre: Mdr,
    post: Mdr,
    pre_m: SimManagerView,
    post_m: SimManagerView,
    polled: Option<SimEvent>,
) -> bool {
    match polled {
        None => post == pre && post_m == pre_m,
        Some(e) => {
            &&& post == (Mdr { data_inner: (if pre.load.is_known() && pre.load.spec_u8() != 0 {
                pre.data
            } else {
                pre.data_inner
            }), ..pre })
            &&& mdr_emission(post, pre_m, post_m)
        },
    }
}

impl Component for Mdr {
    fn get_component_id(&self) -> ComponentId {
        self.component_id
    }

    fn init(&mut self, mgr: &mut SimManager)
        ensures
            final(mgr)@ == old(mgr)@.with_subs(old(mgr)@.subs.push(old(self).clock_sender)),
    {
        self.init_impl(mgr);
        mgr.register_clock_tick(crate::channel::clone_sender(&self.clock_sender));
    }

    fn reset(&mut self) {
        self.reset_impl();
    }

    fn poll_recv(&mut self, mgr: &mut SimManager)
        ensures
            exists|po_clock: Option<SimEvent>, po_load: Option<SimEvent>, po_data: Option<SimEvent>, cs1: Mdr, cs2: Mdr, mv1: SimManagerView, mv2: SimManagerView|
                #![trigger polled_mdr_clock(*old(self), cs1, old(mgr)@, mv1, po_clock), polled_mdr_load(cs1, cs2, mv1, mv2, po_load), polled_mdr_data(cs2, *final(self), mv2, final(mgr)@, po_data)]
                {
                    &&& polled_mdr_clock(*old(self), cs1, old(mgr)@, mv1, po_clock)
                    &&& polled_mdr_load(cs1, cs2, mv1, mv2, po_load)
                    &&& polled_mdr_data(cs2, *final(self), mv2, final(mgr)@, po_data)
                },
    {
        self.poll_impl();
        let ghost w0s = *self;
        let ghost w0m = mgr@;
        let ghost mut po_clock: Option<SimEvent> = None;
        match try_recv(&self.clock_receiver) {
            ChannelPoll::Item(event) => {
                proof {
                    po_clock = Some(event);
                }
                self.handle_clock(mgr, event);
            },
            _ => {},
        }
        proof {
            lemma_poll_transition_refl(mgr@);
            lemma_poll_transition_trans(old(mgr)@, w0m, mgr@);
        }
        let ghost w1s = *self;
        let ghost w1m = mgr@;
        let ghost mut po_load: Option<SimEvent> = None;
        match try_recv(&self.load_receiver) {
            ChannelPoll::Item(event) => {
                proof {
                    po_load = Some(event);
                }
                self.handle_load(mgr, event);
            },
            _ => {},
        }
        proof {
            lemma_poll_transition_refl(mgr@);
            lemma_poll_transition_trans(old(mgr)@, w1m, mgr@);
        }
        let ghost w2s = *self;
        let ghost w2m = mgr@;
        let ghost mut po_data: Option<SimEvent> = None;
        match try_recv(&self.data_receiver) {
            ChannelPoll::Item(event) => {
                proof {
                    po_data = Some(event);
                }
                self.handle_data(mgr, event);
            },
            _ => {},
        }
        proof {
            lemma_poll_transition_refl(mgr@);
            lemma_poll_transition_trans(old(mgr)@, w2m, mgr@);
        }
        proof {
            assert(polled_mdr_clock(w0s, w1s, w0m, w1m, po_clock));
            assert(polled_mdr_load(w1s, w2s, w1m, w2m, po_load));
            assert(polled_mdr_data(w2s, *self, w2m, mgr@, po_data));
        }
    }
}

} // verus!
