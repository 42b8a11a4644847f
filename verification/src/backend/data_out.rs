//! The store-data register: it latches the value to be written to
//! memory and shifts it into byte position for the addressed lane.

use crate::backend::event::{send_word, word_event};
use crate::channel::{new_channel, try_recv, try_send, ChannelPoll};
use crate::component::{
    lemma_poll_transition_emit, lemma_poll_transition_refl, lemma_poll_transition_trans,
    poll_transition, Component,
};
use crate::event::{get_inner, Payload, SimEvent};
use crate::sim_manager::{SimManager, SimManagerView};
use crate::task::task_to;
use crate::types::{wrap_inc, ComponentId, EventId, Input, Output};
use crate::word::{unknown_word, word32, Byte, Word};
use vstd::prelude::*;

verus! {

/// The held value shifted into position for the low address bits of the
/// target: a store to address `a` places its data `8 * (a % 4)` bits up.
pub open spec fn data_out_shifted(data_inner: Word, mar: Word) -> Word {
    if data_inner.is_known() && mar.is_known() {
        word32(data_inner.spec_u32() << ((8 * ((mar.spec_u32() & 0x3) as int)) as u32))
    } else {
        unknown_word()
    }
}

/// The store-data register.
pub struct DataOut {
    pub data_inner: Word,
    pub component_id: ComponentId,
    pub ack_sender: crossbeam_channel::Sender<EventId>,
    pub clock_sender: Output,
    pub clock_receiver: Input,
    pub load_receiver: Input,
    pub load: Byte,
    pub load_old: Byte,
    pub mar_receiver: Input,
    pub mar: Word,
    pub mar_old: Word,
    pub rs2_data_receiver: Input,
    pub rs2_data: Word,
    pub rs2_data_old: Word,
    pub out: Output,
}

impl DataOut {
    pub fn new(
        component_id: ComponentId,
        ack_sender: crossbeam_channel::Sender<EventId>,
        load_receiver: Input,
        mar_receiver: Input,
        rs2_data_receiver: Input,
        out: Output,
    ) -> (r: DataOut)
        ensures
            r.component_id == component_id,
            r.data_inner == unknown_word(),
    {
        let clock_channel = new_channel();
        DataOut {
            data_inner: Word::unknown(),
            component_id,
            ack_sender,
            clock_sender: clock_channel.0,
            clock_receiver: clock_channel.1,
            load_receiver,
            load: Byte::unknown(),
            load_old: Byte::unknown(),
            mar_receiver,
            mar: Word::unknown(),
            mar_old: Word::unknown(),
            rs2_data_receiver,
            rs2_data: Word::unknown(),
            rs2_data_old: Word::unknown(),
            out,
        }
    }

    pub fn init_impl(&mut self, mgr: &mut SimManager)
        requires
            old(mgr).wf(),
        ensures
            final(mgr).wf(),
            final(mgr)@ == old(mgr)@,
            *final(self) == *old(self),
    {
    }

    pub fn reset_impl(&mut self)
        ensures
            *final(self) == *old(self),
    {
    }

    pub fn poll_impl(&mut self)
        ensures
            *final(self) == *old(self),
    {
    }

    /// On a tick: latch the input when the load line is driven high.
    pub fn on_clock(&mut self, mgr: &mut SimManager)
        requires
            old(mgr).wf(),
        ensures
            final(mgr).wf(),
            final(mgr)@ == old(mgr)@,
            poll_transition(old(mgr)@, final(mgr)@),
            old(self).load.is_known() && old(self).load.spec_u8() != 0 ==> final(self).data_inner
                == old(self).rs2_data,
            !(old(self).load.is_known() && old(self).load.spec_u8() != 0)
                ==> final(self).data_inner == old(self).data_inner,
            final(self).component_id == old(self).component_id,
            *final(self) == (DataOut { data_inner: final(self).data_inner, ..*old(self) }),
    {
        if self.load.is_something_nonzero() {
            self.data_inner = self.rs2_data;
        }
        proof {
            lemma_poll_transition_refl(mgr@);
        }
    }

    /// When the target address is known, emit the held value shifted into
    /// the addressed byte lane.
    pub fn on_comb(&mut self, mgr: &mut SimManager)
        requires
            old(mgr).wf(),
        ensures
            final(mgr).wf(),
            *final(self) == *old(self),
            poll_transition(old(mgr)@, final(mgr)@),
data_out_emission(*old(self), old(mgr)@, final(mgr)@),
    {
        proof {
            lemma_poll_transition_refl(mgr@);
        }
        match self.mar.to_u32() {
            Some(mar) => {
                let masked: u32 = mar & 0x3;
                proof {
                    assert(mar & 0x3 <= 3) by (bit_vector);
                }
                let shift: u32 = 8 * masked;
                let out = self.data_inner.shl(Word::from(shift));
                proof {
                    crate::word::lemma_word32_value(shift);
                    assert(shift <= 24 ==> (shift & 31) == shift) by (bit_vector);
                }
                let ghost v0 = mgr@;
                send_word(mgr, &self.out, out);
                proof {
                    lemma_poll_transition_emit(v0, mgr@, task_to(self.out, word_event(v0.next_id, v0.cycle, out)));
                }
            },
            None => {},
        }
    }
    /// Take one event received on the `load` port: decode the payload
    /// into the port slot, fire the combinational callback exactly when
    /// the value changed, sync the previous-value slot, and acknowledge.
    pub fn handle_load(&mut self, mgr: &mut SimManager, event: SimEvent)
        requires
            old(mgr).wf(),
        ensures
            final(mgr).wf(),
            poll_transition(old(mgr)@, final(mgr)@),
            polled_data_out_load(*old(self), *final(self), old(mgr)@, final(mgr)@, Some(event)),
    {
        match get_inner(&event) {
            Payload::Byte(v) => {
                self.load = v;
            },
            _ => {},
        }
        if !(self.load == self.load_old) {
            self.on_comb(mgr);
        } else {
            proof {
                lemma_poll_transition_refl(mgr@);
            }
        }
        self.load_old = self.load;
        let _ = try_send(&self.ack_sender, event.event_id);
    }

    /// Take one event received on the `mar` port: decode the payload
    /// into the port slot, fire the combinational callback exactly when
    /// the value changed, sync the previous-value slot, and acknowledge.
    pub fn handle_mar(&mut self, mgr: &mut SimManager, event: SimEvent)
        requires
            old(mgr).wf(),
        ensures
            final(mgr).wf(),
            poll_transition(old(mgr)@, final(mgr)@),
            polled_data_out_mar(*old(self), *final(self), old(mgr)@, final(mgr)@, Some(event)),
    {
        match get_inner(&event) {
            Payload::Word(v) => {
                self.mar = v;
            },
            _ => {},
        }
        if !(self.mar == self.mar_old) {
            self.on_comb(mgr);
        } else {
            proof {
                lemma_poll_transition_refl(mgr@);
            }
        }
        self.mar_old = self.mar;
        let _ = try_send(&self.ack_sender, event.event_id);
    }

    /// Take one event received on the `rs2_data` port: decode the payload
    /// into the port slot, fire the combinational callback exactly when
    /// the value changed, sync the previous-value slot, and acknowledge.
    pub fn handle_rs2_data(&mut self, mgr: &mut SimManager, event: SimEvent)
        requires
            old(mgr).wf(),
        ensures
            final(mgr).wf(),
            poll_transition(old(mgr)@, final(mgr)@),
            polled_data_out_rs2_data(*old(self), *final(self), old(mgr)@, final(mgr)@, Some(event)),
    {
        match get_inner(&event) {
            Payload::Word(v) => {
                self.rs2_data = v;
            },
            _ => {},
        }
        if !(self.rs2_data == self.rs2_data_old) {
            self.on_comb(mgr);
        } else {
            proof {
                lemma_poll_transition_refl(mgr@);
            }
        }
        self.rs2_data_old = self.rs2_data;
        let _ = try_send(&self.ack_sender, event.event_id);
    }

    /// Take one clock event: run the clocked callback, then the
    /// combinational callback, then acknowledge.
    pub fn handle_clock(&mut self, mgr: &mut SimManager, event: SimEvent)
        requires
            old(mgr).wf(),
        ensures
            final(mgr).wf(),
            poll_transition(old(mgr)@, final(mgr)@),
            polled_data_out_clock(*old(self), *final(self), old(mgr)@, final(mgr)@, Some(event)),
    {
        let ghost m0 = mgr@;
        self.on_clock(mgr);
        let ghost m1 = mgr@;
        self.on_comb(mgr);
        proof {
            lemma_poll_transition_trans(m0, m1, mgr@);
        }
        let _ = try_send(&self.ack_sender, event.event_id);
    }
}

/// The combinational callback's exact effect on the manager.
pub open spec fn data_out_emission(c: DataOut, pre: SimManagerView, post: SimManagerView) -> bool {
    &&& c.mar.is_known() ==> {
                &&& post == pre.with_heap(post.heap).with_next_id(
                    wrap_inc(pre.next_id),
                )
                &&& post.heap.to_multiset() == pre.heap.to_multiset().insert(
                    task_to(c.out, word_event(
                        pre.next_id,
                        pre.cycle,
                        data_out_shifted(c.data_inner, c.mar),
                    )),
                )
            }
    &&& !c.mar.is_known() ==> post == pre
}

/// What taking one event on the `load` port leaves behind: with no
/// event, nothing; with one, the decoded payload in the port slot (any
/// other payload kind leaves the slot as it was), the previous-value slot
/// synced, and the combinational callback's emission exactly when the
/// observed value changed.
pub open spec fn polled_data_out_load(
    pre: DataOut,
    post: DataOut,
    pre_m: SimManagerView,
    post_m: SimManagerView,
    polled: Option<SimEvent>,
) -> bool {
    match polled {
        None => post == pre && post_m == pre_m,
        Some(e) => {
            &&& post == (DataOut { load: post.load, load_old: post.load, ..pre })
            &&& post.load == (match e.payload {
                Payload::Byte(v) => v,
                _ => pre.load,
            })
            &&& (post.load != pre.load_old ==> data_out_emission(post, pre_m, post_m))
            &&& (post.load == pre.load_old ==> post_m == pre_m)
        },
    }
}

/// What taking one event on the `mar` port leaves behind: with no
/// event, nothing; with one, the decoded payload in the port slot (any
/// other payload kind leaves the slot as it was), the previous-value slot
/// synced, and the combinational callback's emission exactly when the
/// observed value changed.
pub open spec fn polled_data_out_mar(
    pre: DataOut,
    post: DataOut,
    pre_m: SimManagerView,
    post_m: SimManagerView,
    polled: Option<SimEvent>,
) -> bool {
    match polled {
        None => post == pre && post_m == pre_m,
        Some(e) => {
            &&& post == (DataOut { mar: post.mar, mar_old: post.mar, ..pre })
            &&& post.mar == (match e.payload {
                Payload::Word(v) => v,
                _ => pre.mar,
            })
            &&& (post.mar != pre.mar_old ==> data_out_emission(post, pre_m, post_m))
            &&& (post.mar == pre.mar_old ==> post_m == pre_m)
        },
    }
}

/// What taking one event on the `rs2_data` port leaves behind: with no
/// event, nothing; with one, the decoded payload in the port slot (any
/// other payload kind leaves the slot as it was), the previous-value slot
/// synced, and the combinational callback's emission exactly when the
/// observed value changed.
pub open spec fn polled_data_out_rs2_data(
    pre: DataOut,
    post: DataOut,
    pre_m: SimManagerView,
    post_m: SimManagerView,
    polled: Option<SimEvent>,
) -> bool {
    match polled {
        None => post == pre && post_m == pre_m,
        Some(e) => {
            &&& post == (DataOut { rs2_data: post.rs2_data, rs2_data_old: post.rs2_data, ..pre })
            &&& post.rs2_data == (match e.payload {
                Payload::Word(v) => v,
                _ => pre.rs2_data,
            })
            &&& (post.rs2_data != pre.rs2_data_old ==> data_out_emission(post, pre_m, post_m))
            &&& (post.rs2_data == pre.rs2_data_old ==> post_m == pre_m)
        },
    }
}

/// What taking one clock event leaves behind: the clocked callback's
/// effect, then the combinational callback's, then the acknowledgement.
pub open spec fn polled_data_out_clock(
    pre: DataOut,
    post: DataOut,
    pre_m: SimManagerView,
    post_m: SimManagerView,
    polled: Option<SimEvent>,
) -> bool {
    match polled {
        None => post == pre && post_m == pre_m,
        Some(e) => {
            &&& post == (DataOut { data_inner: (if pre.load.is_known() && pre.load.spec_u8() != 0 {
                pre.rs2_data
            } else {
                pre.data_inner
            }), ..pre })
            &&& data_out_emission(post, pre_m, post_m)
        },
    }
}

impl Component for DataOut {
    fn get_component_id(&self) -> ComponentId {
        self.component_id
    }

    fn init(&mut self, mgr: &mut SimManager)
        ensures
            final(mgr)@ == old(mgr)@.with_subs(old(mgr)@.subs.push(old(self).clock_sender)),
    {
        self.init_impl(mgr);
        mgr.register_clock_tick(crate::channel::clone_sender(&self.clock_sender));
    }

    fn reset(&mut self) {
        self.reset_impl();
    }

    fn poll_recv(&mut self, mgr: &mut SimManager)
        ensures
            exists|po_clock: Option<SimEvent>, po_load: Option<SimEvent>, po_mar: Option<SimEvent>, po_rs2_data: Option<SimEvent>, cs1: DataOut, cs2: DataOut, cs3: DataOut, mv1: SimManagerView, mv2: SimManagerView, mv3: SimManagerView|
                #![trigger polled_data_out_clock(*old(self), cs1, old(mgr)@, mv1, po_clock), polled_data_out_load(cs1, cs2, mv1, mv2, po_load), polled_data_out_mar(cs2, cs3, mv2, mv3, po_mar), polled_data_out_rs2_data(cs3, *final(self), mv3, final(mgr)@, po_rs2_data)]
                {
                    &&& polled_data_out_clock(*old(self), cs1, old(mgr)@, mv1, po_clock)
                    &&& polled_data_out_load(cs1, cs2, mv1, mv2, po_load)
                    &&& polled_data_out_mar(cs2, cs3, mv2, mv3, po_mar)
                    &&& polled_data_out_rs2_data(cs3, *final(self), mv3, final(mgr)@, po_rs2_data)
                },
    {
        self.poll_impl();
        let ghost w0s = *self;
        let ghost w0m = mgr@;
        let ghost mut po_clock: Option<SimEvent> = None;
        match try_recv(&self.clock_receiver) {
            ChannelPoll::Item(event) => {
                proof {
                    po_clock = Some(event);
                }
                self.handle_clock(mgr, event);
            },
            _ => {},
        }
        proof {
            lemma_poll_transition_refl(mgr@);
            lemma_poll_transition_trans(old(mgr)@, w0m, mgr@);
        }
        let ghost w1s = *self;
        let ghost w1m = mgr@;
        let ghost mut po_load: Option<SimEvent> = None;
        match try_recv(&self.load_receiver) {
            ChannelPoll::Item(event) => {
                proof {
                    po_load = Some(event);
                }
                self.handle_load(mgr, event);
            },
            _ => {},
        }
        proof {
            lemma_poll_transition_refl(mgr@);
            lemma_poll_transition_trans(old(mgr)@, w1m, mgr@);
        }
        let ghost w2s = *self;
        let ghost w2m = mgr@;
        let ghost mut po_mar: Option<SimEvent> = None;
        match try_recv(&self.mar_receiver) {
            ChannelPoll::Item(event) => {
                proof {
                    po_mar = Some(event);
                }
                self.handle_mar(mgr, event);
            },
            _ => {},
        }
        proof {
            lemma_poll_transition_refl(mgr@);
            lemma_poll_transition_trans(old(mgr)@, w2m, mgr@);
        }
        let ghost w3s = *self;
        let ghost w3m = mgr@;
        let ghost mut po_rs2_data: Option<SimEvent> = None;
        match try_recv(&self.rs2_data_receiver) {
            ChannelPoll::Item(event) => {
                proof {
                    po_rs2_data = Some(event);
                }
                self.handle_rs2_data(mgr, event);
            },
            _ => {},
        }
        proof {
            lemma_poll_transition_refl(mgr@);
            lemma_poll_transition_trans(old(mgr)@, w3m, mgr@);
        }
        proof {
            assert(polled_data_out_clock(w0s, w1s, w0m, w1m, po_clock));
            assert(polled_data_out_load(w1s, w2s, w1m, w2m, po_load));
            assert(polled_data_out_mar(w2s, w3s, w2m, w3m, po_mar));
            assert(polled_data_out_rs2_data(w3s, *self, w3m, mgr@, po_rs2_data));
        }
    }
}

} // verus!
