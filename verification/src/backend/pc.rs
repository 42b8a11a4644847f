//! The program counter and the multiplexer that chooses its next value.

use crate::backend::event::{send_word, word_event};
use crate::channel::{new_channel, try_recv, try_send, ChannelPoll};
use crate::component::{
    lemma_poll_transition_emit, lemma_poll_transition_refl, lemma_poll_transition_trans,
    poll_transition, Component,
};
use crate::event::{get_inner, Payload, SimEvent};
use crate::isa::{PC_MUX_ALU_MOD2, PC_MUX_ALU_OUT, PC_MUX_PC_PLUS4};
use crate::sim_manager::{SimManager, SimManagerView};
use crate::task::task_to;
use crate::types::{wrap_inc, ComponentId, EventId, Input, Output};
use crate::word::{byte8, unknown_word, word32, Byte, Word};
use vstd::prelude::*;

verus! {

/// The program counter, reset to the boot address.
pub struct Pc {
    pub data_inner: Word,
    pub component_id: ComponentId,
    pub ack_sender: crossbeam_channel::Sender<EventId>,
    pub clock_sender: Output,
    pub clock_receiver: Input,
    pub load_receiver: Input,
    pub load: Byte,
    pub load_old: Byte,
    pub data_receiver: Input,
    pub data: Word,
    pub data_old: Word,
    pub out_alu_mux1: Output,
    pub out_pc_mux: Output,
    pub out_mar_mux: Output,
    pub out_regfile_mux: Output,
}

impl Pc {
    pub fn new(
        component_id: ComponentId,
        ack_sender: crossbeam_channel::Sender<EventId>,
        load_receiver: Input,
        data_receiver: Input,
        out_alu_mux1: Output,
        out_pc_mux: Output,
        out_mar_mux: Output,
        out_regfile_mux: Output,
    ) -> (r: Pc)
        ensures
            r.component_id == component_id,
            r.data_inner == unknown_word(),
    {
        let clock_channel = new_channel();
        Pc {
            data_inner: Word::unknown(),
            component_id,
            ack_sender,
            clock_sender: clock_channel.0,
            clock_receiver: clock_channel.1,
            load_receiver,
            load: Byte::unknown(),
            load_old: Byte::unknown(),
            data_receiver,
            data: Word::unknown(),
            data_old: Word::unknown(),
            out_alu_mux1,
            out_pc_mux,
            out_mar_mux,
            out_regfile_mux,
        }
    }

    pub fn init_impl(&mut self, mgr: &mut SimManager)
        requires
            old(mgr).wf(),
        ensures
            final(mgr).wf(),
            final(mgr)@ == old(mgr)@,
            final(self).data_inner == word32(0x4000_0000u32),
            *final(self) == (Pc { data_inner: final(self).data_inner, ..*old(self) }),
    {
        self.data_inner = Word::from(0x4000_0000u32);
    }

    pub fn reset_impl(&mut self)
        ensures
            final(self).data_inner == word32(0x4000_0000u32),
            final(self).component_id == old(self).component_id,
    {
        self.data_inner = Word::from(0x4000_0000u32);
    }

    pub fn poll_impl(&mut self)
        ensures
            *final(self) == *old(self),
    {
    }

    /// On a tick: latch the input when the load line is driven high.
    pub fn on_clock(&mut self, mgr: &mut SimManager)
        requires
            old(mgr).wf(),
        ensures
            final(mgr).wf(),
            final(mgr)@ == old(mgr)@,
            poll_transition(old(mgr)@, final(mgr)@),
            old(self).load.is_known() && old(self).load.spec_u8() != 0 ==> final(self).data_inner
                == old(self).data,
            !(old(self).load.is_known() && old(self).load.spec_u8() != 0)
                ==> final(self).data_inner == old(self).data_inner,
            final(self).component_id == old(self).component_id,
            *final(self) == (Pc { data_inner: final(self).data_inner, ..*old(self) }),
    {
        if self.load.is_something_nonzero() {
            self.data_inner = self.data;
        }
        proof {
            lemma_poll_transition_refl(mgr@);
        }
    }

    /// Emit the held value to every consumer.
    pub fn on_comb(&mut self, mgr: &mut SimManager)
        requires
            old(mgr).wf(),
        ensures
            final(mgr).wf(),
            *final(self) == *old(self),
            poll_transition(old(mgr)@, final(mgr)@),
pc_reg_emission(*old(self), old(mgr)@, final(mgr)@),
    {
        let ghost v0 = mgr@;
        send_word(mgr, &self.out_alu_mux1, self.data_inner);
        proof {
            lemma_poll_transition_emit(v0, mgr@, task_to(self.out_alu_mux1, word_event(v0.next_id, v0.cycle, self.data_inner)));
        }
        let ghost v1 = mgr@;
        send_word(mgr, &self.out_pc_mux, self.data_inner);
        proof {
            lemma_poll_transition_emit(v1, mgr@, task_to(self.out_pc_mux, word_event(v1.next_id, v1.cycle, self.data_inner)));
            lemma_poll_transition_trans(v0, v1, mgr@);
        }
        let ghost v2 = mgr@;
        send_word(mgr, &self.out_mar_mux, self.data_inner);
        proof {
            lemma_poll_transition_emit(v2, mgr@, task_to(self.out_mar_mux, word_event(v2.next_id, v2.cycle, self.data_inner)));
            lemma_poll_transition_trans(v0, v2, mgr@);
        }
        let ghost v3 = mgr@;
        send_word(mgr, &self.out_regfile_mux, self.data_inner);
        proof {
            lemma_poll_transition_emit(v3, mgr@, task_to(self.out_regfile_mux, word_event(v3.next_id, v3.cycle, self.data_inner)));
            lemma_poll_transition_trans(v0, v3, mgr@);
        }
    }
    /// Take one event received on the `load` port: decode the payload
    /// into the port slot, fire the combinational callback exactly when
    /// the value changed, sync the previous-value slot, and acknowledge.
    pub fn handle_load(&mut self, mgr: &mut SimManager, event: SimEvent)
        requires
            old(mgr).wf(),
        ensures
            final(mgr).wf(),
            poll_transition(old(mgr)@, final(mgr)@),
            polled_pc_reg_load(*old(self), *final(self), old(mgr)@, final(mgr)@, Some(event)),
    {
        match get_inner(&event) {
            Payload::Byte(v) => {
                self.load = v;
            },
            _ => {},
        }
        if !(self.load == self.load_old) {
            self.on_comb(mgr);
        } else {
            proof {
                lemma_poll_transition_refl(mgr@);
            }
        }
        self.load_old = self.load;
        let _ = try_send(&self.ack_sender, event.event_id);
    }

    /// Take one event received on the `data` port: decode the payload
    /// into the port slot, fire the combinational callback exactly when
    /// the value changed, sync the previous-value slot, and acknowledge.
    pub fn handle_data(&mut self, mgr: &mut SimManager, event: SimEvent)
        requires
            old(mgr).wf(),
        ensures
            final(mgr).wf(),
            poll_transition(old(mgr)@, final(mgr)@),
            polled_pc_reg_data(*old(self), *final(self), old(mgr)@, final(mgr)@, Some(event)),
    {
        match get_inner(&event) {
            Payload::Word(v) => {
                self.data = v;
            },
            _ => {},
        }
        if !(self.data == self.data_old) {
            self.on_comb(mgr);
        } else {
            proof {
                lemma_poll_transition_refl(mgr@);
            }
        }
        self.data_old = self.data;
        let _ = try_send(&self.ack_sender, event.event_id);
    }

    /// Take one clock event: run the clocked callback, then the
    /// combinational callback, then acknowledge.
    pub fn handle_clock(&mut self, mgr: &mut SimManager, event: SimEvent)
        requires
            old(mgr).wf(),
        ensures
            final(mgr).wf(),
            poll_transition(old(mgr)@, final(mgr)@),
            polled_pc_reg_clock(*old(self), *final(self), old(mgr)@, final(mgr)@, Some(event)),
    {
        let ghost m0 = mgr@;
        self.on_clock(mgr);
        let ghost m1 = mgr@;
        self.on_comb(mgr);
        proof {
            lemma_poll_transition_trans(m0, m1, mgr@);
        }
        let _ = try_send(&self.ack_sender, event.event_id);
    }
}

/// The combinational callback's exact effect on the manager.
pub open spec fn pc_reg_emission(c: Pc, pre: SimManagerView, post: SimManagerView) -> bool {
    &&& post == pre.with_heap(post.heap).with_next_id(
                wrap_inc(wrap_inc(wrap_inc(wrap_inc(pre.next_id)))),
            )
    &&& post.heap.to_multiset() == pre.heap.to_multiset().insert(
                task_to(c.out_alu_mux1, word_event(pre.next_id, pre.cycle, c.data_inner)),
            ).insert(
                task_to(c.out_pc_mux, word_event(wrap_inc(pre.next_id), pre.cycle, c.data_inner)),
            ).insert(
                task_to(c.out_mar_mux, word_event(wrap_inc(wrap_inc(pre.next_id)), pre.cycle, c.data_inner)),
            ).insert(
                task_to(c.out_regfile_mux, word_event(wrap_inc(wrap_inc(wrap_inc(pre.next_id))), pre.cycle, c.data_inner)),
            )
}

/// What taking one event on the `load` port leaves behind: with no
/// event, nothing; with one, the decoded payload in the port slot (any
/// other payload kind leaves the slot as it was), the previous-value slot
/// synced, and the combinational callback's emission exactly when the
/// observed value changed.
pub open spec fn polled_pc_reg_load(
    pre: Pc,
    post: Pc,
    pre_m: SimManagerView,
    post_m: SimManagerView,
    polled: Option<SimEvent>,
) -> bool {
    match polled {
        None => post == pre && post_m == pre_m,
        Some(e) => {
            &&& post == (Pc { load: post.load, load_old: post.load, ..pre })
            &&& post.load == (match e.payload {
                Payload::Byte(v) => v,
                _ => pre.load,
            })
            &&& (post.load != pre.load_old ==> pc_reg_emission(post, pre_m, post_m))
            &&& (post.load == pre.load_old ==> post_m == pre_m)
        },
    }
}

/// What taking one event on the `data` port leaves behind: with no
/// event, nothing; with one, the decoded payload in the port slot (any
/// other payload kind leaves the slot as it was), the previous-value slot
/// synced, and the combinational callback's emission exactly when the
/// observed value changed.
pub open spec fn polled_pc_reg_data(
    pre: Pc,
    post: Pc,
    pre_m: SimManagerView,
    post_m: SimManagerView,
    polled: Option<SimEvent>,
) -> bool {
    match polled {
        None => post == pre && post_m == pre_m,
        Some(e) => {
            &&& post == (Pc { data: post.data, data_old: post.data, ..pre })
            &&& post.data == (match e.payload {
                Payload::Word(v) => v,
                _ => pre.data,
            })
            &&& (post.data != pre.data_old ==> pc_reg_emission(post, pre_m, post_m))
            &&& (post.data == pre.data_old ==> post_m == pre_m)
        },
    }
}

/// What taking one clock event leaves behind: the clocked callback's
/// effect, then the combinational callback's, then the acknowledgement.
pub open spec fn polled_pc_reg_clock(
    pre: Pc,
    post: Pc,
    pre_m: SimManagerView,
    post_m: SimManagerView,
    polled: Option<SimEvent>,
) -> bool {
    match polled {
        None => post == pre && post_m == pre_m,
        Some(e) => {
            &&& post == (Pc { data_inner: (if pre.load.is_known() && pre.load.spec_u8() != 0 {
                pre.data
            } else {
                pre.data_inner
            }), ..pre })
            &&& pc_reg_emission(post, pre_m, post_m)
        },
    }
}

impl Component for Pc {
    fn get_component_id(&self) -> ComponentId {
        self.component_id
    }

    fn init(&mut self, mgr: &mut SimManager)
        ensures
            final(mgr)@ == old(mgr)@.with_subs(old(mgr)@.subs.push(old(self).clock_sender)),
    {
        self.init_impl(mgr);
        mgr.register_clock_tick(crate::channel::clone_sender(&self.clock_sender));
    }

    fn reset(&mut self) {
        self.reset_impl();
    }

    fn poll_recv(&mut self, mgr: &mut SimManager)
        ensures
            exists|po_clock: Option<SimEvent>, po_load: Option<SimEvent>, po_data: Option<SimEvent>, cs1: Pc, cs2: Pc, mv1: SimManagerView, mv2: SimManagerView|
                #![trigger polled_pc_reg_clock(*old(self), cs1, old(mgr)@, mv1, po_clock), polled_pc_reg_load(cs1, cs2, mv1, mv2, po_load), polled_pc_reg_data(cs2, *final(self), mv2, final(mgr)@, po_data)]
                {
                    &&& polled_pc_reg_clock(*old(self), cs1, old(mgr)@, mv1, po_clock)
                    &&& polled_pc_reg_load(cs1, cs2, mv1, mv2, po_load)
                    &&& polled_pc_reg_data(cs2, *final(self), mv2, final(mgr)@, po_data)
                },
    {
        self.poll_impl();
        let ghost w0s = *self;
        let ghost w0m = mgr@;
        let ghost mut po_clock: Option<SimEvent> = None;
        match try_recv(&self.clock_receiver) {
            ChannelPoll::Item(event) => {
                proof {
                    po_clock = Some(event);
                }
                self.handle_clock(mgr, event);
            },
            _ => {},
        }
        proof {
            lemma_poll_transition_refl(mgr@);
            lemma_poll_transition_trans(old(mgr)@, w0m, mgr@);
        }
        let ghost w1s = *self;
        let ghost w1m = mgr@;
        let ghost mut po_load: Option<SimEvent> = None;
        match try_recv(&self.load_receiver) {
            ChannelPoll::Item(event) => {
                proof {
                    po_load = Some(event);
                }
                self.handle_load(mgr, event);
            },
            _ => {},
        }
        proof {
            lemma_poll_transition_refl(mgr@);
            lemma_poll_transition_trans(old(mgr)@, w1m, mgr@);
        }
        let ghost w2s = *self;
        let ghost w2m = mgr@;
        let ghost mut po_data: Option<SimEvent> = None;
        match try_recv(&self.data_receiver) {
            ChannelPoll::Item(event) => {
                proof {
                    po_data = Some(event);
                }
                self.handle_data(mgr, event);
            },
            _ => {},
        }
        proof {
            lemma_poll_transition_refl(mgr@);
            lemma_poll_transition_trans(old(mgr)@, w2m, mgr@);
        }
        proof {
            assert(polled_pc_reg_clock(w0s, w1s, w0m, w1m, po_clock));
            assert(polled_pc_reg_load(w1s, w2s, w1m, w2m, po_load));
            assert(polled_pc_reg_data(w2s, *self, w2m, mgr@, po_data));
        }
    }
}

/// What the program-counter multiplexer selects: the incremented
/// program counter, the raw ALU result, or the ALU result with its lowest
/// bit cleared (for register-indirect jumps).
pub open spec fn pc_mux_out(sel: Byte, pc: Word, alu_out: Word) -> Word {
    if sel == byte8(PC_MUX_PC_PLUS4) {
        if pc.is_known() {
            word32(crate::word::u32_add(pc.spec_u32(), 4))
        } else {
            unknown_word()
        }
    } else if sel == byte8(PC_MUX_ALU_OUT) {
        alu_out
    } else if sel == byte8(PC_MUX_ALU_MOD2) {
        if alu_out.is_known() {
            word32(alu_out.spec_u32() & 0xffff_fffe)
        } else {
            unknown_word()
        }
    } else {
        unknown_word()
    }
}

/// The multiplexer that chooses the program counter's next value.
pub struct PcMux {
    pub component_id: ComponentId,
    pub ack_sender: crossbeam_channel::Sender<EventId>,
    pub pc_receiver: Input,
    pub pc: Word,
    pub pc_old: Word,
    pub alu_out_receiver: Input,
    pub alu_out: Word,
    pub alu_out_old: Word,
    pub sel_receiver: Input,
    pub sel: Byte,
    pub sel_old: Byte,
    pub out: Output,
}

impl PcMux {
    pub fn new(
        component_id: ComponentId,
        ack_sender: crossbeam_channel::Sender<EventId>,
        pc_receiver: Input,
        alu_out_receiver: Input,
        sel_receiver: Input,
        out: Output,
    ) -> (r: PcMux)
        ensures
            r.component_id == component_id,
    {
        PcMux {
            component_id,
            ack_sender,
            pc_receiver,
            pc: Word::unknown(),
            pc_old: Word::unknown(),
            alu_out_receiver,
            alu_out: Word::unknown(),
            alu_out_old: Word::unknown(),
            sel_receiver,
            sel: Byte::unknown(),
            sel_old: Byte::unknown(),
            out,
        }
    }

    pub fn init_impl(&mut self, mgr: &mut SimManager)
        requires
            old(mgr).wf(),
        ensures
            final(mgr).wf(),
            final(mgr)@ == old(mgr)@,
            *final(self) == *old(self),
    {
    }

    pub fn reset_impl(&mut self)
        ensures
            *final(self) == *old(self),
    {
    }

    pub fn poll_impl(&mut self)
        ensures
            *final(self) == *old(self),
    {
    }

    /// Emit the selected next program-counter value.
    pub fn on_comb(&mut self, mgr: &mut SimManager)
        requires
            old(mgr).wf(),
        ensures
            final(mgr).wf(),
            *final(self) == *old(self),
            poll_transition(old(mgr)@, final(mgr)@),
pc_mux_emission(*old(self), old(mgr)@, final(mgr)@),
    {
        let out = match self.sel.to_u8() {
            Some(s) if s == PC_MUX_PC_PLUS4 => self.pc.add(Word::from(4u32)),
            Some(s) if s == PC_MUX_ALU_OUT => self.alu_out,
            Some(s) if s == PC_MUX_ALU_MOD2 => self.alu_out.and(Word::from(0xffff_fffeu32)),
            _ => Word::unknown(),
        };
        proof {
            crate::word::lemma_word32_value(4);
            crate::word::lemma_word32_value(0xffff_fffe);
        }
        let ghost v0 = mgr@;
        send_word(mgr, &self.out, out);
        proof {
            lemma_poll_transition_emit(v0, mgr@, task_to(self.out, word_event(v0.next_id, v0.cycle, out)));
        }
    }
    /// Take one event received on the `pc` port: decode the payload
    /// into the port slot, fire the combinational callback exactly when
    /// the value changed, sync the previous-value slot, and acknowledge.
    pub fn handle_pc(&mut self, mgr: &mut SimManager, event: SimEvent)
        requires
            old(mgr).wf(),
        ensures
            final(mgr).wf(),
            poll_transition(old(mgr)@, final(mgr)@),
            polled_pc_mux_pc(*old(self), *final(self), old(mgr)@, final(mgr)@, Some(event)),
    {
        match get_inner(&event) {
            Payload::Word(v) => {
                self.pc = v;
            },
            _ => {},
        }
        if !(self.pc == self.pc_old) {
            self.on_comb(mgr);
        } else {
            proof {
                lemma_poll_transition_refl(mgr@);
            }
        }
        self.pc_old = self.pc;
        let _ = try_send(&self.ack_sender, event.event_id);
    }

    /// Take one event received on the `alu_out` port: decode the payload
    /// into the port slot, fire the combinational callback exactly when
    /// the value changed, sync the previous-value slot, and acknowledge.
    pub fn handle_alu_out(&mut self, mgr: &mut SimManager, event: SimEvent)
        requires
            old(mgr).wf(),
        ensures
            final(mgr).wf(),
            poll_transition(old(mgr)@, final(mgr)@),
            polled_pc_mux_alu_out(*old(self), *final(self), old(mgr)@, final(mgr)@, Some(event)),
    {
        match get_inner(&event) {
            Payload::Word(v) => {
                self.alu_out = v;
            },
            _ => {},
        }
        if !(self.alu_out == self.alu_out_old) {
            self.on_comb(mgr);
        } else {
            proof {
                lemma_poll_transition_refl(mgr@);
            }
        }
        self.alu_out_old = self.alu_out;
        let _ = try_send(&self.ack_sender, event.event_id);
    }

    /// Take one event received on the `sel` port: decode the payload
    /// into the port slot, fire the combinational callback exactly when
    /// the value changed, sync the previous-value slot, and acknowledge.
    pub fn handle_sel(&mut self, mgr: &mut SimManager, event: SimEvent)
        requires
            old(mgr).wf(),
        ensures
            final(mgr).wf(),
            poll_transition(old(mgr)@, final(mgr)@),
            polled_pc_mux_sel(*old(self), *final(self), old(mgr)@, final(mgr)@, Some(event)),
    {
        match get_inner(&event) {
            Payload::Byte(v) => {
                self.sel = v;
            },
            _ => {},
        }
        if !(self.sel == self.sel_old) {
            self.on_comb(mgr);
        } else {
            proof {
                lemma_poll_transition_refl(mgr@);
            }
        }
        self.sel_old = self.sel;
        let _ = try_send(&self.ack_sender, event.event_id);
    }
}

/// The combinational callback's exact effect on the manager.
pub open spec fn pc_mux_emission(c: PcMux, pre: SimManagerView, post: SimManagerView) -> bool {
    &&& post == pre.with_heap(post.heap).with_next_id(
                wrap_inc(pre.next_id),
            )
    &&& post.heap.to_multiset() == pre.heap.to_multiset().insert(
                task_to(c.out, word_event(
                    pre.next_id,
                    pre.cycle,
                    pc_mux_out(c.sel, c.pc, c.alu_out),
                )),
            )
}

/// What taking one event on the `pc` port leaves behind: with no
/// event, nothing; with one, the decoded payload in the port slot (any
/// other payload kind leaves the slot as it was), the previous-value slot
/// synced, and the combinational callback's emission exactly when the
/// observed value changed.
pub open spec fn polled_pc_mux_pc(
    pre: PcMux,
    post: PcMux,
    pre_m: SimManagerView,
    post_m: SimManagerView,
    polled: Option<SimEvent>,
) -> bool {
    match polled {
        None => post == pre && post_m == pre_m,
        Some(e) => {
            &&& post == (PcMux { pc: post.pc, pc_old: post.pc, ..pre })
            &&& post.pc == (match e.payload {
                Payload::Word(v) => v,
                _ => pre.pc,
            })
            &&& (post.pc != pre.pc_old ==> pc_mux_emission(post, pre_m, post_m))
            &&& (post.pc == pre.pc_old ==> post_m == pre_m)
        },
    }
}

/// What taking one event on the `alu_out` port leaves behind: with no
/// event, nothing; with one, the decoded payload in the port slot (any
/// other payload kind leaves the slot as it was), the previous-value slot
/// synced, and the combinational callback's emission exactly when the
/// observed value changed.
pub open spec fn polled_pc_mux_alu_out(
    pre: PcMux,
    post: PcMux,
    pre_m: SimManagerView,
    post_m: SimManagerView,
    polled: Option<SimEvent>,
) -> bool {
    match polled {
        None => post == pre && post_m == pre_m,
        Some(e) => {
            &&& post == (PcMux { alu_out: post.alu_out, alu_out_old: post.alu_out, ..pre })
            &&& post.alu_out == (match e.payload {
                Payload::Word(v) => v,
                _ => pre.alu_out,
            })
            &&& (post.alu_out != pre.alu_out_old ==> pc_mux_emission(post, pre_m, post_m))
            &&& (post.alu_out == pre.alu_out_old ==> post_m == pre_m)
        },
    }
}

/// What taking one event on the `sel` port leaves behind: with no
/// event, nothing; with one, the decoded payload in the port slot (any
/// other payload kind leaves the slot as it was), the previous-value slot
/// synced, and the combinational callback's emission exactly when the
/// observed value changed.
pub open spec fn polled_pc_mux_sel(
    pre: PcMux,
    post: PcMux,
    pre_m: SimManagerView,
    post_m: SimManagerView,
    polled: Option<SimEvent>,
) -> bool {
    match polled {
        None => post == pre && post_m == pre_m,
        Some(e) => {
            &&& post == (PcMux { sel: post.sel, sel_old: post.sel, ..pre })
            &&& post.sel == (match e.payload {
                Payload::Byte(v) => v,
                _ => pre.sel,
            })
            &&& (post.sel != pre.sel_old ==> pc_mux_emission(post, pre_m, post_m))
            &&& (post.sel == pre.sel_old ==> post_m == pre_m)
        },
    }
}

impl Component for PcMux {
    fn get_component_id(&self) -> ComponentId {
        self.component_id
    }

    fn init(&mut self, mgr: &mut SimManager)
        ensures
            final(mgr)@ == old(mgr)@,
    {
        self.init_impl(mgr);
    }

    fn reset(&mut self) {
        self.reset_impl();
    }

    fn poll_recv(&mut self, mgr: &mut SimManager)
        ensures
            exists|po_pc: Option<SimEvent>, po_alu_out: Option<SimEvent>, po_sel: Option<SimEvent>, cs1: PcMux, cs2: PcMux, mv1: SimManagerView, mv2: SimManagerView|
                #![trigger polled_pc_mux_pc(*old(self), cs1, old(mgr)@, mv1, po_pc), polled_pc_mux_alu_out(cs1, cs2, mv1, mv2, po_alu_out), polled_pc_mux_sel(cs2, *final(self), mv2, final(mgr)@, po_sel)]
                {
                    &&& polled_pc_mux_pc(*old(self), cs1, old(mgr)@, mv1, po_pc)
                    &&& polled_pc_mux_alu_out(cs1, cs2, mv1, mv2, po_alu_out)
                    &&& polled_pc_mux_sel(cs2, *final(self), mv2, final(mgr)@, po_sel)
                },
    {
        self.poll_impl();
        let ghost w0s = *self;
        let ghost w0m = mgr@;
        let ghost mut po_pc: Option<SimEvent> = None;
        match try_recv(&self.pc_receiver) {
            ChannelPoll::Item(event) => {
                proof {
                    po_pc = Some(event);
                }
                self.handle_pc(mgr, event);
            },
            _ => {},
        }
        proof {
            lemma_poll_transition_refl(mgr@);
            lemma_poll_transition_trans(old(mgr)@, w0m, mgr@);
        }
        let ghost w1s = *self;
        let ghost w1m = mgr@;
        let ghost mut po_alu_out: Option<SimEvent> = None;
        match try_recv(&self.alu_out_receiver) {
            ChannelPoll::Item(event) => {
                proof {
                    po_alu_out = Some(event);
                }
                self.handle_alu_out(mgr, event);
            },
            _ => {},
        }
        proof {
            lemma_poll_transition_refl(mgr@);
            lemma_poll_transition_trans(old(mgr)@, w1m, mgr@);
        }
        let ghost w2s = *self;
        let ghost w2m = mgr@;
        let ghost mut po_sel: Option<SimEvent> = None;
        match try_recv(&self.sel_receiver) {
            ChannelPoll::Item(event) => {
                proof {
                    po_sel = Some(event);
                }
                self.handle_sel(mgr, event);
            },
            _ => {},
        }
        proof {
            lemma_poll_transition_refl(mgr@);
            lemma_poll_transition_trans(old(mgr)@, w2m, mgr@);
        }
        proof {
            assert(polled_pc_mux_pc(w0s, w1s, w0m, w1m, po_pc));
            assert(polled_pc_mux_alu_out(w1s, w2s, w1m, w2m, po_alu_out));
            assert(polled_pc_mux_sel(w2s, *self, w2m, mgr@, po_sel));
        }
    }
}

} // verus!
