//! The branch comparator and its second-operand multiplexer.

use crate::backend::event::{byte_event, send_byte, send_word, word_event};
use crate::channel::{try_recv, try_send, ChannelPoll};
use crate::component::{
    lemma_poll_transition_emit, lemma_poll_transition_refl, lemma_poll_transition_trans,
    poll_transition, Component,
};
use crate::event::{get_inner, Payload, SimEvent};
use crate::isa::{
    CMP_MUX_I_IMM, CMP_MUX_RS2_OUT, FUNCT3_BEQ, FUNCT3_BGE, FUNCT3_BGEU, FUNCT3_BLT, FUNCT3_BLTU,
    FUNCT3_BNE,
};
use crate::sim_manager::{SimManager, SimManagerView};
use crate::task::task_to;
use crate::types::{wrap_inc, ComponentId, EventId, Input, Output};
use crate::word::{byte8, unknown_word, word32, Byte, Word};
use vstd::prelude::*;

verus! {

/// Whether the comparison selected by `op` holds of the operands.
/// A comparison on a word with unknown bytes never holds, so the
/// greater-or-equal forms hold by default on unknown operands, mirroring a
/// comparator whose undriven inputs read as equal.
pub open spec fn cmp_taken(op: Byte, a: Word, b: Word) -> bool {
    if op == byte8(FUNCT3_BEQ) {
        a == b
    } else if op == byte8(FUNCT3_BNE) {
        a != b
    } else if op == byte8(FUNCT3_BLT) {
        a.is_known() && b.is_known() && (a.spec_u32() as i32) < (b.spec_u32() as i32)
    } else if op == byte8(FUNCT3_BGE) {
        !(a.is_known() && b.is_known() && (a.spec_u32() as i32) < (b.spec_u32() as i32))
    } else if op == byte8(FUNCT3_BLTU) {
        a.is_known() && b.is_known() && a.spec_u32() < b.spec_u32()
    } else if op == byte8(FUNCT3_BGEU) {
        !(a.is_known() && b.is_known() && a.spec_u32() < b.spec_u32())
    } else {
        false
    }
}

/// Evaluate the selected comparison on port values.
pub fn cmp_compute(op: Byte, a: Word, b: Word) -> (r: bool)
    ensures
        r == cmp_taken(op, a, b),
{
    match op.to_u8() {
        Some(code) => {
            if code == FUNCT3_BEQ {
                a == b
            } else if code == FUNCT3_BNE {
                !(a == b)
            } else if code == FUNCT3_BLT {
                a.lt_signed(b)
            } else if code == FUNCT3_BGE {
                !a.lt_signed(b)
            } else if code == FUNCT3_BLTU {
                a.lt_unsigned(b)
            } else if code == FUNCT3_BGEU {
                !a.lt_unsigned(b)
            } else {
                false
            }
        },
        None => false,
    }
}

/// The comparator: it tells the control unit whether the branch is taken
/// and feeds the same truth value, as a word, to the register-file
/// multiplexer.
pub struct Cmp {
    pub component_id: ComponentId,
    pub ack_sender: crossbeam_channel::Sender<EventId>,
    pub a_receiver: Input,
    pub a: Word,
    pub a_old: Word,
    pub b_receiver: Input,
    pub b: Word,
    pub b_old: Word,
    pub op_receiver: Input,
    pub op: Byte,
    pub op_old: Byte,
    pub out_control: Output,
    pub out_regfile_mux: Output,
}

impl Cmp {
    pub fn new(
        component_id: ComponentId,
        ack_sender: crossbeam_channel::Sender<EventId>,
        a_receiver: Input,
        b_receiver: Input,
        op_receiver: Input,
        out_control: Output,
        out_regfile_mux: Output,
    ) -> (r: Cmp)
        ensures
            r.component_id == component_id,
    {
        Cmp {
            component_id,
            ack_sender,
            a_receiver,
            a: Word::unknown(),
            a_old: Word::unknown(),
            b_receiver,
            b: Word::unknown(),
            b_old: Word::unknown(),
            op_receiver,
            op: Byte::unknown(),
            op_old: Byte::unknown(),
            out_control,
            out_regfile_mux,
        }
    }

    pub fn init_impl(&mut self, mgr: &mut SimManager)
        requires
            old(mgr).wf(),
        ensures
            final(mgr).wf(),
            final(mgr)@ == old(mgr)@,
            *final(self) == *old(self),
    {
    }

    pub fn reset_impl(&mut self)
        ensures
            *final(self) == *old(self),
    {
    }

    pub fn poll_impl(&mut self)
        ensures
            *final(self) == *old(self),
    {
    }

    /// Emit the comparison result: as a byte to the control unit and as a
    /// word to the register-file multiplexer.
    pub fn on_comb(&mut self, mgr: &mut SimManager)
        requires
            old(mgr).wf(),
        ensures
            final(mgr).wf(),
            *final(self) == *old(self),
            poll_transition(old(mgr)@, final(mgr)@),
cmp_emission(*old(self), old(mgr)@, final(mgr)@),
    {
        let taken = cmp_compute(self.op, self.a, self.b);
        let byte_out = if taken { Byte::from(1u8) } else { Byte::from(0u8) };
        let word_out = if taken { Word::from(1u32) } else { Word::from(0u32) };
        let ghost v0 = mgr@;
        send_byte(mgr, &self.out_control, byte_out);
        proof {
            lemma_poll_transition_emit(v0, mgr@, task_to(self.out_control, byte_event(v0.next_id, v0.cycle, byte_out)));
        }
        let ghost v1 = mgr@;
        send_word(mgr, &self.out_regfile_mux, word_out);
        proof {
            lemma_poll_transition_emit(v1, mgr@, task_to(self.out_regfile_mux, word_event(v1.next_id, v1.cycle, word_out)));
            lemma_poll_transition_trans(v0, v1, mgr@);
        }
    }
    /// Take one event received on the `a` port: decode the payload
    /// into the port slot, fire the combinational callback exactly when
    /// the value changed, sync the previous-value slot, and acknowledge.
    pub fn handle_a(&mut self, mgr: &mut SimManager, event: SimEvent)
        requires
            old(mgr).wf(),
        ensures
            final(mgr).wf(),
            poll_transition(old(mgr)@, final(mgr)@),
            polled_cmp_a(*old(self), *final(self), old(mgr)@, final(mgr)@, Some(event)),
    {
        match get_inner(&event) {
            Payload::Word(v) => {
                self.a = v;
            },
            _ => {},
        }
        if !(self.a == self.a_old) {
            self.on_comb(mgr);
        } else {
            proof {
                lemma_poll_transition_refl(mgr@);
            }
        }
        self.a_old = self.a;
        let _ = try_send(&self.ack_sender, event.event_id);
    }

    /// Take one event received on the `b` port: decode the payload
    /// into the port slot, fire the combinational callback exactly when
    /// the value changed, sync the previous-value slot, and acknowledge.
    pub fn handle_b(&mut self, mgr: &mut SimManager, event: SimEvent)
        requires
            old(mgr).wf(),
        ensures
            final(mgr).wf(),
            poll_transition(old(mgr)@, final(mgr)@),
            polled_cmp_b(*old(self), *final(self), old(mgr)@, final(mgr)@, Some(event)),
    {
        match get_inner(&event) {
            Payload::Word(v) => {
                self.b = v;
            },
            _ => {},
        }
        if !(self.b == self.b_old) {
            self.on_comb(mgr);
        } else {
            proof {
                lemma_poll_transition_refl(mgr@);
            }
        }
        self.b_old = self.b;
        let _ = try_send(&self.ack_sender, event.event_id);
    }

    /// Take one event received on the `op` port: decode the payload
    /// into the port slot, fire the combinational callback exactly when
    /// the value changed, sync the previous-value slot, and acknowledge.
    pub fn handle_op(&mut self, mgr: &mut SimManager, event: SimEvent)
        requires
            old(mgr).wf(),
        ensures
            final(mgr).wf(),
            poll_transition(old(mgr)@, final(mgr)@),
            polled_cmp_op(*old(self), *final(self), old(mgr)@, final(mgr)@, Some(event)),
    {
        match get_inner(&event) {
            Payload::Byte(v) => {
                self.op = v;
            },
            _ => {},
        }
        if !(self.op == self.op_old) {
            self.on_comb(mgr);
        } else {
            proof {
                lemma_poll_transition_refl(mgr@);
            }
        }
        self.op_old = self.op;
        let _ = try_send(&self.ack_sender, event.event_id);
    }
}

/// The combinational callback's exact effect on the manager.
pub open spec fn cmp_emission(c: Cmp, pre: SimManagerView, post: SimManagerView) -> bool {
    &&& post == pre.with_heap(post.heap).with_next_id(
                wrap_inc(wrap_inc(pre.next_id)),
            )
    &&& post.heap.to_multiset() == pre.heap.to_multiset().insert(
                task_to(c.out_control, byte_event(
                    pre.next_id,
                    pre.cycle,
                    byte8(if cmp_taken(c.op, c.a, c.b) { 1u8 } else { 0u8 }),
                )),
            ).insert(
                task_to(c.out_regfile_mux, word_event(
                    wrap_inc(pre.next_id),
                    pre.cycle,
                    word32(if cmp_taken(c.op, c.a, c.b) { 1u32 } else { 0u32 }),
                )),
            )
}

/// What taking one event on the `a` port leaves behind: with no
/// event, nothing; with one, the decoded payload in the port slot (any
/// other payload kind leaves the slot as it was), the previous-value slot
/// synced, and the combinational callback's emission exactly when the
/// observed value changed.
pub open spec fn polled_cmp_a(
    pre: Cmp,
    post: Cmp,
    pre_m: SimManagerView,
    post_m: SimManagerView,
    polled: Option<SimEvent>,
) -> bool {
    match polled {
        None => post == pre && post_m == pre_m,
        Some(e) => {
            &&& post == (Cmp { a: post.a, a_old: post.a, ..pre })
            &&& post.a == (match e.payload {
                Payload::Word(v) => v,
                _ => pre.a,
            })
            &&& (post.a != pre.a_old ==> cmp_emission(post, pre_m, post_m))
            &&& (post.a == pre.a_old ==> post_m == pre_m)
        },
    }
}

/// What taking one event on the `b` port leaves behind: with no
/// event, nothing; with one, the decoded payload in the port slot (any
/// other payload kind leaves the slot as it was), the previous-value slot
/// synced, and the combinational callback's emission exactly when the
/// observed value changed.
pub open spec fn polled_cmp_b(
    pre: Cmp,
    post: Cmp,
    pre_m: SimManagerView,
    post_m: SimManagerView,
    polled: Option<SimEvent>,
) -> bool {
    match polled {
        None => post == pre && post_m == pre_m,
        Some(e) => {
            &&& post == (Cmp { b: post.b, b_old: post.b, ..pre })
            &&& post.b == (match e.payload {
                Payload::Word(v) => v,
                _ => pre.b,
            })
            &&& (post.b != pre.b_old ==> cmp_emission(post, pre_m, post_m))
            &&& (post.b == pre.b_old ==> post_m == pre_m)
        },
    }
}

/// What taking one event on the `op` port leaves behind: with no
/// event, nothing; with one, the decoded payload in the port slot (any
/// other payload kind leaves the slot as it was), the previous-value slot
/// synced, and the combinational callback's emission exactly when the
/// observed value changed.
pub open spec fn polled_cmp_op(
    pre: Cmp,
    post: Cmp,
    pre_m: SimManagerView,
    post_m: SimManagerView,
    polled: Option<SimEvent>,
) -> bool {
    match polled {
        None => post == pre && post_m == pre_m,
        Some(e) => {
            &&& post == (Cmp { op: post.op, op_old: post.op, ..pre })
            &&& post.op == (match e.payload {
                Payload::Byte(v) => v,
                _ => pre.op,
            })
            &&& (post.op != pre.op_old ==> cmp_emission(post, pre_m, post_m))
            &&& (post.op == pre.op_old ==> post_m == pre_m)
        },
    }
}

impl Component for Cmp {
    fn get_component_id(&self) -> ComponentId {
        self.component_id
    }

    fn init(&mut self, mgr: &mut SimManager)
        ensures
            final(mgr)@ == old(mgr)@,
    {
        self.init_impl(mgr);
    }

    fn reset(&mut self) {
        self.reset_impl();
    }

    fn poll_recv(&mut self, mgr: &mut SimManager)
        ensures
            exists|po_a: Option<SimEvent>, po_b: Option<SimEvent>, po_op: Option<SimEvent>, cs1: Cmp, cs2: Cmp, mv1: SimManagerView, mv2: SimManagerView|
                #![trigger polled_cmp_a(*old(self), cs1, old(mgr)@, mv1, po_a), polled_cmp_b(cs1, cs2, mv1, mv2, po_b), polled_cmp_op(cs2, *final(self), mv2, final(mgr)@, po_op)]
                {
                    &&& polled_cmp_a(*old(self), cs1, old(mgr)@, mv1, po_a)
                    &&& polled_cmp_b(cs1, cs2, mv1, mv2, po_b)
                    &&& polled_cmp_op(cs2, *final(self), mv2, final(mgr)@, po_op)
                },
    {
        self.poll_impl();
        let ghost w0s = *self;
        let ghost w0m = mgr@;
        let ghost mut po_a: Option<SimEvent> = None;
        match try_recv(&self.a_receiver) {
            ChannelPoll::Item(event) => {
                proof {
                    po_a = Some(event);
                }
                self.handle_a(mgr, event);
            },
            _ => {},
        }
        proof {
            lemma_poll_transition_refl(mgr@);
            lemma_poll_transition_trans(old(mgr)@, w0m, mgr@);
        }
        let ghost w1s = *self;
        let ghost w1m = mgr@;
        let ghost mut po_b: Option<SimEvent> = None;
        match try_recv(&self.b_receiver) {
            ChannelPoll::Item(event) => {
                proof {
                    po_b = Some(event);
                }
                self.handle_b(mgr, event);
            },
            _ => {},
        }
        proof {
            lemma_poll_transition_refl(mgr@);
            lemma_poll_transition_trans(old(mgr)@, w1m, mgr@);
        }
        let ghost w2s = *self;
        let ghost w2m = mgr@;
        let ghost mut po_op: Option<SimEvent> = None;
        match try_recv(&self.op_receiver) {
            ChannelPoll::Item(event) => {
                proof {
                    po_op = Some(event);
                }
                self.handle_op(mgr, event);
            },
            _ => {},
        }
        proof {
            lemma_poll_transition_refl(mgr@);
            lemma_poll_transition_trans(old(mgr)@, w2m, mgr@);
        }
        proof {
            assert(polled_cmp_a(w0s, w1s, w0m, w1m, po_a));
            assert(polled_cmp_b(w1s, w2s, w1m, w2m, po_b));
            assert(polled_cmp_op(w2s, *self, w2m, mgr@, po_op));
        }
    }
}

/// The multiplexer that selects the comparator's second operand.
pub struct CmpMux {
    pub component_id: ComponentId,
    pub ack_sender: crossbeam_channel::Sender<EventId>,
    pub rs2_receiver: Input,
    pub rs2: Word,
    pub rs2_old: Word,
    pub i_imm_receiver: Input,
    pub i_imm: Word,
    pub i_imm_old: Word,
    pub sel_receiver: Input,
    pub sel: Byte,
    pub sel_old: Byte,
    pub out: Output,
}

/// What the comparator-operand multiplexer selects.
pub open spec fn cmp_mux_out(sel: Byte, rs2: Word, i_imm: Word) -> Word {
    if sel == byte8(CMP_MUX_RS2_OUT) {
        rs2
    } else if sel == byte8(CMP_MUX_I_IMM) {
        i_imm
    } else {
        unknown_word()
    }
}

impl CmpMux {
    pub fn new(
        component_id: ComponentId,
        ack_sender: crossbeam_channel::Sender<EventId>,
        rs2_receiver: Input,
        i_imm_receiver: Input,
        sel_receiver: Input,
        out: Output,
    ) -> (r: CmpMux)
        ensures
            r.component_id == component_id,
    {
        CmpMux {
            component_id,
            ack_sender,
            rs2_receiver,
            rs2: Word::unknown(),
            rs2_old: Word::unknown(),
            i_imm_receiver,
            i_imm: Word::unknown(),
            i_imm_old: Word::unknown(),
            sel_receiver,
            sel: Byte::unknown(),
            sel_old: Byte::unknown(),
            out,
        }
    }

    pub fn init_impl(&mut self, mgr: &mut SimManager)
        requires
            old(mgr).wf(),
        ensures
            final(mgr).wf(),
            final(mgr)@ == old(mgr)@,
            *final(self) == *old(self),
    {
    }

    pub fn reset_impl(&mut self)
        ensures
            *final(self) == *old(self),
    {
    }

    pub fn poll_impl(&mut self)
        ensures
            *final(self) == *old(self),
    {
    }

    /// Emit the selected operand.
    pub fn on_comb(&mut self, mgr: &mut SimManager)
        requires
            old(mgr).wf(),
        ensures
            final(mgr).wf(),
            *final(self) == *old(self),
            poll_transition(old(mgr)@, final(mgr)@),
cmp_mux_emission(*old(self), old(mgr)@, final(mgr)@),
    {
        let out = match self.sel.to_u8() {
            Some(s) if s == CMP_MUX_RS2_OUT => self.rs2,
            Some(s) if s == CMP_MUX_I_IMM => self.i_imm,
            _ => Word::unknown(),
        };
        let ghost v0 = mgr@;
        send_word(mgr, &self.out, out);
        proof {
            lemma_poll_transition_emit(v0, mgr@, task_to(self.out, word_event(v0.next_id, v0.cycle, out)));
        }
    }
    /// Take one event received on the `rs2` port: decode the payload
    /// into the port slot, fire the combinational callback exactly when
    /// the value changed, sync the previous-value slot, and acknowledge.
    pub fn handle_rs2(&mut self, mgr: &mut SimManager, event: SimEvent)
        requires
            old(mgr).wf(),
        ensures
            final(mgr).wf(),
            poll_transition(old(mgr)@, final(mgr)@),
            polled_cmp_mux_rs2(*old(self), *final(self), old(mgr)@, final(mgr)@, Some(event)),
    {
        match get_inner(&event) {
            Payload::Word(v) => {
                self.rs2 = v;
            },
            _ => {},
        }
        if !(self.rs2 == self.rs2_old) {
            self.on_comb(mgr);
        } else {
            proof {
                lemma_poll_transition_refl(mgr@);
            }
        }
        self.rs2_old = self.rs2;
        let _ = try_send(&self.ack_sender, event.event_id);
    }

    /// Take one event received on the `i_imm` port: decode the payload
    /// into the port slot, fire the combinational callback exactly when
    /// the value changed, sync the previous-value slot, and acknowledge.
    pub fn handle_i_imm(&mut self, mgr: &mut SimManager, event: SimEvent)
        requires
            old(mgr).wf(),
        ensures
            final(mgr).wf(),
            poll_transition(old(mgr)@, final(mgr)@),
            polled_cmp_mux_i_imm(*old(self), *final(self), old(mgr)@, final(mgr)@, Some(event)),
    {
        match get_inner(&event) {
            Payload::Word(v) => {
                self.i_imm = v;
            },
            _ => {},
        }
        if !(self.i_imm == self.i_imm_old) {
            self.on_comb(mgr);
        } else {
            proof {
                lemma_poll_transition_refl(mgr@);
            }
        }
        self.i_imm_old = self.i_imm;
        let _ = try_send(&self.ack_sender, event.event_id);
    }

    /// Take one event received on the `sel` port: decode the payload
    /// into the port slot, fire the combinational callback exactly when
    /// the value changed, sync the previous-value slot, and acknowledge.
    pub fn handle_sel(&mut self, mgr: &mut SimManager, event: SimEvent)
        requires
            old(mgr).wf(),
        ensures
            final(mgr).wf(),
            poll_transition(old(mgr)@, final(mgr)@),
            polled_cmp_mux_sel(*old(self), *final(self), old(mgr)@, final(mgr)@, Some(event)),
    {
        match get_inner(&event) {
            Payload::Byte(v) => {
                self.sel = v;
            },
            _ => {},
        }
        if !(self.sel == self.sel_old) {
            self.on_comb(mgr);
        } else {
            proof {
                lemma_poll_transition_refl(mgr@);
            }
        }
        self.sel_old = self.sel;
        let _ = try_send(&self.ack_sender, event.event_id);
    }
}

/// The combinational callback's exact effect on the manager.
pub open spec fn cmp_mux_emission(c: CmpMux, pre: SimManagerView, post: SimManagerView) -> bool {
    &&& post == pre.with_heap(post.heap).with_next_id(
                wrap_inc(pre.next_id),
            )
    &&& post.heap.to_multiset() == pre.heap.to_multiset().insert(
                task_to(c.out, word_event(
                    pre.next_id,
                    pre.cycle,
                    cmp_mux_out(c.sel, c.rs2, c.i_imm),
                )),
            )
}

/// What taking one event on the `rs2` port leaves behind: with no
/// event, nothing; with one, the decoded payload in the port slot (any
/// other payload kind leaves the slot as it was), the previous-value slot
/// synced, and the combinational callback's emission exactly when the
/// observed value changed.
pub open spec fn polled_cmp_mux_rs2(
    pre: CmpMux,
    post: CmpMux,
    pre_m: SimManagerView,
    post_m: SimManagerView,
    polled: Option<SimEvent>,
) -> bool {
    match polled {
        None => post == pre && post_m == pre_m,
        Some(e) => {
            &&& post == (CmpMux { rs2: post.rs2, rs2_old: post.rs2, ..pre })
            &&& post.rs2 == (match e.payload {
                Payload::Word(v) => v,
                _ => pre.rs2,
            })
            &&& (post.rs2 != pre.rs2_old ==> cmp_mux_emission(post, pre_m, post_m))
            &&& (post.rs2 == pre.rs2_old ==> post_m == pre_m)
        },
    }
}

/// What taking one event on the `i_imm` port leaves behind: with no
/// event, nothing; with one, the decoded payload in the port slot (any
/// other payload kind leaves the slot as it was), the previous-value slot
/// synced, and the combinational callback's emission exactly when the
/// observed value changed.
pub open spec fn polled_cmp_mux_i_imm(
    pre: CmpMux,
    post: CmpMux,
    pre_m: SimManagerView,
    post_m: SimManagerView,
    polled: Option<SimEvent>,
) -> bool {
    match polled {
        None => post == pre && post_m == pre_m,
        Some(e) => {
            &&& post == (CmpMux { i_imm: post.i_imm, i_imm_old: post.i_imm, ..pre })
            &&& post.i_imm == (match e.payload {
                Payload::Word(v) => v,
                _ => pre.i_imm,
            })
            &&& (post.i_imm != pre.i_imm_old ==> cmp_mux_emission(post, pre_m, post_m))
            &&& (post.i_imm == pre.i_imm_old ==> post_m == pre_m)
        },
    }
}

/// What taking one event on the `sel` port leaves behind: with no
/// event, nothing; with one, the decoded payload in the port slot (any
/// other payload kind leaves the slot as it was), the previous-value slot
/// synced, and the combinational callback's emission exactly when the
/// observed value changed.
pub open spec fn polled_cmp_mux_sel(
    pre: CmpMux,
    post: CmpMux,
    pre_m: SimManagerView,
    post_m: SimManagerView,
    polled: Option<SimEvent>,
) -> bool {
    match polled {
        None => post == pre && post_m == pre_m,
        Some(e) => {
            &&& post == (CmpMux { sel: post.sel, sel_old: post.sel, ..pre })
            &&& post.sel == (match e.payload {
                Payload::Byte(v) => v,
                _ => pre.sel,
            })
            &&& (post.sel != pre.sel_old ==> cmp_mux_emission(post, pre_m, post_m))
            &&& (post.sel == pre.sel_old ==> post_m == pre_m)
        },
    }
}

impl Component for CmpMux {
    fn get_component_id(&self) -> ComponentId {
        self.component_id
    }

    fn init(&mut self, mgr: &mut SimManager)
        ensures
            final(mgr)@ == old(mgr)@,
    {
        self.init_impl(mgr);
    }

    fn reset(&mut self) {
        self.reset_impl();
    }

    fn poll_recv(&mut self, mgr: &mut SimManager)
        ensures
            exists|po_rs2: Option<SimEvent>, po_i_imm: Option<SimEvent>, po_sel: Option<SimEvent>, cs1: CmpMux, cs2: CmpMux, mv1: SimManagerView, mv2: SimManagerView|
                #![trigger polled_cmp_mux_rs2(*old(self), cs1, old(mgr)@, mv1, po_rs2), polled_cmp_mux_i_imm(cs1, cs2, mv1, mv2, po_i_imm), polled_cmp_mux_sel(cs2, *final(self), mv2, final(mgr)@, po_sel)]
                {
                    &&& polled_cmp_mux_rs2(*old(self), cs1, old(mgr)@, mv1, po_rs2)
                    &&& polled_cmp_mux_i_imm(cs1, cs2, mv1, mv2, po_i_imm)
                    &&& polled_cmp_mux_sel(cs2, *final(self), mv2, final(mgr)@, po_sel)
                },
    {
        self.poll_impl();
        let ghost w0s = *self;
        let ghost w0m = mgr@;
        let ghost mut po_rs2: Option<SimEvent> = None;
        match try_recv(&self.rs2_receiver) {
            ChannelPoll::Item(event) => {
                proof {
                    po_rs2 = Some(event);
                }
                self.handle_rs2(mgr, event);
            },
            _ => {},
        }
        proof {
            lemma_poll_transition_refl(mgr@);
            lemma_poll_transition_trans(old(mgr)@, w0m, mgr@);
        }
        let ghost w1s = *self;
        let ghost w1m = mgr@;
        let ghost mut po_i_imm: Option<SimEvent> = None;
        match try_recv(&self.i_imm_receiver) {
            ChannelPoll::Item(event) => {
                proof {
                    po_i_imm = Some(event);
                }
                self.handle_i_imm(mgr, event);
            },
            _ => {},
        }
        proof {
            lemma_poll_transition_refl(mgr@);
            lemma_poll_transition_trans(old(mgr)@, w1m, mgr@);
        }
        let ghost w2s = *self;
        let ghost w2m = mgr@;
        let ghost mut po_sel: Option<SimEvent> = None;
        match try_recv(&self.sel_receiver) {
            ChannelPoll::Item(event) => {
                proof {
                    po_sel = Some(event);
                }
                self.handle_sel(mgr, event);
            },
            _ => {},
        }
        proof {
            lemma_poll_transition_refl(mgr@);
            lemma_poll_transition_trans(old(mgr)@, w2m, mgr@);
        }
        proof {
            assert(polled_cmp_mux_rs2(w0s, w1s, w0m, w1m, po_rs2));
            assert(polled_cmp_mux_i_imm(w1s, w2s, w1m, w2m, po_i_imm));
            assert(polled_cmp_mux_sel(w2s, *self, w2m, mgr@, po_sel));
        }
    }
}

} // verus!
