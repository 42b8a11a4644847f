//! The arithmetic-logic unit and its two operand multiplexers.

use crate::backend::event::{send_word, word_event};
use crate::channel::{try_recv, try_send, ChannelPoll};
use crate::component::{
    lemma_poll_transition_emit, lemma_poll_transition_refl, lemma_poll_transition_trans,
    poll_transition, Component,
};
use crate::event::{get_inner, Payload, SimEvent};
use crate::isa::{
    ALU1_MUX_PC_OUT, ALU1_MUX_RS1_OUT, ALU2_MUX_B_IMM, ALU2_MUX_I_IMM, ALU2_MUX_J_IMM,
    ALU2_MUX_RS2_OUT, ALU2_MUX_S_IMM, ALU2_MUX_U_IMM, ALU_ADD, ALU_AND, ALU_OR, ALU_SLL, ALU_SRA,
    ALU_SRL, ALU_SUB, ALU_XOR,
};
use crate::sim_manager::{SimManager, SimManagerView};
use crate::task::task_to;
use crate::types::{wrap_inc, ComponentId, EventId, Input, Output};
use crate::word::{unknown_word, u32_add, u32_sra, u32_sub, word32, Byte, Word};
use vstd::prelude::*;

verus! {

/// What the ALU computes: the 32-bit machine operation selected by `op`,
/// on fully known operands; anything else yields the unknown word.
pub open spec fn alu_word(op: u8, a: Word, b: Word) -> Word {
    if !(a.is_known() && b.is_known()) {
        unknown_word()
    } else if op == ALU_ADD {
        word32(u32_add(a.spec_u32(), b.spec_u32()))
    } else if op == ALU_SLL {
        word32(a.spec_u32() << ((b.spec_u32() & 0x1f) as u32))
    } else if op == ALU_SRA {
        word32(u32_sra(a.spec_u32(), (b.spec_u32() & 0x1f) as u32))
    } else if op == ALU_SUB {
        word32(u32_sub(a.spec_u32(), b.spec_u32()))
    } else if op == ALU_XOR {
        word32(a.spec_u32() ^ b.spec_u32())
    } else if op == ALU_SRL {
        word32(a.spec_u32() >> ((b.spec_u32() & 0x1f) as u32))
    } else if op == ALU_OR {
        word32(a.spec_u32() | b.spec_u32())
    } else if op == ALU_AND {
        word32(a.spec_u32() & b.spec_u32())
    } else {
        unknown_word()
    }
}

/// The ALU's output for its current port values: unknown unless the
/// operation selector is known.
pub open spec fn alu_out(op: Byte, a: Word, b: Word) -> Word {
    if op.is_known() {
        alu_word(op.spec_u8(), a, b)
    } else {
        unknown_word()
    }
}

/// Compute the ALU function on port values.
pub fn alu_compute(op: Byte, a: Word, b: Word) -> (r: Word)
    ensures
        r == alu_out(op, a, b),
{
    match op.to_u8() {
        Some(code) => {
            if code == ALU_ADD {
                a.add(b)
            } else if code == ALU_SLL {
                let amt = b.and(Word::from(0x1fu32));
                let r = a.shl(amt);
                proof {
                    crate::word::lemma_word32_value(0x1f);
                    if a.is_known() && b.is_known() {
                        let bv = b.spec_u32();
                        crate::word::lemma_word32_value(bv & 0x1f);
                        assert((bv & 0x1f) & 31 == bv & 0x1f) by (bit_vector);
                        assert(bv & 0x1f < 32) by (bit_vector);
                    }
                }
                r
            } else if code == ALU_SRA {
                let amt = b.and(Word::from(0x1fu32));
                let r = a.shra(amt);
                proof {
                    crate::word::lemma_word32_value(0x1f);
                    if a.is_known() && b.is_known() {
                        let bv = b.spec_u32();
                        crate::word::lemma_word32_value(bv & 0x1f);
                        assert((bv & 0x1f) & 31 == bv & 0x1f) by (bit_vector);
                        assert(bv & 0x1f < 32) by (bit_vector);
                    }
                }
                r
            } else if code == ALU_SUB {
                a.sub(b)
            } else if code == ALU_XOR {
                a.xor(b)
            } else if code == ALU_SRL {
                let amt = b.and(Word::from(0x1fu32));
                let r = a.shr(amt);
                proof {
                    crate::word::lemma_word32_value(0x1f);
                    if a.is_known() && b.is_known() {
                        let bv = b.spec_u32();
                        crate::word::lemma_word32_value(bv & 0x1f);
                        assert((bv & 0x1f) & 31 == bv & 0x1f) by (bit_vector);
                        assert(bv & 0x1f < 32) by (bit_vector);
                    }
                }
                r
            } else if code == ALU_OR {
                a.or(b)
            } else if code == ALU_AND {
                a.and(b)
            } else {
                Word::unknown()
            }
        },
        None => Word::unknown(),
    }
}

/// The arithmetic-logic unit: two operand ports, an operation port, and
/// one output fanned out to the program-counter, memory-address and
/// register-file multiplexers.
pub struct Alu {
    pub component_id: ComponentId,
    pub ack_sender: crossbeam_channel::Sender<EventId>,
    pub a_receiver: Input,
    pub a: Word,
    pub a_old: Word,
    pub b_receiver: Input,
    pub b: Word,
    pub b_old: Word,
    pub op_receiver: Input,
    pub op: Byte,
    pub op_old: Byte,
    pub out_pc_mux: Output,
    pub out_mar_mux: Output,
    pub out_regfile_mux: Output,
}

impl Alu {
    pub fn new(
        component_id: ComponentId,
        ack_sender: crossbeam_channel::Sender<EventId>,
        a_receiver: Input,
        b_receiver: Input,
        op_receiver: Input,
        out_pc_mux: Output,
        out_mar_mux: Output,
        out_regfile_mux: Output,
    ) -> (r: Alu)
        ensures
            r.component_id == component_id,
            r.a == unknown_word(),
            r.b == unknown_word(),
            r.op.v is None,
    {
        Alu {
            component_id,
            ack_sender,
            a_receiver,
            a: Word::unknown(),
            a_old: Word::unknown(),
            b_receiver,
            b: Word::unknown(),
            b_old: Word::unknown(),
            op_receiver,
            op: Byte::unknown(),
            op_old: Byte::unknown(),
            out_pc_mux,
            out_mar_mux,
            out_regfile_mux,
        }
    }

    pub fn init_impl(&mut self, mgr: &mut SimManager)
        requires
            old(mgr).wf(),
        ensures
            final(mgr).wf(),
            final(mgr)@ == old(mgr)@,
            *final(self) == *old(self),
    {
    }

    pub fn reset_impl(&mut self)
        ensures
            *final(self) == *old(self),
    {
    }

    pub fn poll_impl(&mut self)
        ensures
            *final(self) == *old(self),
    {
    }

    /// Emit the selected operation's result, three times: once to each
    /// consumer of the ALU output.
    pub fn on_comb(&mut self, mgr: &mut SimManager)
        requires
            old(mgr).wf(),
        ensures
            final(mgr).wf(),
            *final(self) == *old(self),
            poll_transition(old(mgr)@, final(mgr)@),
alu_emission(*old(self), old(mgr)@, final(mgr)@),
    {
        let out = alu_compute(self.op, self.a, self.b);
        let ghost v0 = mgr@;
        send_word(mgr, &self.out_pc_mux, out);
        proof {
            lemma_poll_transition_emit(v0, mgr@, task_to(self.out_pc_mux, word_event(v0.next_id, v0.cycle, out)));
        }
        let ghost v1 = mgr@;
        send_word(mgr, &self.out_mar_mux, out);
        proof {
            lemma_poll_transition_emit(v1, mgr@, task_to(self.out_mar_mux, word_event(v1.next_id, v1.cycle, out)));
            lemma_poll_transition_trans(v0, v1, mgr@);
        }
        let ghost v2 = mgr@;
        send_word(mgr, &self.out_regfile_mux, out);
        proof {
            lemma_poll_transition_emit(v2, mgr@, task_to(self.out_regfile_mux, word_event(v2.next_id, v2.cycle, out)));
            lemma_poll_transition_trans(v0, v2, mgr@);
        }
    }
    /// Take one event received on the `a` port: decode the payload
    /// into the port slot, fire the combinational callback exactly when
    /// the value changed, sync the previous-value slot, and acknowledge.
    pub fn handle_a(&mut self, mgr: &mut SimManager, event: SimEvent)
        requires
            old(mgr).wf(),
        ensures
            final(mgr).wf(),
            poll_transition(old(mgr)@, final(mgr)@),
            polled_alu_a(*old(self), *final(self), old(mgr)@, final(mgr)@, Some(event)),
    {
        match get_inner(&event) {
            Payload::Word(v) => {
                self.a = v;
            },
            _ => {},
        }
        if !(self.a == self.a_old) {
            self.on_comb(mgr);
        } else {
            proof {
                lemma_poll_transition_refl(mgr@);
            }
        }
        self.a_old = self.a;
        let _ = try_send(&self.ack_sender, event.event_id);
    }

    /// Take one event received on the `b` port: decode the payload
    /// into the port slot, fire the combinational callback exactly when
    /// the value changed, sync the previous-value slot, and acknowledge.
    pub fn handle_b(&mut self, mgr: &mut SimManager, event: SimEvent)
        requires
            old(mgr).wf(),
        ensures
            final(mgr).wf(),
            poll_transition(old(mgr)@, final(mgr)@),
            polled_alu_b(*old(self), *final(self), old(mgr)@, final(mgr)@, Some(event)),
    {
        match get_inner(&event) {
            Payload::Word(v) => {
                self.b = v;
            },
            _ => {},
        }
        if !(self.b == self.b_old) {
            self.on_comb(mgr);
        } else {
            proof {
                lemma_poll_transition_refl(mgr@);
            }
        }
        self.b_old = self.b;
        let _ = try_send(&self.ack_sender, event.event_id);
    }

    /// Take one event received on the `op` port: decode the payload
    /// into the port slot, fire the combinational callback exactly when
    /// the value changed, sync the previous-value slot, and acknowledge.
    pub fn handle_op(&mut self, mgr: &mut SimManager, event: SimEvent)
        requires
            old(mgr).wf(),
        ensures
            final(mgr).wf(),
            poll_transition(old(mgr)@, final(mgr)@),
            polled_alu_op(*old(self), *final(self), old(mgr)@, final(mgr)@, Some(event)),
    {
        match get_inner(&event) {
            Payload::Byte(v) => {
                self.op = v;
            },
            _ => {},
        }
        if !(self.op == self.op_old) {
            self.on_comb(mgr);
        } else {
            proof {
                lemma_poll_transition_refl(mgr@);
            }
        }
        self.op_old = self.op;
        let _ = try_send(&self.ack_sender, event.event_id);
    }
}

/// The combinational callback's exact effect on the manager.
pub open spec fn alu_emission(c: Alu, pre: SimManagerView, post: SimManagerView) -> bool {
    &&& post == pre.with_heap(post.heap).with_next_id(
                wrap_inc(wrap_inc(wrap_inc(pre.next_id))),
            )
    &&& post.heap.to_multiset() == pre.heap.to_multiset().insert(
                task_to(c.out_pc_mux, word_event(
                    pre.next_id,
                    pre.cycle,
                    alu_out(c.op, c.a, c.b),
                )),
            ).insert(
                task_to(c.out_mar_mux, word_event(
                    wrap_inc(pre.next_id),
                    pre.cycle,
                    alu_out(c.op, c.a, c.b),
                )),
            ).insert(
                task_to(c.out_regfile_mux, word_event(
                    wrap_inc(wrap_inc(pre.next_id)),
                    pre.cycle,
                    alu_out(c.op, c.a, c.b),
                )),
            )
}

/// What taking one event on the `a` port leaves behind: with no
/// event, nothing; with one, the decoded payload in the port slot (any
/// other payload kind leaves the slot as it was), the previous-value slot
/// synced, and the combinational callback's emission exactly when the
/// observed value changed.
pub open spec fn polled_alu_a(
    pre: Alu,
    post: Alu,
    pre_m: SimManagerView,
    post_m: SimManagerView,
    polled: Option<SimEvent>,
) -> bool {
    match polled {
        None => post == pre && post_m == pre_m,
        Some(e) => {
            &&& post == (Alu { a: post.a, a_old: post.a, ..pre })
            &&& post.a == (match e.payload {
                Payload::Word(v) => v,
                _ => pre.a,
            })
            &&& (post.a != pre.a_old ==> alu_emission(post, pre_m, post_m))
            &&& (post.a == pre.a_old ==> post_m == pre_m)
        },
    }
}

/// What taking one event on the `b` port leaves behind: with no
/// event, nothing; with one, the decoded payload in the port slot (any
/// other payload kind leaves the slot as it was), the previous-value slot
/// synced, and the combinational callback's emission exactly when the
/// observed value changed.
pub open spec fn polled_alu_b(
    pre: Alu,
    post: Alu,
    pre_m: SimManagerView,
    post_m: SimManagerView,
    polled: Option<SimEvent>,
) -> bool {
    match polled {
        None => post == pre && post_m == pre_m,
        Some(e) => {
            &&& post == (Alu { b: post.b, b_old: post.b, ..pre })
            &&& post.b == (match e.payload {
                Payload::Word(v) => v,
                _ => pre.b,
            })
            &&& (post.b != pre.b_old ==> alu_emission(post, pre_m, post_m))
            &&& (post.b == pre.b_old ==> post_m == pre_m)
        },
    }
}

/// What taking one event on the `op` port leaves behind: with no
/// event, nothing; with one, the decoded payload in the port slot (any
/// other payload kind leaves the slot as it was), the previous-value slot
/// synced, and the combinational callback's emission exactly when the
/// observed value changed.
pub open spec fn polled_alu_op(
    pre: Alu,
    post: Alu,
    pre_m: SimManagerView,
    post_m: SimManagerView,
    polled: Option<SimEvent>,
) -> bool {
    match polled {
        None => post == pre && post_m == pre_m,
        Some(e) => {
            &&& post == (Alu { op: post.op, op_old: post.op, ..pre })
            &&& post.op == (match e.payload {
                Payload::Byte(v) => v,
                _ => pre.op,
            })
            &&& (post.op != pre.op_old ==> alu_emission(post, pre_m, post_m))
            &&& (post.op == pre.op_old ==> post_m == pre_m)
        },
    }
}

impl Component for Alu {
    fn get_component_id(&self) -> ComponentId {
        self.component_id
    }

    fn init(&mut self, mgr: &mut SimManager)
        ensures
            final(mgr)@ == old(mgr)@,
    {
        self.init_impl(mgr);
    }

    fn reset(&mut self) {
        self.reset_impl();
    }

    fn poll_recv(&mut self, mgr: &mut SimManager)
        ensures
            exists|po_a: Option<SimEvent>, po_b: Option<SimEvent>, po_op: Option<SimEvent>, cs1: Alu, cs2: Alu, mv1: SimManagerView, mv2: SimManagerView|
#![trigger polled_alu_a(*old(self), cs1, old(mgr)@, mv1, po_a), polled_alu_b(cs1, cs2, mv1, mv2, po_b), polled_alu_op(cs2, *final(self), mv2, final(mgr)@, po_op)]
                {
                    &&& polled_alu_a(*old(self), cs1, old(mgr)@, mv1, po_a)
                    &&& polled_alu_b(cs1, cs2, mv1, mv2, po_b)
                    &&& polled_alu_op(cs2, *final(self), mv2, final(mgr)@, po_op)
                },
    {
        self.poll_impl();
        let ghost w0s = *self;
        let ghost w0m = mgr@;
        let ghost mut po_a: Option<SimEvent> = None;
        match try_recv(&self.a_receiver) {
            ChannelPoll::Item(event) => {
                proof {
                    po_a = Some(event);
                }
                self.handle_a(mgr, event);
            },
            _ => {},
        }
        proof {
            lemma_poll_transition_refl(mgr@);
            lemma_poll_transition_trans(old(mgr)@, w0m, mgr@);
        }
        let ghost w1s = *self;
        let ghost w1m = mgr@;
        let ghost mut po_b: Option<SimEvent> = None;
        match try_recv(&self.b_receiver) {
            ChannelPoll::Item(event) => {
                proof {
                    po_b = Some(event);
                }
                self.handle_b(mgr, event);
            },
            _ => {},
        }
        proof {
            lemma_poll_transition_refl(mgr@);
            lemma_poll_transition_trans(old(mgr)@, w1m, mgr@);
        }
        let ghost w2s = *self;
        let ghost w2m = mgr@;
        let ghost mut po_op: Option<SimEvent> = None;
        match try_recv(&self.op_receiver) {
            ChannelPoll::Item(event) => {
                proof {
                    po_op = Some(event);
                }
                self.handle_op(mgr, event);
            },
            _ => {},
        }
        proof {
            lemma_poll_transition_refl(mgr@);
            lemma_poll_transition_trans(old(mgr)@, w2m, mgr@);
        }
        proof {
            assert(polled_alu_a(w0s, w1s, w0m, w1m, po_a));
            assert(polled_alu_b(w1s, w2s, w1m, w2m, po_b));
            assert(polled_alu_op(w2s, *self, w2m, mgr@, po_op));
        }
    }
}

/// The multiplexer that selects the ALU's first operand.
pub struct AluMux1 {
    pub component_id: ComponentId,
    pub ack_sender: crossbeam_channel::Sender<EventId>,
    pub rs1_receiver: Input,
    pub rs1: Word,
    pub rs1_old: Word,
    pub pc_receiver: Input,
    pub pc: Word,
    pub pc_old: Word,
    pub sel_receiver: Input,
    pub sel: Byte,
    pub sel_old: Byte,
    pub out: Output,
}

/// What the first-operand multiplexer selects.
pub open spec fn alu_mux1_out(sel: Byte, rs1: Word, pc: Word) -> Word {
    if sel == crate::word::byte8(ALU1_MUX_RS1_OUT) {
        rs1
    } else if sel == crate::word::byte8(ALU1_MUX_PC_OUT) {
        pc
    } else {
        unknown_word()
    }
}

impl AluMux1 {
    pub fn new(
        component_id: ComponentId,
        ack_sender: crossbeam_channel::Sender<EventId>,
        rs1_receiver: Input,
        pc_receiver: Input,
        sel_receiver: Input,
        out: Output,
    ) -> (r: AluMux1)
        ensures
            r.component_id == component_id,
            r.sel.v is None,
    {
        AluMux1 {
            component_id,
            ack_sender,
            rs1_receiver,
            rs1: Word::unknown(),
            rs1_old: Word::unknown(),
            pc_receiver,
            pc: Word::unknown(),
            pc_old: Word::unknown(),
            sel_receiver,
            sel: Byte::unknown(),
            sel_old: Byte::unknown(),
            out,
        }
    }

    pub fn init_impl(&mut self, mgr: &mut SimManager)
        requires
            old(mgr).wf(),
        ensures
            final(mgr).wf(),
            final(mgr)@ == old(mgr)@,
            *final(self) == *old(self),
    {
    }

    pub fn reset_impl(&mut self)
        ensures
            *final(self) == *old(self),
    {
    }

    pub fn poll_impl(&mut self)
        ensures
            *final(self) == *old(self),
    {
    }

    /// Emit the selected operand.
    pub fn on_comb(&mut self, mgr: &mut SimManager)
        requires
            old(mgr).wf(),
        ensures
            final(mgr).wf(),
            *final(self) == *old(self),
            poll_transition(old(mgr)@, final(mgr)@),
alu_mux1_emission(*old(self), old(mgr)@, final(mgr)@),
    {
        let out = match self.sel.to_u8() {
            Some(s) if s == ALU1_MUX_RS1_OUT => self.rs1,
            Some(s) if s == ALU1_MUX_PC_OUT => self.pc,
            _ => Word::unknown(),
        };
        let ghost v0 = mgr@;
        send_word(mgr, &self.out, out);
        proof {
            lemma_poll_transition_emit(v0, mgr@, task_to(self.out, word_event(v0.next_id, v0.cycle, out)));
        }
    }
    /// Take one event received on the `rs1` port: decode the payload
    /// into the port slot, fire the combinational callback exactly when
    /// the value changed, sync the previous-value slot, and acknowledge.
    pub fn handle_rs1(&mut self, mgr: &mut SimManager, event: SimEvent)
        requires
            old(mgr).wf(),
        ensures
            final(mgr).wf(),
            poll_transition(old(mgr)@, final(mgr)@),
            polled_alu_mux1_rs1(*old(self), *final(self), old(mgr)@, final(mgr)@, Some(event)),
    {
        match get_inner(&event) {
            Payload::Word(v) => {
                self.rs1 = v;
            },
            _ => {},
        }
        if !(self.rs1 == self.rs1_old) {
            self.on_comb(mgr);
        } else {
            proof {
                lemma_poll_transition_refl(mgr@);
            }
        }
        self.rs1_old = self.rs1;
        let _ = try_send(&self.ack_sender, event.event_id);
    }

    /// Take one event received on the `pc` port: decode the payload
    /// into the port slot, fire the combinational callback exactly when
    /// the value changed, sync the previous-value slot, and acknowledge.
    pub fn handle_pc(&mut self, mgr: &mut SimManager, event: SimEvent)
        requires
            old(mgr).wf(),
        ensures
            final(mgr).wf(),
            poll_transition(old(mgr)@, final(mgr)@),
            polled_alu_mux1_pc(*old(self), *final(self), old(mgr)@, final(mgr)@, Some(event)),
    {
        match get_inner(&event) {
            Payload::Word(v) => {
                self.pc = v;
            },
            _ => {},
        }
        if !(self.pc == self.pc_old) {
            self.on_comb(mgr);
        } else {
            proof {
                lemma_poll_transition_refl(mgr@);
            }
        }
        self.pc_old = self.pc;
        let _ = try_send(&self.ack_sender, event.event_id);
    }

    /// Take one event received on the `sel` port: decode the payload
    /// into the port slot, fire the combinational callback exactly when
    /// the value changed, sync the previous-value slot, and acknowledge.
    pub fn handle_sel(&mut self, mgr: &mut SimManager, event: SimEvent)
        requires
            old(mgr).wf(),
        ensures
            final(mgr).wf(),
            poll_transition(old(mgr)@, final(mgr)@),
            polled_alu_mux1_sel(*old(self), *final(self), old(mgr)@, final(mgr)@, Some(event)),
    {
        match get_inner(&event) {
            Payload::Byte(v) => {
                self.sel = v;
            },
            _ => {},
        }
        if !(self.sel == self.sel_old) {
            self.on_comb(mgr);
        } else {
            proof {
                lemma_poll_transition_refl(mgr@);
            }
        }
        self.sel_old = self.sel;
        let _ = try_send(&self.ack_sender, event.event_id);
    }
}

/// The combinational callback's exact effect on the manager.
pub open spec fn alu_mux1_emission(c: AluMux1, pre: SimManagerView, post: SimManagerView) -> bool {
    &&& post == pre.with_heap(post.heap).with_next_id(
                wrap_inc(pre.next_id),
            )
    &&& post.heap.to_multiset() == pre.heap.to_multiset().insert(
                task_to(c.out, word_event(
                    pre.next_id,
                    pre.cycle,
                    alu_mux1_out(c.sel, c.rs1, c.pc),
                )),
            )
}

/// What taking one event on the `rs1` port leaves behind: with no
/// event, nothing; with one, the decoded payload in the port slot (any
/// other payload kind leaves the slot as it was), the previous-value slot
/// synced, and the combinational callback's emission exactly when the
/// observed value changed.
pub open spec fn polled_alu_mux1_rs1(
    pre: AluMux1,
    post: AluMux1,
    pre_m: SimManagerView,
    post_m: SimManagerView,
    polled: Option<SimEvent>,
) -> bool {
    match polled {
        None => post == pre && post_m == pre_m,
        Some(e) => {
            &&& post == (AluMux1 { rs1: post.rs1, rs1_old: post.rs1, ..pre })
            &&& post.rs1 == (match e.payload {
                Payload::Word(v) => v,
                _ => pre.rs1,
            })
            &&& (post.rs1 != pre.rs1_old ==> alu_mux1_emission(post, pre_m, post_m))
            &&& (post.rs1 == pre.rs1_old ==> post_m == pre_m)
        },
    }
}

/// What taking one event on the `pc` port leaves behind: with no
/// event, nothing; with one, the decoded payload in the port slot (any
/// other payload kind leaves the slot as it was), the previous-value slot
/// synced, and the combinational callback's emission exactly when the
/// observed value changed.
pub open spec fn polled_alu_mux1_pc(
    pre: AluMux1,
    post: AluMux1,
    pre_m: SimManagerView,
    post_m: SimManagerView,
    polled: Option<SimEvent>,
) -> bool {
    match polled {
        None => post == pre && post_m == pre_m,
        Some(e) => {
            &&& post == (AluMux1 { pc: post.pc, pc_old: post.pc, ..pre })
            &&& post.pc == (match e.payload {
                Payload::Word(v) => v,
                _ => pre.pc,
            })
            &&& (post.pc != pre.pc_old ==> alu_mux1_emission(post, pre_m, post_m))
            &&& (post.pc == pre.pc_old ==> post_m == pre_m)
        },
    }
}

/// What taking one event on the `sel` port leaves behind: with no
/// event, nothing; with one, the decoded payload in the port slot (any
/// other payload kind leaves the slot as it was), the previous-value slot
/// synced, and the combinational callback's emission exactly when the
/// observed value changed.
pub open spec fn polled_alu_mux1_sel(
    pre: AluMux1,
    post: AluMux1,
    pre_m: SimManagerView,
    post_m: SimManagerView,
    polled: Option<SimEvent>,
) -> bool {
    match polled {
        None => post == pre && post_m == pre_m,
        Some(e) => {
            &&& post == (AluMux1 { sel: post.sel, sel_old: post.sel, ..pre })
            &&& post.sel == (match e.payload {
                Payload::Byte(v) => v,
                _ => pre.sel,
            })
            &&& (post.sel != pre.sel_old ==> alu_mux1_emission(post, pre_m, post_m))
            &&& (post.sel == pre.sel_old ==> post_m == pre_m)
        },
    }
}

impl Component for AluMux1 {
    fn get_component_id(&self) -> ComponentId {
        self.component_id
    }

    fn init(&mut self, mgr: &mut SimManager)
        ensures
            final(mgr)@ == old(mgr)@,
    {
        self.init_impl(mgr);
    }

    fn reset(&mut self) {
        self.reset_impl();
    }

    fn poll_recv(&mut self, mgr: &mut SimManager)
        ensures
            exists|po_rs1: Option<SimEvent>, po_pc: Option<SimEvent>, po_sel: Option<SimEvent>, cs1: AluMux1, cs2: AluMux1, mv1: SimManagerView, mv2: SimManagerView|
#![trigger polled_alu_mux1_rs1(*old(self), cs1, old(mgr)@, mv1, po_rs1), polled_alu_mux1_pc(cs1, cs2, mv1, mv2, po_pc), polled_alu_mux1_sel(cs2, *final(self), mv2, final(mgr)@, po_sel)]
                {
                    &&& polled_alu_mux1_rs1(*old(self), cs1, old(mgr)@, mv1, po_rs1)
                    &&& polled_alu_mux1_pc(cs1, cs2, mv1, mv2, po_pc)
                    &&& polled_alu_mux1_sel(cs2, *final(self), mv2, final(mgr)@, po_sel)
                },
    {
        self.poll_impl();
        let ghost w0s = *self;
        let ghost w0m = mgr@;
        let ghost mut po_rs1: Option<SimEvent> = None;
        match try_recv(&self.rs1_receiver) {
            ChannelPoll::Item(event) => {
                proof {
                    po_rs1 = Some(event);
                }
                self.handle_rs1(mgr, event);
            },
            _ => {},
        }
        proof {
            lemma_poll_transition_refl(mgr@);
            lemma_poll_transition_trans(old(mgr)@, w0m, mgr@);
        }
        let ghost w1s = *self;
        let ghost w1m = mgr@;
        let ghost mut po_pc: Option<SimEvent> = None;
        match try_recv(&self.pc_receiver) {
            ChannelPoll::Item(event) => {
                proof {
                    po_pc = Some(event);
                }
                self.handle_pc(mgr, event);
            },
            _ => {},
        }
        proof {
            lemma_poll_transition_refl(mgr@);
            lemma_poll_transition_trans(old(mgr)@, w1m, mgr@);
        }
        let ghost w2s = *self;
        let ghost w2m = mgr@;
        let ghost mut po_sel: Option<SimEvent> = None;
        match try_recv(&self.sel_receiver) {
            ChannelPoll::Item(event) => {
                proof {
                    po_sel = Some(event);
                }
                self.handle_sel(mgr, event);
            },
            _ => {},
        }
        proof {
            lemma_poll_transition_refl(mgr@);
            lemma_poll_transition_trans(old(mgr)@, w2m, mgr@);
        }
        proof {
            assert(polled_alu_mux1_rs1(w0s, w1s, w0m, w1m, po_rs1));
            assert(polled_alu_mux1_pc(w1s, w2s, w1m, w2m, po_pc));
            assert(polled_alu_mux1_sel(w2s, *self, w2m, mgr@, po_sel));
        }
    }
}

/// The multiplexer that selects the ALU's second operand.
pub struct AluMux2 {
    pub component_id: ComponentId,
    pub ack_sender: crossbeam_channel::Sender<EventId>,
    pub i_imm_receiver: Input,
    pub i_imm: Word,
    pub i_imm_old: Word,
    pub u_imm_receiver: Input,
    pub u_imm: Word,
    pub u_imm_old: Word,
    pub b_imm_receiver: Input,
    pub b_imm: Word,
    pub b_imm_old: Word,
    pub s_imm_receiver: Input,
    pub s_imm: Word,
    pub s_imm_old: Word,
    pub j_imm_receiver: Input,
    pub j_imm: Word,
    pub j_imm_old: Word,
    pub rs2_receiver: Input,
    pub rs2: Word,
    pub rs2_old: Word,
    pub sel_receiver: Input,
    pub sel: Byte,
    pub sel_old: Byte,
    pub out: Output,
}

/// What the second-operand multiplexer selects.
pub open spec fn alu_mux2_out(
    sel: Byte,
    i_imm: Word,
    u_imm: Word,
    b_imm: Word,
    s_imm: Word,
    j_imm: Word,
    rs2: Word,
) -> Word {
    if sel == crate::word::byte8(ALU2_MUX_I_IMM) {
        i_imm
    } else if sel == crate::word::byte8(ALU2_MUX_U_IMM) {
        u_imm
    } else if sel == crate::word::byte8(ALU2_MUX_B_IMM) {
        b_imm
    } else if sel == crate::word::byte8(ALU2_MUX_S_IMM) {
        s_imm
    } else if sel == crate::word::byte8(ALU2_MUX_J_IMM) {
        j_imm
    } else if sel == crate::word::byte8(ALU2_MUX_RS2_OUT) {
        rs2
    } else {
        unknown_word()
    }
}

impl AluMux2 {
    pub fn new(
        component_id: ComponentId,
        ack_sender: crossbeam_channel::Sender<EventId>,
        i_imm_receiver: Input,
        u_imm_receiver: Input,
        b_imm_receiver: Input,
        s_imm_receiver: Input,
        j_imm_receiver: Input,
        rs2_receiver: Input,
        sel_receiver: Input,
        out: Output,
    ) -> (r: AluMux2)
        ensures
            r.component_id == component_id,
            r.sel.v is None,
    {
        AluMux2 {
            component_id,
            ack_sender,
            i_imm_receiver,
            i_imm: Word::unknown(),
            i_imm_old: Word::unknown(),
            u_imm_receiver,
            u_imm: Word::unknown(),
            u_imm_old: Word::unknown(),
            b_imm_receiver,
            b_imm: Word::unknown(),
            b_imm_old: Word::unknown(),
            s_imm_receiver,
            s_imm: Word::unknown(),
            s_imm_old: Word::unknown(),
            j_imm_receiver,
            j_imm: Word::unknown(),
            j_imm_old: Word::unknown(),
            rs2_receiver,
            rs2: Word::unknown(),
            rs2_old: Word::unknown(),
            sel_receiver,
            sel: Byte::unknown(),
            sel_old: Byte::unknown(),
            out,
        }
    }

    pub fn init_impl(&mut self, mgr: &mut SimManager)
        requires
            old(mgr).wf(),
        ensures
            final(mgr).wf(),
            final(mgr)@ == old(mgr)@,
            *final(self) == *old(self),
    {
    }

    pub fn reset_impl(&mut self)
        ensures
            *final(self) == *old(self),
    {
    }

    pub fn poll_impl(&mut self)
        ensures
            *final(self) == *old(self),
    {
    }

    /// Emit the selected operand.
    pub fn on_comb(&mut self, mgr: &mut SimManager)
        requires
            old(mgr).wf(),
        ensures
            final(mgr).wf(),
            *final(self) == *old(self),
            poll_transition(old(mgr)@, final(mgr)@),
alu_mux2_emission(*old(self), old(mgr)@, final(mgr)@),
    {
        let out = match self.sel.to_u8() {
            Some(s) if s == ALU2_MUX_I_IMM => self.i_imm,
            Some(s) if s == ALU2_MUX_U_IMM => self.u_imm,
            Some(s) if s == ALU2_MUX_B_IMM => self.b_imm,
            Some(s) if s == ALU2_MUX_S_IMM => self.s_imm,
            Some(s) if s == ALU2_MUX_J_IMM => self.j_imm,
            Some(s) if s == ALU2_MUX_RS2_OUT => self.rs2,
            _ => Word::unknown(),
        };
        let ghost v0 = mgr@;
        send_word(mgr, &self.out, out);
        proof {
            lemma_poll_transition_emit(v0, mgr@, task_to(self.out, word_event(v0.next_id, v0.cycle, out)));
        }
    }
    /// Take one event received on the `i_imm` port: decode the payload
    /// into the port slot, fire the combinational callback exactly when
    /// the value changed, sync the previous-value slot, and acknowledge.
    pub fn handle_i_imm(&mut self, mgr: &mut SimManager, event: SimEvent)
        requires
            old(mgr).wf(),
        ensures
            final(mgr).wf(),
            poll_transition(old(mgr)@, final(mgr)@),
            polled_alu_mux2_i_imm(*old(self), *final(self), old(mgr)@, final(mgr)@, Some(event)),
    {
        match get_inner(&event) {
            Payload::Word(v) => {
                self.i_imm = v;
            },
            _ => {},
        }
        if !(self.i_imm == self.i_imm_old) {
            self.on_comb(mgr);
        } else {
            proof {
                lemma_poll_transition_refl(mgr@);
            }
        }
        self.i_imm_old = self.i_imm;
        let _ = try_send(&self.ack_sender, event.event_id);
    }

    /// Take one event received on the `u_imm` port: decode the payload
    /// into the port slot, fire the combinational callback exactly when
    /// the value changed, sync the previous-value slot, and acknowledge.
    pub fn handle_u_imm(&mut self, mgr: &mut SimManager, event: SimEvent)
        requires
            old(mgr).wf(),
        ensures
            final(mgr).wf(),
            poll_transition(old(mgr)@, final(mgr)@),
            polled_alu_mux2_u_imm(*old(self), *final(self), old(mgr)@, final(mgr)@, Some(event)),
    {
        match get_inner(&event) {
            Payload::Word(v) => {
                self.u_imm = v;
            },
            _ => {},
        }
        if !(self.u_imm == self.u_imm_old) {
            self.on_comb(mgr);
        } else {
            proof {
                lemma_poll_transition_refl(mgr@);
            }
        }
        self.u_imm_old = self.u_imm;
        let _ = try_send(&self.ack_sender, event.event_id);
    }

    /// Take one event received on the `b_imm` port: decode the payload
    /// into the port slot, fire the combinational callback exactly when
    /// the value changed, sync the previous-value slot, and acknowledge.
    pub fn handle_b_imm(&mut self, mgr: &mut SimManager, event: SimEvent)
        requires
            old(mgr).wf(),
        ensures
            final(mgr).wf(),
            poll_transition(old(mgr)@, final(mgr)@),
            polled_alu_mux2_b_imm(*old(self), *final(self), old(mgr)@, final(mgr)@, Some(event)),
    {
        match get_inner(&event) {
            Payload::Word(v) => {
                self.b_imm = v;
            },
            _ => {},
        }
        if !(self.b_imm == self.b_imm_old) {
            self.on_comb(mgr);
        } else {
            proof {
                lemma_poll_transition_refl(mgr@);
            }
        }
        self.b_imm_old = self.b_imm;
        let _ = try_send(&self.ack_sender, event.event_id);
    }

    /// Take one event received on the `s_imm` port: decode the payload
    /// into the port slot, fire the combinational callback exactly when
    /// the value changed, sync the previous-value slot, and acknowledge.
    pub fn handle_s_imm(&mut self, mgr: &mut SimManager, event: SimEvent)
        requires
            old(mgr).wf(),
        ensures
            final(mgr).wf(),
            poll_transition(old(mgr)@, final(mgr)@),
            polled_alu_mux2_s_imm(*old(self), *final(self), old(mgr)@, final(mgr)@, Some(event)),
    {
        match get_inner(&event) {
            Payload::Word(v) => {
                self.s_imm = v;
            },
            _ => {},
        }
        if !(self.s_imm == self.s_imm_old) {
            self.on_comb(mgr);
        } else {
            proof {
                lemma_poll_transition_refl(mgr@);
            }
        }
        self.s_imm_old = self.s_imm;
        let _ = try_send(&self.ack_sender, event.event_id);
    }

    /// Take one event received on the `j_imm` port: decode the payload
    /// into the port slot, fire the combinational callback exactly when
    /// the value changed, sync the previous-value slot, and acknowledge.
    pub fn handle_j_imm(&mut self, mgr: &mut SimManager, event: SimEvent)
        requires
            old(mgr).wf(),
        ensures
            final(mgr).wf(),
            poll_transition(old(mgr)@, final(mgr)@),
            polled_alu_mux2_j_imm(*old(self), *final(self), old(mgr)@, final(mgr)@, Some(event)),
    {
        match get_inner(&event) {
            Payload::Word(v) => {
                self.j_imm = v;
            },
            _ => {},
        }
        if !(self.j_imm == self.j_imm_old) {
            self.on_comb(mgr);
        } else {
            proof {
                lemma_poll_transition_refl(mgr@);
            }
        }
        self.j_imm_old = self.j_imm;
        let _ = try_send(&self.ack_sender, event.event_id);
    }

    /// Take one event received on the `rs2` port: decode the payload
    /// into the port slot, fire the combinational callback exactly when
    /// the value changed, sync the previous-value slot, and acknowledge.
    pub fn handle_rs2(&mut self, mgr: &mut SimManager, event: SimEvent)
        requires
            old(mgr).wf(),
        ensures
            final(mgr).wf(),
            poll_transition(old(mgr)@, final(mgr)@),
            polled_alu_mux2_rs2(*old(self), *final(self), old(mgr)@, final(mgr)@, Some(event)),
    {
        match get_inner(&event) {
            Payload::Word(v) => {
                self.rs2 = v;
            },
            _ => {},
        }
        if !(self.rs2 == self.rs2_old) {
            self.on_comb(mgr);
        } else {
            proof {
                lemma_poll_transition_refl(mgr@);
            }
        }
        self.rs2_old = self.rs2;
        let _ = try_send(&self.ack_sender, event.event_id);
    }

    /// Take one event received on the `sel` port: decode the payload
    /// into the port slot, fire the combinational callback exactly when
    /// the value changed, sync the previous-value slot, and acknowledge.
    pub fn handle_sel(&mut self, mgr: &mut SimManager, event: SimEvent)
        requires
            old(mgr).wf(),
        ensures
            final(mgr).wf(),
            poll_transition(old(mgr)@, final(mgr)@),
            polled_alu_mux2_sel(*old(self), *final(self), old(mgr)@, final(mgr)@, Some(event)),
    {
        match get_inner(&event) {
            Payload::Byte(v) => {
                self.sel = v;
            },
            _ => {},
        }
        if !(self.sel == self.sel_old) {
            self.on_comb(mgr);
        } else {
            proof {
                lemma_poll_transition_refl(mgr@);
            }
        }
        self.sel_old = self.sel;
        let _ = try_send(&self.ack_sender, event.event_id);
    }
}

/// The combinational callback's exact effect on the manager.
pub open spec fn alu_mux2_emission(c: AluMux2, pre: SimManagerView, post: SimManagerView) -> bool {
    &&& post == pre.with_heap(post.heap).with_next_id(
                wrap_inc(pre.next_id),
            )
    &&& post.heap.to_multiset() == pre.heap.to_multiset().insert(
                task_to(c.out, word_event(
                    pre.next_id,
                    pre.cycle,
                    alu_mux2_out(
                        c.sel,
                        c.i_imm,
                        c.u_imm,
                        c.b_imm,
                        c.s_imm,
                        c.j_imm,
                        c.rs2,
                    ),
                )),
            )
}

/// What taking one event on the `i_imm` port leaves behind: with no
/// event, nothing; with one, the decoded payload in the port slot (any
/// other payload kind leaves the slot as it was), the previous-value slot
/// synced, and the combinational callback's emission exactly when the
/// observed value changed.
pub open spec fn polled_alu_mux2_i_imm(
    pre: AluMux2,
    post: AluMux2,
    pre_m: SimManagerView,
    post_m: SimManagerView,
    polled: Option<SimEvent>,
) -> bool {
    match polled {
        None => post == pre && post_m == pre_m,
        Some(e) => {
            &&& post == (AluMux2 { i_imm: post.i_imm, i_imm_old: post.i_imm, ..pre })
            &&& post.i_imm == (match e.payload {
                Payload::Word(v) => v,
                _ => pre.i_imm,
            })
            &&& (post.i_imm != pre.i_imm_old ==> alu_mux2_emission(post, pre_m, post_m))
            &&& (post.i_imm == pre.i_imm_old ==> post_m == pre_m)
        },
    }
}

/// What taking one event on the `u_imm` port leaves behind: with no
/// event, nothing; with one, the decoded payload in the port slot (any
/// other payload kind leaves the slot as it was), the previous-value slot
/// synced, and the combinational callback's emission exactly when the
/// observed value changed.
pub open spec fn polled_alu_mux2_u_imm(
    pre: AluMux2,
    post: AluMux2,
    pre_m: SimManagerView,
    post_m: SimManagerView,
    polled: Option<SimEvent>,
) -> bool {
    match polled {
        None => post == pre && post_m == pre_m,
        Some(e) => {
            &&& post == (AluMux2 { u_imm: post.u_imm, u_imm_old: post.u_imm, ..pre })
            &&& post.u_imm == (match e.payload {
                Payload::Word(v) => v,
                _ => pre.u_imm,
            })
            &&& (post.u_imm != pre.u_imm_old ==> alu_mux2_emission(post, pre_m, post_m))
            &&& (post.u_imm == pre.u_imm_old ==> post_m == pre_m)
        },
    }
}

/// What taking one event on the `b_imm` port leaves behind: with no
/// event, nothing; with one, the decoded payload in the port slot (any
/// other payload kind leaves the slot as it was), the previous-value slot
/// synced, and the combinational callback's emission exactly when the
/// observed value changed.
pub open spec fn polled_alu_mux2_b_imm(
    pre: AluMux2,
    post: AluMux2,
    pre_m: SimManagerView,
    post_m: SimManagerView,
    polled: Option<SimEvent>,
) -> bool {
    match polled {
        None => post == pre && post_m == pre_m,
        Some(e) => {
            &&& post == (AluMux2 { b_imm: post.b_imm, b_imm_old: post.b_imm, ..pre })
            &&& post.b_imm == (match e.payload {
                Payload::Word(v) => v,
                _ => pre.b_imm,
            })
            &&& (post.b_imm != pre.b_imm_old ==> alu_mux2_emission(post, pre_m, post_m))
            &&& (post.b_imm == pre.b_imm_old ==> post_m == pre_m)
        },
    }
}

/// What taking one event on the `s_imm` port leaves behind: with no
/// event, nothing; with one, the decoded payload in the port slot (any
/// other payload kind leaves the slot as it was), the previous-value slot
/// synced, and the combinational callback's emission exactly when the
/// observed value changed.
pub open spec fn polled_alu_mux2_s_imm(
    pre: AluMux2,
    post: AluMux2,
    pre_m: SimManagerView,
    post_m: SimManagerView,
    polled: Option<SimEvent>,
) -> bool {
    match polled {
        None => post == pre && post_m == pre_m,
        Some(e) => {
            &&& post == (AluMux2 { s_imm: post.s_imm, s_imm_old: post.s_imm, ..pre })
            &&& post.s_imm == (match e.payload {
                Payload::Word(v) => v,
                _ => pre.s_imm,
            })
            &&& (post.s_imm != pre.s_imm_old ==> alu_mux2_emission(post, pre_m, post_m))
            &&& (post.s_imm == pre.s_imm_old ==> post_m == pre_m)
        },
    }
}

/// What taking one event on the `j_imm` port leaves behind: with no
/// event, nothing; with one, the decoded payload in the port slot (any
/// other payload kind leaves the slot as it was), the previous-value slot
/// synced, and the combinational callback's emission exactly when the
/// observed value changed.
pub open spec fn polled_alu_mux2_j_imm(
    pre: AluMux2,
    post: AluMux2,
    pre_m: SimManagerView,
    post_m: SimManagerView,
    polled: Option<SimEvent>,
) -> bool {
    match polled {
        None => post == pre && post_m == pre_m,
        Some(e) => {
            &&& post == (AluMux2 { j_imm: post.j_imm, j_imm_old: post.j_imm, ..pre })
            &&& post.j_imm == (match e.payload {
                Payload::Word(v) => v,
                _ => pre.j_imm,
            })
            &&& (post.j_imm != pre.j_imm_old ==> alu_mux2_emission(post, pre_m, post_m))
            &&& (post.j_imm == pre.j_imm_old ==> post_m == pre_m)
        },
    }
}

/// What taking one event on the `rs2` port leaves behind: with no
/// event, nothing; with one, the decoded payload in the port slot (any
/// other payload kind leaves the slot as it was), the previous-value slot
/// synced, and the combinational callback's emission exactly when the
/// observed value changed.
pub open spec fn polled_alu_mux2_rs2(
    pre: AluMux2,
    post: AluMux2,
    pre_m: SimManagerView,
    post_m: SimManagerView,
    polled: Option<SimEvent>,
) -> bool {
    match polled {
        None => post == pre && post_m == pre_m,
        Some(e) => {
            &&& post == (AluMux2 { rs2: post.rs2, rs2_old: post.rs2, ..pre })
            &&& post.rs2 == (match e.payload {
                Payload::Word(v) => v,
                _ => pre.rs2,
            })
            &&& (post.rs2 != pre.rs2_old ==> alu_mux2_emission(post, pre_m, post_m))
            &&& (post.rs2 == pre.rs2_old ==> post_m == pre_m)
        },
    }
}

/// What taking one event on the `sel` port leaves behind: with no
/// event, nothing; with one, the decoded payload in the port slot (any
/// other payload kind leaves the slot as it was), the previous-value slot
/// synced, and the combinational callback's emission exactly when the
/// observed value changed.
pub open spec fn polled_alu_mux2_sel(
    pre: AluMux2,
    post: AluMux2,
    pre_m: SimManagerView,
    post_m: SimManagerView,
    polled: Option<SimEvent>,
) -> bool {
    match polled {
        None => post == pre && post_m == pre_m,
        Some(e) => {
            &&& post == (AluMux2 { sel: post.sel, sel_old: post.sel, ..pre })
            &&& post.sel == (match e.payload {
                Payload::Byte(v) => v,
                _ => pre.sel,
            })
            &&& (post.sel != pre.sel_old ==> alu_mux2_emission(post, pre_m, post_m))
            &&& (post.sel == pre.sel_old ==> post_m == pre_m)
        },
    }
}

impl Component for AluMux2 {
    fn get_component_id(&self) -> ComponentId {
        self.component_id
    }

    fn init(&mut self, mgr: &mut SimManager)
        ensures
            final(mgr)@ == old(mgr)@,
    {
        self.init_impl(mgr);
    }

    fn reset(&mut self) {
        self.reset_impl();
    }

    fn poll_recv(&mut self, mgr: &mut SimManager)
        ensures
            exists|po_i_imm: Option<SimEvent>, po_u_imm: Option<SimEvent>, po_b_imm: Option<SimEvent>, po_s_imm: Option<SimEvent>, po_j_imm: Option<SimEvent>, po_rs2: Option<SimEvent>, po_sel: Option<SimEvent>, cs1: AluMux2, cs2: AluMux2, cs3: AluMux2, cs4: AluMux2, cs5: AluMux2, cs6: AluMux2, mv1: SimManagerView, mv2: SimManagerView, mv3: SimManagerView, mv4: SimManagerView, mv5: SimManagerView, mv6: SimManagerView|
#![trigger polled_alu_mux2_i_imm(*old(self), cs1, old(mgr)@, mv1, po_i_imm), polled_alu_mux2_u_imm(cs1, cs2, mv1, mv2, po_u_imm), polled_alu_mux2_b_imm(cs2, cs3, mv2, mv3, po_b_imm), polled_alu_mux2_s_imm(cs3, cs4, mv3, mv4, po_s_imm), polled_alu_mux2_j_imm(cs4, cs5, mv4, mv5, po_j_imm), polled_alu_mux2_rs2(cs5, cs6, mv5, mv6, po_rs2), polled_alu_mux2_sel(cs6, *final(self), mv6, final(mgr)@, po_sel)]
                {
                    &&& polled_alu_mux2_i_imm(*old(self), cs1, old(mgr)@, mv1, po_i_imm)
                    &&& polled_alu_mux2_u_imm(cs1, cs2, mv1, mv2, po_u_imm)
                    &&& polled_alu_mux2_b_imm(cs2, cs3, mv2, mv3, po_b_imm)
                    &&& polled_alu_mux2_s_imm(cs3, cs4, mv3, mv4, po_s_imm)
                    &&& polled_alu_mux2_j_imm(cs4, cs5, mv4, mv5, po_j_imm)
                    &&& polled_alu_mux2_rs2(cs5, cs6, mv5, mv6, po_rs2)
                    &&& polled_alu_mux2_sel(cs6, *final(self), mv6, final(mgr)@, po_sel)
                },
    {
        self.poll_impl();
        let ghost w0s = *self;
        let ghost w0m = mgr@;
        let ghost mut po_i_imm: Option<SimEvent> = None;
        match try_recv(&self.i_imm_receiver) {
            ChannelPoll::Item(event) => {
                proof {
                    po_i_imm = Some(event);
                }
                self.handle_i_imm(mgr, event);
            },
            _ => {},
        }
        proof {
            lemma_poll_transition_refl(mgr@);
            lemma_poll_transition_trans(old(mgr)@, w0m, mgr@);
        }
        let ghost w1s = *self;
        let ghost w1m = mgr@;
        let ghost mut po_u_imm: Option<SimEvent> = None;
        match try_recv(&self.u_imm_receiver) {
            ChannelPoll::Item(event) => {
                proof {
                    po_u_imm = Some(event);
                }
                self.handle_u_imm(mgr, event);
            },
            _ => {},
        }
        proof {
            lemma_poll_transition_refl(mgr@);
            lemma_poll_transition_trans(old(mgr)@, w1m, mgr@);
        }
        let ghost w2s = *self;
        let ghost w2m = mgr@;
        let ghost mut po_b_imm: Option<SimEvent> = None;
        match try_recv(&self.b_imm_receiver) {
            ChannelPoll::Item(event) => {
                proof {
                    po_b_imm = Some(event);
                }
                self.handle_b_imm(mgr, event);
            },
            _ => {},
        }
        proof {
            lemma_poll_transition_refl(mgr@);
            lemma_poll_transition_trans(old(mgr)@, w2m, mgr@);
        }
        let ghost w3s = *self;
        let ghost w3m = mgr@;
        let ghost mut po_s_imm: Option<SimEvent> = None;
        match try_recv(&self.s_imm_receiver) {
            ChannelPoll::Item(event) => {
                proof {
                    po_s_imm = Some(event);
                }
                self.handle_s_imm(mgr, event);
            },
            _ => {},
        }
        proof {
            lemma_poll_transition_refl(mgr@);
            lemma_poll_transition_trans(old(mgr)@, w3m, mgr@);
        }
        let ghost w4s = *self;
        let ghost w4m = mgr@;
        let ghost mut po_j_imm: Option<SimEvent> = None;
        match try_recv(&self.j_imm_receiver) {
            ChannelPoll::Item(event) => {
                proof {
                    po_j_imm = Some(event);
                }
                self.handle_j_imm(mgr, event);
            },
            _ => {},
        }
        proof {
            lemma_poll_transition_refl(mgr@);
            lemma_poll_transition_trans(old(mgr)@, w4m, mgr@);
        }
        let ghost w5s = *self;
        let ghost w5m = mgr@;
        let ghost mut po_rs2: Option<SimEvent> = None;
        match try_recv(&self.rs2_receiver) {
            ChannelPoll::Item(event) => {
                proof {
                    po_rs2 = Some(event);
                }
                self.handle_rs2(mgr, event);
            },
            _ => {},
        }
        proof {
            lemma_poll_transition_refl(mgr@);
            lemma_poll_transition_trans(old(mgr)@, w5m, mgr@);
        }
        let ghost w6s = *self;
        let ghost w6m = mgr@;
        let ghost mut po_sel: Option<SimEvent> = None;
        match try_recv(&self.sel_receiver) {
            ChannelPoll::Item(event) => {
                proof {
                    po_sel = Some(event);
                }
                self.handle_sel(mgr, event);
            },
            _ => {},
        }
        proof {
            lemma_poll_transition_refl(mgr@);
            lemma_poll_transition_trans(old(mgr)@, w6m, mgr@);
        }
        proof {
            assert(polled_alu_mux2_i_imm(w0s, w1s, w0m, w1m, po_i_imm));
            assert(polled_alu_mux2_u_imm(w1s, w2s, w1m, w2m, po_u_imm));
            assert(polled_alu_mux2_b_imm(w2s, w3s, w2m, w3m, po_b_imm));
            assert(polled_alu_mux2_s_imm(w3s, w4s, w3m, w4m, po_s_imm));
            assert(polled_alu_mux2_j_imm(w4s, w5s, w4m, w5m, po_j_imm));
            assert(polled_alu_mux2_rs2(w5s, w6s, w5m, w6m, po_rs2));
            assert(polled_alu_mux2_sel(w6s, *self, w6m, mgr@, po_sel));
        }
    }
}

} // verus!
