//! The register file: thirty-two 32-bit registers with register zero
//! hard-wired to zero, and the write-back multiplexer that feeds it.

use crate::backend::event::{send_word, word_event};
use crate::channel::{new_channel, try_recv, try_send, ChannelPoll};
use crate::component::{
    lemma_poll_transition_emit, lemma_poll_transition_refl, lemma_poll_transition_trans,
    poll_transition, Component,
};
use crate::event::{get_inner, Payload, SimEvent};
use crate::isa::{
    REGFILE_MUX_ALU_OUT, REGFILE_MUX_BR_EN, REGFILE_MUX_LB, REGFILE_MUX_LBU, REGFILE_MUX_LH,
    REGFILE_MUX_LHU, REGFILE_MUX_LW, REGFILE_MUX_PC_PLUS4, REGFILE_MUX_U_IMM,
};
use crate::sim_manager::{SimManager, SimManagerView};
use crate::task::task_to;
use crate::types::{wrap_inc, ComponentId, EventId, Input, Output};
use crate::word::{
    byte8, sign_extend, sign_extend_spec, u32_add, unknown_word, word32, Byte, Word,
};
use vstd::prelude::*;

verus! {

/// What a register read yields: register zero reads as zero, a known
/// nonzero index reads the register, an unknown or out-of-range index
/// reads as unknown.
pub open spec fn reg_read(regs: Seq<Word>, index: Byte) -> Word {
    if index.is_known() {
        if index.spec_u8() == 0 {
            word32(0)
        } else if index.spec_u8() < 32 {
            regs[index.spec_u8() as int]
        } else {
            unknown_word()
        }
    } else {
        unknown_word()
    }
}

/// A register bank after a write: a known nonzero in-range index updates
/// its register; anything else changes nothing (register zero cannot be
/// written).
pub open spec fn reg_write(regs: Seq<Word>, index: Byte, value: Word) -> Seq<Word> {
    if index.is_known() && index.spec_u8() != 0 && index.spec_u8() < 32 {
        regs.update(index.spec_u8() as int, value)
    } else {
        regs
    }
}

/// Thirty-two registers; register zero always reads as zero.
pub struct Registers {
    data: Vec<Word>,
}

impl View for Registers {
    type V = Seq<Word>;

    closed spec fn view(&self) -> Seq<Word> {
        self.data@
    }
}

impl Registers {
    /// The bank always holds exactly thirty-two registers.
    #[verifier::type_invariant]
    closed spec fn inv(&self) -> bool {
        self@.len() == 32
    }

    /// The bank holds exactly thirty-two registers: the fact callers need
    /// to use the pointwise consequences of a write.
    pub fn len(&self) -> (r: usize)
        ensures
            r == 32,
            self@.len() == 32,
    {
        proof {
            use_type_invariant(&*self);
        }
        32
    }

    /// Read a register.
    pub fn read(&self, index: Byte) -> (r: Word)
        ensures
            r == reg_read(self@, index),
    {
        proof {
            use_type_invariant(&*self);
        }
        match index.to_u8() {
            Some(idx) => {
                if idx == 0 {
                    Word::zeros()
                } else if idx < 32 {
                    self.data[idx as usize]
                } else {
                    Word::unknown()
                }
            },
            None => Word::unknown(),
        }
    }

    /// Write a register; register zero and out-of-range or unknown
    /// indexes are left alone.
    pub fn write(&mut self, index: Byte, value: Word)
        ensures
            final(self)@ == reg_write(old(self)@, index, value),
    {
        proof {
            use_type_invariant(&*self);
        }
        match index.to_u8() {
            Some(idx) => {
                if idx != 0 && idx < 32 {
                    self.data[idx as usize] = value;
                }
            },
            None => {},
        }
    }

    /// Clear every register to unknown but register zero, which is zero.
    pub fn reset(&mut self)
        ensures
            final(self)@.len() == 32,
            final(self)@[0] == word32(0),
            forall|i: int| 1 <= i < 32 ==> final(self)@[i] == unknown_word(),
    {
        let mut data: Vec<Word> = Vec::new();
        data.push(Word::zeros());
        let mut i: usize = 1;
        while i < 32
            invariant
                1 <= i <= 32,
                data@.len() == i,
                data@[0] == word32(0),
                forall|j: int| 1 <= j < i ==> data@[j] == unknown_word(),
            decreases 32 - i,
        {
            data.push(Word::unknown());
            i += 1;
        }
        self.data = data;
    }
}

impl Default for Registers {
    /// A fresh bank with every register zero.
    fn default() -> (r: Registers)
        ensures
            r@.len() == 32,
            forall|i: int| 0 <= i < 32 ==> r@[i] == word32(0),
    {
        let mut data: Vec<Word> = Vec::new();
        let mut i: usize = 0;
        while i < 32
            invariant
                i <= 32,
                data@.len() == i,
                forall|j: int| 0 <= j < i ==> data@[j] == word32(0),
            decreases 32 - i,
        {
            data.push(Word::zeros());
            i += 1;
        }
        Registers { data }
    }
}

/// The register-file component.
pub struct RegFile {
    pub registers: Registers,
    pub component_id: ComponentId,
    pub ack_sender: crossbeam_channel::Sender<EventId>,
    pub clock_sender: Output,
    pub clock_receiver: Input,
    pub rs1_idx_receiver: Input,
    pub rs1_idx: Byte,
    pub rs1_idx_old: Byte,
    pub rs2_idx_receiver: Input,
    pub rs2_idx: Byte,
    pub rs2_idx_old: Byte,
    pub rd_wr_receiver: Input,
    pub rd_wr: Byte,
    pub rd_wr_old: Byte,
    pub rd_idx_receiver: Input,
    pub rd_idx: Byte,
    pub rd_idx_old: Byte,
    pub rd_data_receiver: Input,
    pub rd_data: Word,
    pub rd_data_old: Word,
    pub rs1_data_alu_mux1: Output,
    pub rs1_data_cmp: Output,
    pub rs2_data_alu_mux2: Output,
    pub rs2_data_cmp_mux: Output,
    pub rs2_data_data_out: Output,
}

impl RegFile {
    pub fn new(
        component_id: ComponentId,
        ack_sender: crossbeam_channel::Sender<EventId>,
        rs1_idx_receiver: Input,
        rs2_idx_receiver: Input,
        rd_wr_receiver: Input,
        rd_idx_receiver: Input,
        rd_data_receiver: Input,
        rs1_data_alu_mux1: Output,
        rs1_data_cmp: Output,
        rs2_data_alu_mux2: Output,
        rs2_data_cmp_mux: Output,
        rs2_data_data_out: Output,
    ) -> (r: RegFile)
        ensures
            r.component_id == component_id,
            forall|i: int| 0 <= i < 32 ==> r.registers@[i] == word32(0),
    {
        let clock_channel = new_channel();
        RegFile {
            registers: Registers::default(),
            component_id,
            ack_sender,
            clock_sender: clock_channel.0,
            clock_receiver: clock_channel.1,
            rs1_idx_receiver,
            rs1_idx: Byte::unknown(),
            rs1_idx_old: Byte::unknown(),
            rs2_idx_receiver,
            rs2_idx: Byte::unknown(),
            rs2_idx_old: Byte::unknown(),
            rd_wr_receiver,
            rd_wr: Byte::unknown(),
            rd_wr_old: Byte::unknown(),
            rd_idx_receiver,
            rd_idx: Byte::unknown(),
            rd_idx_old: Byte::unknown(),
            rd_data_receiver,
            rd_data: Word::unknown(),
            rd_data_old: Word::unknown(),
            rs1_data_alu_mux1,
            rs1_data_cmp,
            rs2_data_alu_mux2,
            rs2_data_cmp_mux,
            rs2_data_data_out,
        }
    }

    pub fn init_impl(&mut self, mgr: &mut SimManager)
        requires
            old(mgr).wf(),
        ensures
            final(mgr).wf(),
            final(mgr)@ == old(mgr)@,
            *final(self) == *old(self),
    {
    }

    pub fn reset_impl(&mut self)
        ensures
            final(self).component_id == old(self).component_id,
    {
        self.registers.reset();
    }

    pub fn poll_impl(&mut self)
        ensures
            *final(self) == *old(self),
    {
    }

    /// On a tick: when the write-enable line is not a known zero, write
    /// the destination register.
    pub fn on_clock(&mut self, mgr: &mut SimManager)
        requires
            old(mgr).wf(),
        ensures
            final(mgr).wf(),
            final(mgr)@ == old(mgr)@,
            poll_transition(old(mgr)@, final(mgr)@),
            final(self).component_id == old(self).component_id,
            old(self).rd_wr != byte8(0) ==> final(self).registers@ == reg_write(
                old(self).registers@,
                old(self).rd_idx,
                old(self).rd_data,
            ),
            old(self).rd_wr == byte8(0) ==> final(self).registers@ == old(self).registers@,
            *final(self) == (RegFile { registers: final(self).registers, ..*old(self) }),
    {
        proof {
            lemma_poll_transition_refl(mgr@);
        }
        if !(self.rd_wr == Byte::zeros()) {
            self.registers.write(self.rd_idx, self.rd_data);
        }
    }

    /// Emit both source registers' current values to every consumer.
    pub fn on_comb(&mut self, mgr: &mut SimManager)
        requires
            old(mgr).wf(),
        ensures
            final(mgr).wf(),
            *final(self) == *old(self),
            poll_transition(old(mgr)@, final(mgr)@),
reg_file_emission(*old(self), old(mgr)@, final(mgr)@),
    {
        let rs1_data = self.registers.read(self.rs1_idx);
        let rs2_data = self.registers.read(self.rs2_idx);
        let ghost v0 = mgr@;
        send_word(mgr, &self.rs1_data_alu_mux1, rs1_data);
        proof {
            lemma_poll_transition_emit(v0, mgr@, task_to(self.rs1_data_alu_mux1, word_event(v0.next_id, v0.cycle, rs1_data)));
        }
        let ghost v1 = mgr@;
        send_word(mgr, &self.rs1_data_cmp, rs1_data);
        proof {
            lemma_poll_transition_emit(v1, mgr@, task_to(self.rs1_data_cmp, word_event(v1.next_id, v1.cycle, rs1_data)));
            lemma_poll_transition_trans(v0, v1, mgr@);
        }
        let ghost v2 = mgr@;
        send_word(mgr, &self.rs2_data_alu_mux2, rs2_data);
        proof {
            lemma_poll_transition_emit(v2, mgr@, task_to(self.rs2_data_alu_mux2, word_event(v2.next_id, v2.cycle, rs2_data)));
            lemma_poll_transition_trans(v0, v2, mgr@);
        }
        let ghost v3 = mgr@;
        send_word(mgr, &self.rs2_data_cmp_mux, rs2_data);
        proof {
            lemma_poll_transition_emit(v3, mgr@, task_to(self.rs2_data_cmp_mux, word_event(v3.next_id, v3.cycle, rs2_data)));
            lemma_poll_transition_trans(v0, v3, mgr@);
        }
        let ghost v4 = mgr@;
        send_word(mgr, &self.rs2_data_data_out, rs2_data);
        proof {
            lemma_poll_transition_emit(v4, mgr@, task_to(self.rs2_data_data_out, word_event(v4.next_id, v4.cycle, rs2_data)));
            lemma_poll_transition_trans(v0, v4, mgr@);
        }
    }
    /// Take one event received on the `rs1_idx` port: decode the payload
    /// into the port slot, fire the combinational callback exactly when
    /// the value changed, sync the previous-value slot, and acknowledge.
    pub fn handle_rs1_idx(&mut self, mgr: &mut SimManager, event: SimEvent)
        requires
            old(mgr).wf(),
        ensures
            final(mgr).wf(),
            poll_transition(old(mgr)@, final(mgr)@),
            polled_reg_file_rs1_idx(*old(self), *final(self), old(mgr)@, final(mgr)@, Some(event)),
    {
        match get_inner(&event) {
            Payload::Byte(v) => {
                self.rs1_idx = v;
            },
            _ => {},
        }
        if !(self.rs1_idx == self.rs1_idx_old) {
            self.on_comb(mgr);
        } else {
            proof {
                lemma_poll_transition_refl(mgr@);
            }
        }
        self.rs1_idx_old = self.rs1_idx;
        let _ = try_send(&self.ack_sender, event.event_id);
    }

    /// Take one event received on the `rs2_idx` port: decode the payload
    /// into the port slot, fire the combinational callback exactly when
    /// the value changed, sync the previous-value slot, and acknowledge.
    pub fn handle_rs2_idx(&mut self, mgr: &mut SimManager, event: SimEvent)
        requires
            old(mgr).wf(),
        ensures
            final(mgr).wf(),
            poll_transition(old(mgr)@, final(mgr)@),
            polled_reg_file_rs2_idx(*old(self), *final(self), old(mgr)@, final(mgr)@, Some(event)),
    {
        match get_inner(&event) {
            Payload::Byte(v) => {
                self.rs2_idx = v;
            },
            _ => {},
        }
        if !(self.rs2_idx == self.rs2_idx_old) {
            self.on_comb(mgr);
        } else {
            proof {
                lemma_poll_transition_refl(mgr@);
            }
        }
        self.rs2_idx_old = self.rs2_idx;
        let _ = try_send(&self.ack_sender, event.event_id);
    }

    /// Take one event received on the `rd_wr` port: decode the payload
    /// into the port slot, fire the combinational callback exactly when
    /// the value changed, sync the previous-value slot, and acknowledge.
    pub fn handle_rd_wr(&mut self, mgr: &mut SimManager, event: SimEvent)
        requires
            old(mgr).wf(),
        ensures
            final(mgr).wf(),
            poll_transition(old(mgr)@, final(mgr)@),
            polled_reg_file_rd_wr(*old(self), *final(self), old(mgr)@, final(mgr)@, Some(event)),
    {
        match get_inner(&event) {
            Payload::Byte(v) => {
                self.rd_wr = v;
            },
            _ => {},
        }
        if !(self.rd_wr == self.rd_wr_old) {
            self.on_comb(mgr);
        } else {
            proof {
                lemma_poll_transition_refl(mgr@);
            }
        }
        self.rd_wr_old = self.rd_wr;
        let _ = try_send(&self.ack_sender, event.event_id);
    }

    /// Take one event received on the `rd_idx` port: decode the payload
    /// into the port slot, fire the combinational callback exactly when
    /// the value changed, sync the previous-value slot, and acknowledge.
    pub fn handle_rd_idx(&mut self, mgr: &mut SimManager, event: SimEvent)
        requires
            old(mgr).wf(),
        ensures
            final(mgr).wf(),
            poll_transition(old(mgr)@, final(mgr)@),
            polled_reg_file_rd_idx(*old(self), *final(self), old(mgr)@, final(mgr)@, Some(event)),
    {
        match get_inner(&event) {
            Payload::Byte(v) => {
                self.rd_idx = v;
            },
            _ => {},
        }
        if !(self.rd_idx == self.rd_idx_old) {
            self.on_comb(mgr);
        } else {
            proof {
                lemma_poll_transition_refl(mgr@);
            }
        }
        self.rd_idx_old = self.rd_idx;
        let _ = try_send(&self.ack_sender, event.event_id);
    }

    /// Take one event received on the `rd_data` port: decode the payload
    /// into the port slot, fire the combinational callback exactly when
    /// the value changed, sync the previous-value slot, and acknowledge.
    pub fn handle_rd_data(&mut self, mgr: &mut SimManager, event: SimEvent)
        requires
            old(mgr).wf(),
        ensures
            final(mgr).wf(),
            poll_transition(old(mgr)@, final(mgr)@),
            polled_reg_file_rd_data(*old(self), *final(self), old(mgr)@, final(mgr)@, Some(event)),
    {
        match get_inner(&event) {
            Payload::Word(v) => {
                self.rd_data = v;
            },
            _ => {},
        }
        if !(self.rd_data == self.rd_data_old) {
            self.on_comb(mgr);
        } else {
            proof {
                lemma_poll_transition_refl(mgr@);
            }
        }
        self.rd_data_old = self.rd_data;
        let _ = try_send(&self.ack_sender, event.event_id);
    }

    /// Take one clock event: run the clocked callback, then the
    /// combinational callback, then acknowledge.
    pub fn handle_clock(&mut self, mgr: &mut SimManager, event: SimEvent)
        requires
            old(mgr).wf(),
        ensures
            final(mgr).wf(),
            poll_transition(old(mgr)@, final(mgr)@),
            polled_reg_file_clock(*old(self), *final(self), old(mgr)@, final(mgr)@, Some(event)),
    {
        let ghost m0 = mgr@;
        self.on_clock(mgr);
        let ghost m1 = mgr@;
        self.on_comb(mgr);
        proof {
            lemma_poll_transition_trans(m0, m1, mgr@);
        }
        let _ = try_send(&self.ack_sender, event.event_id);
    }
}

/// The combinational callback's exact effect on the manager.
pub open spec fn reg_file_emission(c: RegFile, pre: SimManagerView, post: SimManagerView) -> bool {
    &&& post == pre.with_heap(post.heap).with_next_id(wrap_inc(wrap_inc(wrap_inc(wrap_inc(wrap_inc(pre.next_id))))))
    &&& post.heap.to_multiset() == pre.heap.to_multiset().insert(
                task_to(c.rs1_data_alu_mux1, word_event(pre.next_id, pre.cycle, reg_read(c.registers@, c.rs1_idx))),
            ).insert(
                task_to(c.rs1_data_cmp, word_event(wrap_inc(pre.next_id), pre.cycle, reg_read(c.registers@, c.rs1_idx))),
            ).insert(
                task_to(c.rs2_data_alu_mux2, word_event(wrap_inc(wrap_inc(pre.next_id)), pre.cycle, reg_read(c.registers@, c.rs2_idx))),
            ).insert(
                task_to(c.rs2_data_cmp_mux, word_event(wrap_inc(wrap_inc(wrap_inc(pre.next_id))), pre.cycle, reg_read(c.registers@, c.rs2_idx))),
            ).insert(
                task_to(c.rs2_data_data_out, word_event(wrap_inc(wrap_inc(wrap_inc(wrap_inc(pre.next_id)))), pre.cycle, reg_read(c.registers@, c.rs2_idx))),
            )
}

/// What taking one event on the `rs1_idx` port leaves behind: with no
/// event, nothing; with one, the decoded payload in the port slot (any
/// other payload kind leaves the slot as it was), the previous-value slot
/// synced, and the combinational callback's emission exactly when the
/// observed value changed.
pub open spec fn polled_reg_file_rs1_idx(
    pre: RegFile,
    post: RegFile,
    pre_m: SimManagerView,
    post_m: SimManagerView,
    polled: Option<SimEvent>,
) -> bool {
    match polled {
        None => post == pre && post_m == pre_m,
        Some(e) => {
            &&& post == (RegFile { rs1_idx: post.rs1_idx, rs1_idx_old: post.rs1_idx, ..pre })
            &&& post.rs1_idx == (match e.payload {
                Payload::Byte(v) => v,
                _ => pre.rs1_idx,
            })
            &&& (post.rs1_idx != pre.rs1_idx_old ==> reg_file_emission(post, pre_m, post_m))
            &&& (post.rs1_idx == pre.rs1_idx_old ==> post_m == pre_m)
        },
    }
}

/// What taking one event on the `rs2_idx` port leaves behind: with no
/// event, nothing; with one, the decoded payload in the port slot (any
/// other payload kind leaves the slot as it was), the previous-value slot
/// synced, and the combinational callback's emission exactly when the
/// observed value changed.
pub open spec fn polled_reg_file_rs2_idx(
    pre: RegFile,
    post: RegFile,
    pre_m: SimManagerView,
    post_m: SimManagerView,
    polled: Option<SimEvent>,
) -> bool {
    match polled {
        None => post == pre && post_m == pre_m,
        Some(e) => {
            &&& post == (RegFile { rs2_idx: post.rs2_idx, rs2_idx_old: post.rs2_idx, ..pre })
            &&& post.rs2_idx == (match e.payload {
                Payload::Byte(v) => v,
                _ => pre.rs2_idx,
            })
            &&& (post.rs2_idx != pre.rs2_idx_old ==> reg_file_emission(post, pre_m, post_m))
            &&& (post.rs2_idx == pre.rs2_idx_old ==> post_m == pre_m)
        },
    }
}

/// What taking one event on the `rd_wr` port leaves behind: with no
/// event, nothing; with one, the decoded payload in the port slot (any
/// other payload kind leaves the slot as it was), the previous-value slot
/// synced, and the combinational callback's emission exactly when the
/// observed value changed.
pub open spec fn polled_reg_file_rd_wr(
    pre: RegFile,
    post: RegFile,
    pre_m: SimManagerView,
    post_m: SimManagerView,
    polled: Option<SimEvent>,
) -> bool {
    match polled {
        None => post == pre && post_m == pre_m,
        Some(e) => {
            &&& post == (RegFile { rd_wr: post.rd_wr, rd_wr_old: post.rd_wr, ..pre })
            &&& post.rd_wr == (match e.payload {
                Payload::Byte(v) => v,
                _ => pre.rd_wr,
            })
            &&& (post.rd_wr != pre.rd_wr_old ==> reg_file_emission(post, pre_m, post_m))
            &&& (post.rd_wr == pre.rd_wr_old ==> post_m == pre_m)
        },
    }
}

/// What taking one event on the `rd_idx` port leaves behind: with no
/// event, nothing; with one, the decoded payload in the port slot (any
/// other payload kind leaves the slot as it was), the previous-value slot
/// synced, and the combinational callback's emission exactly when the
/// observed value changed.
pub open spec fn polled_reg_file_rd_idx(
    pre: RegFile,
    post: RegFile,
    pre_m: SimManagerView,
    post_m: SimManagerView,
    polled: Option<SimEvent>,
) -> bool {
    match polled {
        None => post == pre && post_m == pre_m,
        Some(e) => {
            &&& post == (RegFile { rd_idx: post.rd_idx, rd_idx_old: post.rd_idx, ..pre })
            &&& post.rd_idx == (match e.payload {
                Payload::Byte(v) => v,
                _ => pre.rd_idx,
            })
            &&& (post.rd_idx != pre.rd_idx_old ==> reg_file_emission(post, pre_m, post_m))
            &&& (post.rd_idx == pre.rd_idx_old ==> post_m == pre_m)
        },
    }
}

/// What taking one event on the `rd_data` port leaves behind: with no
/// event, nothing; with one, the decoded payload in the port slot (any
/// other payload kind leaves the slot as it was), the previous-value slot
/// synced, and the combinational callback's emission exactly when the
/// observed value changed.
pub open spec fn polled_reg_file_rd_data(
    pre: RegFile,
    post: RegFile,
    pre_m: SimManagerView,
    post_m: SimManagerView,
    polled: Option<SimEvent>,
) -> bool {
    match polled {
        None => post == pre && post_m == pre_m,
        Some(e) => {
            &&& post == (RegFile { rd_data: post.rd_data, rd_data_old: post.rd_data, ..pre })
            &&& post.rd_data == (match e.payload {
                Payload::Word(v) => v,
                _ => pre.rd_data,
            })
            &&& (post.rd_data != pre.rd_data_old ==> reg_file_emission(post, pre_m, post_m))
            &&& (post.rd_data == pre.rd_data_old ==> post_m == pre_m)
        },
    }
}

/// What taking one clock event leaves behind: the clocked callback's
/// effect, then the combinational callback's, then the acknowledgement.
pub open spec fn polled_reg_file_clock(
    pre: RegFile,
    post: RegFile,
    pre_m: SimManagerView,
    post_m: SimManagerView,
    polled: Option<SimEvent>,
) -> bool {
    match polled {
        None => post == pre && post_m == pre_m,
        Some(e) => {
            &&& post == (RegFile { registers: post.registers, ..pre })
            &&& post.registers@ == (if pre.rd_wr != byte8(0) {
                reg_write(pre.registers@, pre.rd_idx, pre.rd_data)
            } else {
                pre.registers@
            })
            &&& reg_file_emission(post, pre_m, post_m)
        },
    }
}

impl Component for RegFile {
    fn get_component_id(&self) -> ComponentId {
        self.component_id
    }

    fn init(&mut self, mgr: &mut SimManager)
        ensures
            final(mgr)@ == old(mgr)@.with_subs(old(mgr)@.subs.push(old(self).clock_sender)),
    {
        self.init_impl(mgr);
        mgr.register_clock_tick(crate::channel::clone_sender(&self.clock_sender));
    }

    fn reset(&mut self) {
        self.reset_impl();
    }

    fn poll_recv(&mut self, mgr: &mut SimManager)
        ensures
            exists|po_clock: Option<SimEvent>, po_rs1_idx: Option<SimEvent>, po_rs2_idx: Option<SimEvent>, po_rd_wr: Option<SimEvent>, po_rd_idx: Option<SimEvent>, po_rd_data: Option<SimEvent>, cs1: RegFile, cs2: RegFile, cs3: RegFile, cs4: RegFile, cs5: RegFile, mv1: SimManagerView, mv2: SimManagerView, mv3: SimManagerView, mv4: SimManagerView, mv5: SimManagerView|
                #![trigger polled_reg_file_clock(*old(self), cs1, old(mgr)@, mv1, po_clock), polled_reg_file_rs1_idx(cs1, cs2, mv1, mv2, po_rs1_idx), polled_reg_file_rs2_idx(cs2, cs3, mv2, mv3, po_rs2_idx), polled_reg_file_rd_wr(cs3, cs4, mv3, mv4, po_rd_wr), polled_reg_file_rd_idx(cs4, cs5, mv4, mv5, po_rd_idx), polled_reg_file_rd_data(cs5, *final(self), mv5, final(mgr)@, po_rd_data)]
                {
                    &&& polled_reg_file_clock(*old(self), cs1, old(mgr)@, mv1, po_clock)
                    &&& polled_reg_file_rs1_idx(cs1, cs2, mv1, mv2, po_rs1_idx)
                    &&& polled_reg_file_rs2_idx(cs2, cs3, mv2, mv3, po_rs2_idx)
                    &&& polled_reg_file_rd_wr(cs3, cs4, mv3, mv4, po_rd_wr)
                    &&& polled_reg_file_rd_idx(cs4, cs5, mv4, mv5, po_rd_idx)
                    &&& polled_reg_file_rd_data(cs5, *final(self), mv5, final(mgr)@, po_rd_data)
                },
    {
        self.poll_impl();
        let ghost w0s = *self;
        let ghost w0m = mgr@;
        let ghost mut po_clock: Option<SimEvent> = None;
        match try_recv(&self.clock_receiver) {
            ChannelPoll::Item(event) => {
                proof {
                    po_clock = Some(event);
                }
                self.handle_clock(mgr, event);
            },
            _ => {},
        }
        proof {
            lemma_poll_transition_refl(mgr@);
            lemma_poll_transition_trans(old(mgr)@, w0m, mgr@);
        }
        let ghost w1s = *self;
        let ghost w1m = mgr@;
        let ghost mut po_rs1_idx: Option<SimEvent> = None;
        match try_recv(&self.rs1_idx_receiver) {
            ChannelPoll::Item(event) => {
                proof {
                    po_rs1_idx = Some(event);
                }
                self.handle_rs1_idx(mgr, event);
            },
            _ => {},
        }
        proof {
            lemma_poll_transition_refl(mgr@);
            lemma_poll_transition_trans(old(mgr)@, w1m, mgr@);
        }
        let ghost w2s = *self;
        let ghost w2m = mgr@;
        let ghost mut po_rs2_idx: Option<SimEvent> = None;
        match try_recv(&self.rs2_idx_receiver) {
            ChannelPoll::Item(event) => {
                proof {
                    po_rs2_idx = Some(event);
                }
                self.handle_rs2_idx(mgr, event);
            },
            _ => {},
        }
        proof {
            lemma_poll_transition_refl(mgr@);
            lemma_poll_transition_trans(old(mgr)@, w2m, mgr@);
        }
        let ghost w3s = *self;
        let ghost w3m = mgr@;
        let ghost mut po_rd_wr: Option<SimEvent> = None;
        match try_recv(&self.rd_wr_receiver) {
            ChannelPoll::Item(event) => {
                proof {
                    po_rd_wr = Some(event);
                }
                self.handle_rd_wr(mgr, event);
            },
            _ => {},
        }
        proof {
            lemma_poll_transition_refl(mgr@);
            lemma_poll_transition_trans(old(mgr)@, w3m, mgr@);
        }
        let ghost w4s = *self;
        let ghost w4m = mgr@;
        let ghost mut po_rd_idx: Option<SimEvent> = None;
        match try_recv(&self.rd_idx_receiver) {
            ChannelPoll::Item(event) => {
                proof {
                    po_rd_idx = Some(event);
                }
                self.handle_rd_idx(mgr, event);
            },
            _ => {},
        }
        proof {
            lemma_poll_transition_refl(mgr@);
            lemma_poll_transition_trans(old(mgr)@, w4m, mgr@);
        }
        let ghost w5s = *self;
        let ghost w5m = mgr@;
        let ghost mut po_rd_data: Option<SimEvent> = None;
        match try_recv(&self.rd_data_receiver) {
            ChannelPoll::Item(event) => {
                proof {
                    po_rd_data = Some(event);
                }
                self.handle_rd_data(mgr, event);
            },
            _ => {},
        }
        proof {
            lemma_poll_transition_refl(mgr@);
            lemma_poll_transition_trans(old(mgr)@, w5m, mgr@);
        }
        proof {
            assert(polled_reg_file_clock(w0s, w1s, w0m, w1m, po_clock));
            assert(polled_reg_file_rs1_idx(w1s, w2s, w1m, w2m, po_rs1_idx));
            assert(polled_reg_file_rs2_idx(w2s, w3s, w2m, w3m, po_rs2_idx));
            assert(polled_reg_file_rd_wr(w3s, w4s, w3m, w4m, po_rd_wr));
            assert(polled_reg_file_rd_idx(w4s, w5s, w4m, w5m, po_rd_idx));
            assert(polled_reg_file_rd_data(w5s, *self, w5m, mgr@, po_rd_data));
        }
    }
}

/// What the write-back multiplexer selects: the byte and half-word load
/// forms extract the addressed lane of the memory-data register and
/// extend it.
pub open spec fn regfile_mux_out(
    sel: Byte,
    alu_out: Word,
    cmp_out: Word,
    u_imm: Word,
    mar: Word,
    mdr: Word,
    pc: Word,
) -> Word {
    let idx = if mar.is_known() {
        (mar.spec_u32() & 0x3) as int
    } else {
        0int
    };
    if sel == byte8(REGFILE_MUX_ALU_OUT) {
        alu_out
    } else if sel == byte8(REGFILE_MUX_BR_EN) {
        cmp_out
    } else if sel == byte8(REGFILE_MUX_U_IMM) {
        u_imm
    } else if sel == byte8(REGFILE_MUX_LW) {
        mdr
    } else if sel == byte8(REGFILE_MUX_PC_PLUS4) {
        if pc.is_known() {
            word32(u32_add(pc.spec_u32(), 4))
        } else {
            unknown_word()
        }
    } else if sel == byte8(REGFILE_MUX_LB) {
        match mdr.spec_get(idx) {
            Some(b) => word32(sign_extend_spec(b as u32, 7)),
            None => unknown_word(),
        }
    } else if sel == byte8(REGFILE_MUX_LBU) {
        match mdr.spec_get(idx) {
            Some(b) => word32(b as u32),
            None => unknown_word(),
        }
    } else if sel == byte8(REGFILE_MUX_LH) {
        if idx < 3 {
            match (mdr.spec_get(idx), mdr.spec_get(idx + 1)) {
                (Some(lsb), Some(msb)) => word32(
                    sign_extend_spec((lsb as u32) | ((msb as u32) << 8u32), 15),
                ),
                _ => unknown_word(),
            }
        } else {
            unknown_word()
        }
    } else if sel == byte8(REGFILE_MUX_LHU) {
        if idx < 3 {
            match (mdr.spec_get(idx), mdr.spec_get(idx + 1)) {
                (Some(lsb), Some(msb)) => word32((lsb as u32) | ((msb as u32) << 8u32)),
                _ => unknown_word(),
            }
        } else {
            unknown_word()
        }
    } else {
        unknown_word()
    }
}

/// Compute the write-back multiplexer's selection on port values.
pub fn regfile_mux_compute(
    sel: Byte,
    alu_out: Word,
    cmp_out: Word,
    u_imm: Word,
    mar: Word,
    mdr: Word,
    pc: Word,
) -> (r: Word)
    ensures
        r == regfile_mux_out(sel, alu_out, cmp_out, u_imm, mar, mdr, pc),
{
    let mdr_idx: usize = match mar.to_u32() {
        Some(m) => {
            let masked = m & 0x3;
            proof {
                assert(m & 0x3 <= 3) by (bit_vector);
            }
            masked as usize
        },
        None => 0,
    };
    let r = match sel.to_u8() {
        Some(s) if s == REGFILE_MUX_ALU_OUT => alu_out,
        Some(s) if s == REGFILE_MUX_BR_EN => cmp_out,
        Some(s) if s == REGFILE_MUX_U_IMM => u_imm,
        Some(s) if s == REGFILE_MUX_LW => mdr,
        Some(s) if s == REGFILE_MUX_PC_PLUS4 => pc.add(Word::from(4u32)),
        Some(s) if s == REGFILE_MUX_LB => {
            match mdr.get_byte(mdr_idx) {
                Some(b) => sign_extend(b as u32, 7),
                None => Word::unknown(),
            }
        },
        Some(s) if s == REGFILE_MUX_LBU => {
            match mdr.get_byte(mdr_idx) {
                Some(b) => Word::from(b as u32),
                None => Word::unknown(),
            }
        },
        Some(s) if s == REGFILE_MUX_LH => {
            if mdr_idx < 3 {
                match (mdr.get_byte(mdr_idx), mdr.get_byte(mdr_idx + 1)) {
                    (Some(lsb), Some(msb)) => sign_extend((lsb as u32) | ((msb as u32) << 8u32), 15),
                    _ => Word::unknown(),
                }
            } else {
                Word::unknown()
            }
        },
        Some(s) if s == REGFILE_MUX_LHU => {
            if mdr_idx < 3 {
                match (mdr.get_byte(mdr_idx), mdr.get_byte(mdr_idx + 1)) {
                    (Some(lsb), Some(msb)) => Word::from((lsb as u32) | ((msb as u32) << 8u32)),
                    _ => Word::unknown(),
                }
            } else {
                Word::unknown()
            }
        },
        _ => Word::unknown(),
    };
    proof {
        crate::word::lemma_word32_value(4);
    }
    r
}

/// The write-back multiplexer.
pub struct RegFileMux {
    pub component_id: ComponentId,
    pub ack_sender: crossbeam_channel::Sender<EventId>,
    pub alu_out_receiver: Input,
    pub alu_out: Word,
    pub alu_out_old: Word,
    pub cmp_out_receiver: Input,
    pub cmp_out: Word,
    pub cmp_out_old: Word,
    pub u_imm_receiver: Input,
    pub u_imm: Word,
    pub u_imm_old: Word,
    pub mar_receiver: Input,
    pub mar: Word,
    pub mar_old: Word,
    pub mdr_receiver: Input,
    pub mdr: Word,
    pub mdr_old: Word,
    pub pc_receiver: Input,
    pub pc: Word,
    pub pc_old: Word,
    pub sel_receiver: Input,
    pub sel: Byte,
    pub sel_old: Byte,
    pub out: Output,
}

impl RegFileMux {
    pub fn new(
        component_id: ComponentId,
        ack_sender: crossbeam_channel::Sender<EventId>,
        alu_out_receiver: Input,
        cmp_out_receiver: Input,
        u_imm_receiver: Input,
        mar_receiver: Input,
        mdr_receiver: Input,
        pc_receiver: Input,
        sel_receiver: Input,
        out: Output,
    ) -> (r: RegFileMux)
        ensures
            r.component_id == component_id,
    {
        RegFileMux {
            component_id,
            ack_sender,
            alu_out_receiver,
            alu_out: Word::unknown(),
            alu_out_old: Word::unknown(),
            cmp_out_receiver,
            cmp_out: Word::unknown(),
            cmp_out_old: Word::unknown(),
            u_imm_receiver,
            u_imm: Word::unknown(),
            u_imm_old: Word::unknown(),
            mar_receiver,
            mar: Word::unknown(),
            mar_old: Word::unknown(),
            mdr_receiver,
            mdr: Word::unknown(),
            mdr_old: Word::unknown(),
            pc_receiver,
            pc: Word::unknown(),
            pc_old: Word::unknown(),
            sel_receiver,
            sel: Byte::unknown(),
            sel_old: Byte::unknown(),
            out,
        }
    }

    pub fn init_impl(&mut self, mgr: &mut SimManager)
        requires
            old(mgr).wf(),
        ensures
            final(mgr).wf(),
            final(mgr)@ == old(mgr)@,
            *final(self) == *old(self),
    {
    }

    pub fn reset_impl(&mut self)
        ensures
            *final(self) == *old(self),
    {
    }

    pub fn poll_impl(&mut self)
        ensures
            *final(self) == *old(self),
    {
    }

    /// Emit the selected write-back value.
    pub fn on_comb(&mut self, mgr: &mut SimManager)
        requires
            old(mgr).wf(),
        ensures
            final(mgr).wf(),
            *final(self) == *old(self),
            poll_transition(old(mgr)@, final(mgr)@),
reg_file_mux_emission(*old(self), old(mgr)@, final(mgr)@),
    {
        let out = regfile_mux_compute(
            self.sel,
            self.alu_out,
            self.cmp_out,
            self.u_imm,
            self.mar,
            self.mdr,
            self.pc,
        );
        let ghost v0 = mgr@;
        send_word(mgr, &self.out, out);
        proof {
            lemma_poll_transition_emit(v0, mgr@, task_to(self.out, word_event(v0.next_id, v0.cycle, out)));
        }
    }
    /// Take one event received on the `alu_out` port: decode the payload
    /// into the port slot, fire the combinational callback exactly when
    /// the value changed, sync the previous-value slot, and acknowledge.
    pub fn handle_alu_out(&mut self, mgr: &mut SimManager, event: SimEvent)
        requires
            old(mgr).wf(),
        ensures
            final(mgr).wf(),
            poll_transition(old(mgr)@, final(mgr)@),
            polled_reg_file_mux_alu_out(
                *old(self),
                *final(self),
                old(mgr)@,
                final(mgr)@,
                Some(event),
            ),
    {
        match get_inner(&event) {
            Payload::Word(v) => {
                self.alu_out = v;
            },
            _ => {},
        }
        if !(self.alu_out == self.alu_out_old) {
            self.on_comb(mgr);
        } else {
            proof {
                lemma_poll_transition_refl(mgr@);
            }
        }
        self.alu_out_old = self.alu_out;
        let _ = try_send(&self.ack_sender, event.event_id);
    }

    /// Take one event received on the `cmp_out` port: decode the payload
    /// into the port slot, fire the combinational callback exactly when
    /// the value changed, sync the previous-value slot, and acknowledge.
    pub fn handle_cmp_out(&mut self, mgr: &mut SimManager, event: SimEvent)
        requires
            old(mgr).wf(),
        ensures
            final(mgr).wf(),
            poll_transition(old(mgr)@, final(mgr)@),
            polled_reg_file_mux_cmp_out(
                *old(self),
                *final(self),
                old(mgr)@,
                final(mgr)@,
                Some(event),
            ),
    {
        match get_inner(&event) {
            Payload::Word(v) => {
                self.cmp_out = v;
            },
            _ => {},
        }
        if !(self.cmp_out == self.cmp_out_old) {
            self.on_comb(mgr);
        } else {
            proof {
                lemma_poll_transition_refl(mgr@);
            }
        }
        self.cmp_out_old = self.cmp_out;
        let _ = try_send(&self.ack_sender, event.event_id);
    }

    /// Take one event received on the `u_imm` port: decode the payload
    /// into the port slot, fire the combinational callback exactly when
    /// the value changed, sync the previous-value slot, and acknowledge.
    pub fn handle_u_imm(&mut self, mgr: &mut SimManager, event: SimEvent)
        requires
            old(mgr).wf(),
        ensures
            final(mgr).wf(),
            poll_transition(old(mgr)@, final(mgr)@),
            polled_reg_file_mux_u_imm(
                *old(self),
                *final(self),
                old(mgr)@,
                final(mgr)@,
                Some(event),
            ),
    {
        match get_inner(&event) {
            Payload::Word(v) => {
                self.u_imm = v;
            },
            _ => {},
        }
        if !(self.u_imm == self.u_imm_old) {
            self.on_comb(mgr);
        } else {
            proof {
                lemma_poll_transition_refl(mgr@);
            }
        }
        self.u_imm_old = self.u_imm;
        let _ = try_send(&self.ack_sender, event.event_id);
    }

    /// Take one event received on the `mar` port: decode the payload
    /// into the port slot, fire the combinational callback exactly when
    /// the value changed, sync the previous-value slot, and acknowledge.
    pub fn handle_mar(&mut self, mgr: &mut SimManager, event: SimEvent)
        requires
            old(mgr).wf(),
        ensures
            final(mgr).wf(),
            poll_transition(old(mgr)@, final(mgr)@),
            polled_reg_file_mux_mar(*old(self), *final(self), old(mgr)@, final(mgr)@, Some(event)),
    {
        match get_inner(&event) {
            Payload::Word(v) => {
                self.mar = v;
            },
            _ => {},
        }
        if !(self.mar == self.mar_old) {
            self.on_comb(mgr);
        } else {
            proof {
                lemma_poll_transition_refl(mgr@);
            }
        }
        self.mar_old = self.mar;
        let _ = try_send(&self.ack_sender, event.event_id);
    }

    /// Take one event received on the `mdr` port: decode the payload
    /// into the port slot, fire the combinational callback exactly when
    /// the value changed, sync the previous-value slot, and acknowledge.
    pub fn handle_mdr(&mut self, mgr: &mut SimManager, event: SimEvent)
        requires
            old(mgr).wf(),
        ensures
            final(mgr).wf(),
            poll_transition(old(mgr)@, final(mgr)@),
            polled_reg_file_mux_mdr(*old(self), *final(self), old(mgr)@, final(mgr)@, Some(event)),
    {
        match get_inner(&event) {
            Payload::Word(v) => {
                self.mdr = v;
            },
            _ => {},
        }
        if !(self.mdr == self.mdr_old) {
            self.on_comb(mgr);
        } else {
            proof {
                lemma_poll_transition_refl(mgr@);
            }
        }
        self.mdr_old = self.mdr;
        let _ = try_send(&self.ack_sender, event.event_id);
    }

    /// Take one event received on the `pc` port: decode the payload
    /// into the port slot, fire the combinational callback exactly when
    /// the value changed, sync the previous-value slot, and acknowledge.
    pub fn handle_pc(&mut self, mgr: &mut SimManager, event: SimEvent)
        requires
            old(mgr).wf(),
        ensures
            final(mgr).wf(),
            poll_transition(old(mgr)@, final(mgr)@),
            polled_reg_file_mux_pc(*old(self), *final(self), old(mgr)@, final(mgr)@, Some(event)),
    {
        match get_inner(&event) {
            Payload::Word(v) => {
                self.pc = v;
            },
            _ => {},
        }
        if !(self.pc == self.pc_old) {
            self.on_comb(mgr);
        } else {
            proof {
                lemma_poll_transition_refl(mgr@);
            }
        }
        self.pc_old = self.pc;
        let _ = try_send(&self.ack_sender, event.event_id);
    }

    /// Take one event received on the `sel` port: decode the payload
    /// into the port slot, fire the combinational callback exactly when
    /// the value changed, sync the previous-value slot, and acknowledge.
    pub fn handle_sel(&mut self, mgr: &mut SimManager, event: SimEvent)
        requires
            old(mgr).wf(),
        ensures
            final(mgr).wf(),
            poll_transition(old(mgr)@, final(mgr)@),
            polled_reg_file_mux_sel(*old(self), *final(self), old(mgr)@, final(mgr)@, Some(event)),
    {
        match get_inner(&event) {
            Payload::Byte(v) => {
                self.sel = v;
            },
            _ => {},
        }
        if !(self.sel == self.sel_old) {
            self.on_comb(mgr);
        } else {
            proof {
                lemma_poll_transition_refl(mgr@);
            }
        }
        self.sel_old = self.sel;
        let _ = try_send(&self.ack_sender, event.event_id);
    }
}

/// The combinational callback's exact effect on the manager.
pub open spec fn reg_file_mux_emission(c: RegFileMux, pre: SimManagerView, post: SimManagerView) -> bool {
    &&& post == pre.with_heap(post.heap).with_next_id(
                wrap_inc(pre.next_id),
            )
    &&& post.heap.to_multiset() == pre.heap.to_multiset().insert(
                task_to(c.out, word_event(
                    pre.next_id,
                    pre.cycle,
                    regfile_mux_out(
                        c.sel,
                        c.alu_out,
                        c.cmp_out,
                        c.u_imm,
                        c.mar,
                        c.mdr,
                        c.pc,
                    ),
                )),
            )
}

/// What taking one event on the `alu_out` port leaves behind: with no
/// event, nothing; with one, the decoded payload in the port slot (any
/// other payload kind leaves the slot as it was), the previous-value slot
/// synced, and the combinational callback's emission exactly when the
/// observed value changed.
pub open spec fn polled_reg_file_mux_alu_out(
    pre: RegFileMux,
    post: RegFileMux,
    pre_m: SimManagerView,
    post_m: SimManagerView,
    polled: Option<SimEvent>,
) -> bool {
    match polled {
        None => post == pre && post_m == pre_m,
        Some(e) => {
            &&& post == (RegFileMux { alu_out: post.alu_out, alu_out_old: post.alu_out, ..pre })
            &&& post.alu_out == (match e.payload {
                Payload::Word(v) => v,
                _ => pre.alu_out,
            })
            &&& (post.alu_out != pre.alu_out_old ==> reg_file_mux_emission(post, pre_m, post_m))
            &&& (post.alu_out == pre.alu_out_old ==> post_m == pre_m)
        },
    }
}

/// What taking one event on the `cmp_out` port leaves behind: with no
/// event, nothing; with one, the decoded payload in the port slot (any
/// other payload kind leaves the slot as it was), the previous-value slot
/// synced, and the combinational callback's emission exactly when the
/// observed value changed.
pub open spec fn polled_reg_file_mux_cmp_out(
    pre: RegFileMux,
    post: RegFileMux,
    pre_m: SimManagerView,
    post_m: SimManagerView,
    polled: Option<SimEvent>,
) -> bool {
    match polled {
        None => post == pre && post_m == pre_m,
        Some(e) => {
            &&& post == (RegFileMux { cmp_out: post.cmp_out, cmp_out_old: post.cmp_out, ..pre })
            &&& post.cmp_out == (match e.payload {
                Payload::Word(v) => v,
                _ => pre.cmp_out,
            })
            &&& (post.cmp_out != pre.cmp_out_old ==> reg_file_mux_emission(post, pre_m, post_m))
            &&& (post.cmp_out == pre.cmp_out_old ==> post_m == pre_m)
        },
    }
}

/// What taking one event on the `u_imm` port leaves behind: with no
/// event, nothing; with one, the decoded payload in the port slot (any
/// other payload kind leaves the slot as it was), the previous-value slot
/// synced, and the combinational callback's emission exactly when the
/// observed value changed.
pub open spec fn polled_reg_file_mux_u_imm(
    pre: RegFileMux,
    post: RegFileMux,
    pre_m: SimManagerView,
    post_m: SimManagerView,
    polled: Option<SimEvent>,
) -> bool {
    match polled {
        None => post == pre && post_m == pre_m,
        Some(e) => {
            &&& post == (RegFileMux { u_imm: post.u_imm, u_imm_old: post.u_imm, ..pre })
            &&& post.u_imm == (match e.payload {
                Payload::Word(v) => v,
                _ => pre.u_imm,
            })
            &&& (post.u_imm != pre.u_imm_old ==> reg_file_mux_emission(post, pre_m, post_m))
            &&& (post.u_imm == pre.u_imm_old ==> post_m == pre_m)
        },
    }
}

/// What taking one event on the `mar` port leaves behind: with no
/// event, nothing; with one, the decoded payload in the port slot (any
/// other payload kind leaves the slot as it was), the previous-value slot
/// synced, and the combinational callback's emission exactly when the
/// observed value changed.
pub open spec fn polled_reg_file_mux_mar(
    pre: RegFileMux,
    post: RegFileMux,
    pre_m: SimManagerView,
    post_m: SimManagerView,
    polled: Option<SimEvent>,
) -> bool {
    match polled {
        None => post == pre && post_m == pre_m,
        Some(e) => {
            &&& post == (RegFileMux { mar: post.mar, mar_old: post.mar, ..pre })
            &&& post.mar == (match e.payload {
                Payload::Word(v) => v,
                _ => pre.mar,
            })
            &&& (post.mar != pre.mar_old ==> reg_file_mux_emission(post, pre_m, post_m))
            &&& (post.mar == pre.mar_old ==> post_m == pre_m)
        },
    }
}

/// What taking one event on the `mdr` port leaves behind: with no
/// event, nothing; with one, the decoded payload in the port slot (any
/// other payload kind leaves the slot as it was), the previous-value slot
/// synced, and the combinational callback's emission exactly when the
/// observed value changed.
pub open spec fn polled_reg_file_mux_mdr(
    pre: RegFileMux,
    post: RegFileMux,
    pre_m: SimManagerView,
    post_m: SimManagerView,
    polled: Option<SimEvent>,
) -> bool {
    match polled {
        None => post == pre && post_m == pre_m,
        Some(e) => {
            &&& post == (RegFileMux { mdr: post.mdr, mdr_old: post.mdr, ..pre })
            &&& post.mdr == (match e.payload {
                Payload::Word(v) => v,
                _ => pre.mdr,
            })
            &&& (post.mdr != pre.mdr_old ==> reg_file_mux_emission(post, pre_m, post_m))
            &&& (post.mdr == pre.mdr_old ==> post_m == pre_m)
        },
    }
}

/// What taking one event on the `pc` port leaves behind: with no
/// event, nothing; with one, the decoded payload in the port slot (any
/// other payload kind leaves the slot as it was), the previous-value slot
/// synced, and the combinational callback's emission exactly when the
/// observed value changed.
pub open spec fn polled_reg_file_mux_pc(
    pre: RegFileMux,
    post: RegFileMux,
    pre_m: SimManagerView,
    post_m: SimManagerView,
    polled: Option<SimEvent>,
) -> bool {
    match polled {
        None => post == pre && post_m == pre_m,
        Some(e) => {
            &&& post == (RegFileMux { pc: post.pc, pc_old: post.pc, ..pre })
            &&& post.pc == (match e.payload {
                Payload::Word(v) => v,
                _ => pre.pc,
            })
            &&& (post.pc != pre.pc_old ==> reg_file_mux_emission(post, pre_m, post_m))
            &&& (post.pc == pre.pc_old ==> post_m == pre_m)
        },
    }
}

/// What taking one event on the `sel` port leaves behind: with no
/// event, nothing; with one, the decoded payload in the port slot (any
/// other payload kind leaves the slot as it was), the previous-value slot
/// synced, and the combinational callback's emission exactly when the
/// observed value changed.
pub open spec fn polled_reg_file_mux_sel(
    pre: RegFileMux,
    post: RegFileMux,
    pre_m: SimManagerView,
    post_m: SimManagerView,
    polled: Option<SimEvent>,
) -> bool {
    match polled {
        None => post == pre && post_m == pre_m,
        Some(e) => {
            &&& post == (RegFileMux { sel: post.sel, sel_old: post.sel, ..pre })
            &&& post.sel == (match e.payload {
                Payload::Byte(v) => v,
                _ => pre.sel,
            })
            &&& (post.sel != pre.sel_old ==> reg_file_mux_emission(post, pre_m, post_m))
            &&& (post.sel == pre.sel_old ==> post_m == pre_m)
        },
    }
}

impl Component for RegFileMux {
    fn get_component_id(&self) -> ComponentId {
        self.component_id
    }

    fn init(&mut self, mgr: &mut SimManager)
        ensures
            final(mgr)@ == old(mgr)@,
    {
        self.init_impl(mgr);
    }

    fn reset(&mut self) {
        self.reset_impl();
    }

    fn poll_recv(&mut self, mgr: &mut SimManager)
        ensures
            exists|po_alu_out: Option<SimEvent>, po_cmp_out: Option<SimEvent>, po_u_imm: Option<SimEvent>, po_mar: Option<SimEvent>, po_mdr: Option<SimEvent>, po_pc: Option<SimEvent>, po_sel: Option<SimEvent>, cs1: RegFileMux, cs2: RegFileMux, cs3: RegFileMux, cs4: RegFileMux, cs5: RegFileMux, cs6: RegFileMux, mv1: SimManagerView, mv2: SimManagerView, mv3: SimManagerView, mv4: SimManagerView, mv5: SimManagerView, mv6: SimManagerView|
                #![trigger polled_reg_file_mux_alu_out(*old(self), cs1, old(mgr)@, mv1, po_alu_out), polled_reg_file_mux_cmp_out(cs1, cs2, mv1, mv2, po_cmp_out), polled_reg_file_mux_u_imm(cs2, cs3, mv2, mv3, po_u_imm), polled_reg_file_mux_mar(cs3, cs4, mv3, mv4, po_mar), polled_reg_file_mux_mdr(cs4, cs5, mv4, mv5, po_mdr), polled_reg_file_mux_pc(cs5, cs6, mv5, mv6, po_pc), polled_reg_file_mux_sel(cs6, *final(self), mv6, final(mgr)@, po_sel)]
                {
                    &&& polled_reg_file_mux_alu_out(*old(self), cs1, old(mgr)@, mv1, po_alu_out)
                    &&& polled_reg_file_mux_cmp_out(cs1, cs2, mv1, mv2, po_cmp_out)
                    &&& polled_reg_file_mux_u_imm(cs2, cs3, mv2, mv3, po_u_imm)
                    &&& polled_reg_file_mux_mar(cs3, cs4, mv3, mv4, po_mar)
                    &&& polled_reg_file_mux_mdr(cs4, cs5, mv4, mv5, po_mdr)
                    &&& polled_reg_file_mux_pc(cs5, cs6, mv5, mv6, po_pc)
                    &&& polled_reg_file_mux_sel(cs6, *final(self), mv6, final(mgr)@, po_sel)
                },
    {
        self.poll_impl();
        let ghost w0s = *self;
        let ghost w0m = mgr@;
        let ghost mut po_alu_out: Option<SimEvent> = None;
        match try_recv(&self.alu_out_receiver) {
            ChannelPoll::Item(event) => {
                proof {
                    po_alu_out = Some(event);
                }
                self.handle_alu_out(mgr, event);
            },
            _ => {},
        }
        proof {
            lemma_poll_transition_refl(mgr@);
            lemma_poll_transition_trans(old(mgr)@, w0m, mgr@);
        }
        let ghost w1s = *self;
        let ghost w1m = mgr@;
        let ghost mut po_cmp_out: Option<SimEvent> = None;
        match try_recv(&self.cmp_out_receiver) {
            ChannelPoll::Item(event) => {
                proof {
                    po_cmp_out = Some(event);
                }
                self.handle_cmp_out(mgr, event);
            },
            _ => {},
        }
        proof {
            lemma_poll_transition_refl(mgr@);
            lemma_poll_transition_trans(old(mgr)@, w1m, mgr@);
        }
        let ghost w2s = *self;
        let ghost w2m = mgr@;
        let ghost mut po_u_imm: Option<SimEvent> = None;
        match try_recv(&self.u_imm_receiver) {
            ChannelPoll::Item(event) => {
                proof {
                    po_u_imm = Some(event);
                }
                self.handle_u_imm(mgr, event);
            },
            _ => {},
        }
        proof {
            lemma_poll_transition_refl(mgr@);
            lemma_poll_transition_trans(old(mgr)@, w2m, mgr@);
        }
        let ghost w3s = *self;
        let ghost w3m = mgr@;
        let ghost mut po_mar: Option<SimEvent> = None;
        match try_recv(&self.mar_receiver) {
            ChannelPoll::Item(event) => {
                proof {
                    po_mar = Some(event);
                }
                self.handle_mar(mgr, event);
            },
            _ => {},
        }
        proof {
            lemma_poll_transition_refl(mgr@);
            lemma_poll_transition_trans(old(mgr)@, w3m, mgr@);
        }
        let ghost w4s = *self;
        let ghost w4m = mgr@;
        let ghost mut po_mdr: Option<SimEvent> = None;
        match try_recv(&self.mdr_receiver) {
            ChannelPoll::Item(event) => {
                proof {
                    po_mdr = Some(event);
                }
                self.handle_mdr(mgr, event);
            },
            _ => {},
        }
        proof {
            lemma_poll_transition_refl(mgr@);
            lemma_poll_transition_trans(old(mgr)@, w4m, mgr@);
        }
        let ghost w5s = *self;
        let ghost w5m = mgr@;
        let ghost mut po_pc: Option<SimEvent> = None;
        match try_recv(&self.pc_receiver) {
            ChannelPoll::Item(event) => {
                proof {
                    po_pc = Some(event);
                }
                self.handle_pc(mgr, event);
            },
            _ => {},
        }
        proof {
            lemma_poll_transition_refl(mgr@);
            lemma_poll_transition_trans(old(mgr)@, w5m, mgr@);
        }
        let ghost w6s = *self;
        let ghost w6m = mgr@;
        let ghost mut po_sel: Option<SimEvent> = None;
        match try_recv(&self.sel_receiver) {
            ChannelPoll::Item(event) => {
                proof {
                    po_sel = Some(event);
                }
                self.handle_sel(mgr, event);
            },
            _ => {},
        }
        proof {
            lemma_poll_transition_refl(mgr@);
            lemma_poll_transition_trans(old(mgr)@, w6m, mgr@);
        }
        proof {
            assert(polled_reg_file_mux_alu_out(w0s, w1s, w0m, w1m, po_alu_out));
            assert(polled_reg_file_mux_cmp_out(w1s, w2s, w1m, w2m, po_cmp_out));
            assert(polled_reg_file_mux_u_imm(w2s, w3s, w2m, w3m, po_u_imm));
            assert(polled_reg_file_mux_mar(w3s, w4s, w3m, w4m, po_mar));
            assert(polled_reg_file_mux_mdr(w4s, w5s, w4m, w5m, po_mdr));
            assert(polled_reg_file_mux_pc(w5s, w6s, w5m, w6m, po_pc));
            assert(polled_reg_file_mux_sel(w6s, *self, w6m, mgr@, po_sel));
        }
    }
}

} // verus!
