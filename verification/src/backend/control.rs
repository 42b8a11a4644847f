//! The control unit: a sixteen-state machine that steers every
//! multiplexer, load enable and memory strobe of the datapath, one
//! instruction phase per clock.

use crate::backend::event::{byte_event, send_byte};
use crate::channel::{new_channel, try_recv, try_send, ChannelPoll};
use crate::component::{
    lemma_poll_transition_emit, lemma_poll_transition_refl, lemma_poll_transition_trans,
    poll_transition, Component,
};
use crate::event::{get_inner, Payload, SimEvent};
use crate::isa::{
    States, ALU1_MUX_PC_OUT, ALU1_MUX_RS1_OUT, ALU2_MUX_B_IMM, ALU2_MUX_I_IMM, ALU2_MUX_J_IMM,
    ALU2_MUX_RS2_OUT, ALU2_MUX_S_IMM, ALU2_MUX_U_IMM, ALU_ADD, ALU_SRA, ALU_SRL, ALU_SUB,
    CMP_MUX_I_IMM, CMP_MUX_RS2_OUT, FUNCT3_BLT, FUNCT3_BLTU, FUNCT3_LB, FUNCT3_LBU, FUNCT3_LH,
    FUNCT3_LHU, FUNCT3_LW, FUNCT3_SB, FUNCT3_SH, FUNCT3_SLT, FUNCT3_SLTU, FUNCT3_SR, FUNCT3_SW,
    MAR_MUX_ALU_OUT, MAR_MUX_PC_OUT, OPCODE_AUIPC, OPCODE_BR, OPCODE_IMM, OPCODE_JAL, OPCODE_JALR,
    OPCODE_LOAD, OPCODE_LUI, OPCODE_REG, OPCODE_STORE, PC_MUX_ALU_MOD2, PC_MUX_ALU_OUT,
    PC_MUX_PC_PLUS4, REGFILE_MUX_ALU_OUT, REGFILE_MUX_BR_EN, REGFILE_MUX_LB, REGFILE_MUX_LBU,
    REGFILE_MUX_LH, REGFILE_MUX_LHU, REGFILE_MUX_LW, REGFILE_MUX_PC_PLUS4, REGFILE_MUX_U_IMM,
};
use crate::sim_manager::{SimManager, SimManagerView};
use crate::task::task_to;
use crate::types::{ComponentId, EventId, Input, Output};
use crate::word::{byte8, unknown_byte, Byte, Word};
use vstd::prelude::*;

verus! {

/// The state the control machine enters at the next clock edge, as a
/// function of its current state, the decoded opcode and the memory
/// response line.
pub open spec fn next_state_spec(state: States, opcode: Byte, mem_resp: Byte) -> States {
    let resp = mem_resp.is_known() && mem_resp.spec_u8() != 0;
    match state {
        States::Fetch1 => States::Fetch2,
        States::Fetch2 => if resp {
            States::Fetch3
        } else {
            States::Fetch2
        },
        States::Fetch3 => States::Decode,
        States::Decode => {
            if opcode == byte8(OPCODE_LUI) {
                States::Lui
            } else if opcode == byte8(OPCODE_AUIPC) {
                States::Auipc
            } else if opcode == byte8(OPCODE_JAL) {
                States::Jal
            } else if opcode == byte8(OPCODE_JALR) {
                States::Jalr
            } else if opcode == byte8(OPCODE_BR) {
                States::Br
            } else if opcode == byte8(OPCODE_LOAD) || opcode == byte8(OPCODE_STORE) {
                States::AddrCalc
            } else if opcode == byte8(OPCODE_IMM) {
                States::Imm
            } else if opcode == byte8(OPCODE_REG) {
                States::Reg
            } else {
                States::Fetch1
            }
        },
        States::AddrCalc => if opcode == byte8(OPCODE_LOAD) {
            States::Load1
        } else {
            States::Store1
        },
        States::Load1 => if resp {
            States::Load2
        } else {
            States::Load1
        },
        States::Store1 => if resp {
            States::Store2
        } else {
            States::Store1
        },
        _ => States::Fetch1,
    }
}

/// A small constant mask shifted into the byte lane addressed by the low
/// bits of the memory address; unknown if the address is.
pub open spec fn lane_mask(base: u8, mar: Word) -> Byte {
    if mar.is_known() {
        byte8(((((base as u32) << (((mar.spec_u32() & 0x3) & 7) as u32)) & 0xff) as u8))
    } else {
        unknown_byte()
    }
}

/// The write strobe mask for the pending store, by its width.
pub open spec fn wmask_spec(funct3: Byte, mar: Word) -> Byte {
    if funct3 == byte8(FUNCT3_SW) {
        byte8(0x0f)
    } else if funct3 == byte8(FUNCT3_SH) {
        lane_mask(0x03, mar)
    } else if funct3 == byte8(FUNCT3_SB) {
        lane_mask(0x01, mar)
    } else {
        unknown_byte()
    }
}

/// The read strobe mask: a full word during fetch, else by the width of
/// the pending load.
pub open spec fn rmask_spec(state: States, funct3: Byte, mar: Word) -> Byte {
    if state == States::Fetch2 {
        byte8(0x0f)
    } else if funct3 == byte8(FUNCT3_LW) {
        byte8(0x0f)
    } else if funct3 == byte8(FUNCT3_LH) || funct3 == byte8(FUNCT3_LHU) {
        lane_mask(0x03, mar)
    } else if funct3 == byte8(FUNCT3_LB) || funct3 == byte8(FUNCT3_LBU) {
        lane_mask(0x01, mar)
    } else {
        unknown_byte()
    }
}

/// Compute a lane mask on port values.
pub fn lane_mask_exec(base: u8, mar: &Word) -> (r: Byte)
    ensures
        r == lane_mask(base, *mar),
{
    let r = Byte::from(base).shl(mar.and_byte(Byte::from(0x3u8)));
    proof {
        if mar.is_known() {
            let m = mar.spec_u32();
            assert((m & (0x3u8 as u32)) < 256) by (bit_vector);
            assert(((m & (0x3u8 as u32)) as u8) == ((m & 0x3) as u8)) by (bit_vector);
        }
    }
    r
}

/// The control unit.
pub struct Control {
    pub state: States,
    pub next_state: States,
    pub component_id: ComponentId,
    pub ack_sender: crossbeam_channel::Sender<EventId>,
    pub clock_sender: Output,
    pub clock_receiver: Input,
    pub funct3_receiver: Input,
    pub funct3: Byte,
    pub funct3_old: Byte,
    pub funct7_receiver: Input,
    pub funct7: Byte,
    pub funct7_old: Byte,
    pub cmp_out_receiver: Input,
    pub cmp_out: Byte,
    pub cmp_out_old: Byte,
    pub opcode_receiver: Input,
    pub opcode: Byte,
    pub opcode_old: Byte,
    pub mar_receiver: Input,
    pub mar: Word,
    pub mar_old: Word,
    pub mem_resp_receiver: Input,
    pub mem_resp: Byte,
    pub mem_resp_old: Byte,
    pub load_mar: Output,
    pub load_mdr: Output,
    pub load_pc: Output,
    pub load_ir: Output,
    pub load_regfile: Output,
    pub load_dataout: Output,
    pub alu_op: Output,
    pub cmp_op: Output,
    pub pc_mux_sel: Output,
    pub alu_mux1_sel: Output,
    pub alu_mux2_sel: Output,
    pub regfile_mux_sel: Output,
    pub mar_mux_sel: Output,
    pub cmp_mux_sel: Output,
    pub mem_read: Output,
    pub mem_write: Output,
    pub mem_wmask: Output,
    pub mem_rmask: Output,
}

impl Control {
    pub fn new(
        component_id: ComponentId,
        ack_sender: crossbeam_channel::Sender<EventId>,
        funct3_receiver: Input,
        funct7_receiver: Input,
        cmp_out_receiver: Input,
        opcode_receiver: Input,
        mar_receiver: Input,
        mem_resp_receiver: Input,
        load_mar: Output,
        load_mdr: Output,
        load_pc: Output,
        load_ir: Output,
        load_regfile: Output,
        load_dataout: Output,
        alu_op: Output,
        cmp_op: Output,
        pc_mux_sel: Output,
        alu_mux1_sel: Output,
        alu_mux2_sel: Output,
        regfile_mux_sel: Output,
        mar_mux_sel: Output,
        cmp_mux_sel: Output,
        mem_read: Output,
        mem_write: Output,
        mem_wmask: Output,
        mem_rmask: Output,
    ) -> (r: Control)
        ensures
            r.component_id == component_id,
            r.state == States::Fetch1,
            r.next_state == States::Fetch1,
    {
        let clock_channel = new_channel();
        Control {
            state: States::Fetch1,
            next_state: States::Fetch1,
            component_id,
            ack_sender,
            clock_sender: clock_channel.0,
            clock_receiver: clock_channel.1,
            funct3_receiver,
            funct3: Byte::unknown(),
            funct3_old: Byte::unknown(),
            funct7_receiver,
            funct7: Byte::unknown(),
            funct7_old: Byte::unknown(),
            cmp_out_receiver,
            cmp_out: Byte::unknown(),
            cmp_out_old: Byte::unknown(),
            opcode_receiver,
            opcode: Byte::unknown(),
            opcode_old: Byte::unknown(),
            mar_receiver,
            mar: Word::unknown(),
            mar_old: Word::unknown(),
            mem_resp_receiver,
            mem_resp: Byte::unknown(),
            mem_resp_old: Byte::unknown(),
            load_mar,
            load_mdr,
            load_pc,
            load_ir,
            load_regfile,
            load_dataout,
            alu_op,
            cmp_op,
            pc_mux_sel,
            alu_mux1_sel,
            alu_mux2_sel,
            regfile_mux_sel,
            mar_mux_sel,
            cmp_mux_sel,
            mem_read,
            mem_write,
            mem_wmask,
            mem_rmask,
        }
    }

    pub fn init_impl(&mut self, mgr: &mut SimManager)
        requires
            old(mgr).wf(),
        ensures
            final(mgr).wf(),
            final(mgr)@ == old(mgr)@,
            *final(self) == *old(self),
    {
    }

    pub fn reset_impl(&mut self)
        ensures
            *final(self) == *old(self),
    {
    }

    pub fn poll_impl(&mut self)
        ensures
            *final(self) == *old(self),
    {
    }

    /// On a tick the machine commits its pending transition.
    pub fn on_clock(&mut self, mgr: &mut SimManager)
        requires
            old(mgr).wf(),
        ensures
            final(mgr).wf(),
            final(mgr)@ == old(mgr)@,
            poll_transition(old(mgr)@, final(mgr)@),
            *final(self) == (Control { state: old(self).next_state, ..*old(self) }),
    {
        proof {
            lemma_poll_transition_refl(mgr@);
        }
        self.state = self.next_state;
    }

    /// The read strobe mask for the current state and pending load.
    pub fn get_rmask(&self) -> (r: Byte)
        ensures
            r == rmask_spec(self.state, self.funct3, self.mar),
    {
        if self.state == States::Fetch2 {
            Byte::from(0x0fu8)
        } else {
            match self.funct3.to_u8() {
                Some(f) if f == FUNCT3_LW => Byte::from(0x0fu8),
                Some(f) if f == FUNCT3_LH || f == FUNCT3_LHU => lane_mask_exec(0x03, &self.mar),
                Some(f) if f == FUNCT3_LB || f == FUNCT3_LBU => lane_mask_exec(0x01, &self.mar),
                _ => Byte::unknown(),
            }
        }
    }

    /// The write strobe mask for the pending store.
    pub fn get_wmask(&self) -> (r: Byte)
        ensures
            r == wmask_spec(self.funct3, self.mar),
    {
        match self.funct3.to_u8() {
            Some(f) if f == FUNCT3_SW => Byte::from(0x0fu8),
            Some(f) if f == FUNCT3_SH => lane_mask_exec(0x03, &self.mar),
            Some(f) if f == FUNCT3_SB => lane_mask_exec(0x01, &self.mar),
            _ => Byte::unknown(),
        }
    }

    /// Drive every load enable and memory strobe to its inactive default,
    /// and publish the current strobe masks.
    fn set_default_control_signals(&mut self, mgr: &mut SimManager)
        requires
            old(mgr).wf(),
        ensures
            final(mgr).wf(),
            *final(self) == *old(self),
            poll_transition(old(mgr)@, final(mgr)@),
    {
        proof {
            lemma_poll_transition_refl(mgr@);
        }
        let wmask = self.get_wmask();
        let rmask = self.get_rmask();
        let sv = Byte::from(0u8);
        let ghost pre = mgr@;
        send_byte(mgr, &self.load_mar, sv);
        proof {
            lemma_poll_transition_emit(pre, mgr@, task_to(self.load_mar, byte_event(pre.next_id, pre.cycle, sv)));
            lemma_poll_transition_trans(old(mgr)@, pre, mgr@);
        }
        let sv = Byte::from(0u8);
        let ghost pre = mgr@;
        send_byte(mgr, &self.load_mdr, sv);
        proof {
            lemma_poll_transition_emit(pre, mgr@, task_to(self.load_mdr, byte_event(pre.next_id, pre.cycle, sv)));
            lemma_poll_transition_trans(old(mgr)@, pre, mgr@);
        }
        let sv = Byte::from(0u8);
        let ghost pre = mgr@;
        send_byte(mgr, &self.load_pc, sv);
        proof {
            lemma_poll_transition_emit(pre, mgr@, task_to(self.load_pc, byte_event(pre.next_id, pre.cycle, sv)));
            lemma_poll_transition_trans(old(mgr)@, pre, mgr@);
        }
        let sv = Byte::from(0u8);
        let ghost pre = mgr@;
        send_byte(mgr, &self.load_ir, sv);
        proof {
            lemma_poll_transition_emit(pre, mgr@, task_to(self.load_ir, byte_event(pre.next_id, pre.cycle, sv)));
            lemma_poll_transition_trans(old(mgr)@, pre, mgr@);
        }
        let sv = Byte::from(0u8);
        let ghost pre = mgr@;
        send_byte(mgr, &self.load_regfile, sv);
        proof {
            lemma_poll_transition_emit(pre, mgr@, task_to(self.load_regfile, byte_event(pre.next_id, pre.cycle, sv)));
            lemma_poll_transition_trans(old(mgr)@, pre, mgr@);
        }
        let sv = Byte::from(0u8);
        let ghost pre = mgr@;
        send_byte(mgr, &self.load_dataout, sv);
        proof {
            lemma_poll_transition_emit(pre, mgr@, task_to(self.load_dataout, byte_event(pre.next_id, pre.cycle, sv)));
            lemma_poll_transition_trans(old(mgr)@, pre, mgr@);
        }
        let sv = Byte::from(0u8);
        let ghost pre = mgr@;
        send_byte(mgr, &self.mem_read, sv);
        proof {
            lemma_poll_transition_emit(pre, mgr@, task_to(self.mem_read, byte_event(pre.next_id, pre.cycle, sv)));
            lemma_poll_transition_trans(old(mgr)@, pre, mgr@);
        }
        let sv = Byte::from(0u8);
        let ghost pre = mgr@;
        send_byte(mgr, &self.mem_write, sv);
        proof {
            lemma_poll_transition_emit(pre, mgr@, task_to(self.mem_write, byte_event(pre.next_id, pre.cycle, sv)));
            lemma_poll_transition_trans(old(mgr)@, pre, mgr@);
        }
        let sv = wmask;
        let ghost pre = mgr@;
        send_byte(mgr, &self.mem_wmask, sv);
        proof {
            lemma_poll_transition_emit(pre, mgr@, task_to(self.mem_wmask, byte_event(pre.next_id, pre.cycle, sv)));
            lemma_poll_transition_trans(old(mgr)@, pre, mgr@);
        }
        let sv = rmask;
        let ghost pre = mgr@;
        send_byte(mgr, &self.mem_rmask, sv);
        proof {
            lemma_poll_transition_emit(pre, mgr@, task_to(self.mem_rmask, byte_event(pre.next_id, pre.cycle, sv)));
            lemma_poll_transition_trans(old(mgr)@, pre, mgr@);
        }
    }

    /// Raise the program-counter load enable and select its source.
    fn load_pc_sel(&mut self, mgr: &mut SimManager, sel: u8)
        requires
            old(mgr).wf(),
        ensures
            final(mgr).wf(),
            *final(self) == *old(self),
            poll_transition(old(mgr)@, final(mgr)@),
    {
        proof {
            lemma_poll_transition_refl(mgr@);
        }
        let sv = Byte::from(1u8);
        let ghost pre = mgr@;
        send_byte(mgr, &self.load_pc, sv);
        proof {
            lemma_poll_transition_emit(pre, mgr@, task_to(self.load_pc, byte_event(pre.next_id, pre.cycle, sv)));
            lemma_poll_transition_trans(old(mgr)@, pre, mgr@);
        }
        let sv = Byte::from(sel);
        let ghost pre = mgr@;
        send_byte(mgr, &self.pc_mux_sel, sv);
        proof {
            lemma_poll_transition_emit(pre, mgr@, task_to(self.pc_mux_sel, byte_event(pre.next_id, pre.cycle, sv)));
            lemma_poll_transition_trans(old(mgr)@, pre, mgr@);
        }
    }

    /// Raise the register-file write enable and select its source.
    fn load_regfile_sel(&mut self, mgr: &mut SimManager, sel: u8)
        requires
            old(mgr).wf(),
        ensures
            final(mgr).wf(),
            *final(self) == *old(self),
            poll_transition(old(mgr)@, final(mgr)@),
    {
        proof {
            lemma_poll_transition_refl(mgr@);
        }
        let sv = Byte::from(1u8);
        let ghost pre = mgr@;
        send_byte(mgr, &self.load_regfile, sv);
        proof {
            lemma_poll_transition_emit(pre, mgr@, task_to(self.load_regfile, byte_event(pre.next_id, pre.cycle, sv)));
            lemma_poll_transition_trans(old(mgr)@, pre, mgr@);
        }
        let sv = Byte::from(sel);
        let ghost pre = mgr@;
        send_byte(mgr, &self.regfile_mux_sel, sv);
        proof {
            lemma_poll_transition_emit(pre, mgr@, task_to(self.regfile_mux_sel, byte_event(pre.next_id, pre.cycle, sv)));
            lemma_poll_transition_trans(old(mgr)@, pre, mgr@);
        }
    }

    /// Raise the memory-address load enable and select its source.
    fn load_mar_sel(&mut self, mgr: &mut SimManager, sel: u8)
        requires
            old(mgr).wf(),
        ensures
            final(mgr).wf(),
            *final(self) == *old(self),
            poll_transition(old(mgr)@, final(mgr)@),
    {
        proof {
            lemma_poll_transition_refl(mgr@);
        }
        let sv = Byte::from(1u8);
        let ghost pre = mgr@;
        send_byte(mgr, &self.load_mar, sv);
        proof {
            lemma_poll_transition_emit(pre, mgr@, task_to(self.load_mar, byte_event(pre.next_id, pre.cycle, sv)));
            lemma_poll_transition_trans(old(mgr)@, pre, mgr@);
        }
        let sv = Byte::from(sel);
        let ghost pre = mgr@;
        send_byte(mgr, &self.mar_mux_sel, sv);
        proof {
            lemma_poll_transition_emit(pre, mgr@, task_to(self.mar_mux_sel, byte_event(pre.next_id, pre.cycle, sv)));
            lemma_poll_transition_trans(old(mgr)@, pre, mgr@);
        }
    }

    /// Raise the instruction-register load enable.
    fn load_ir_en(&mut self, mgr: &mut SimManager)
        requires
            old(mgr).wf(),
        ensures
            final(mgr).wf(),
            *final(self) == *old(self),
            poll_transition(old(mgr)@, final(mgr)@),
    {
        proof {
            lemma_poll_transition_refl(mgr@);
        }
        let sv = Byte::from(1u8);
        let ghost pre = mgr@;
        send_byte(mgr, &self.load_ir, sv);
        proof {
            lemma_poll_transition_emit(pre, mgr@, task_to(self.load_ir, byte_event(pre.next_id, pre.cycle, sv)));
            lemma_poll_transition_trans(old(mgr)@, pre, mgr@);
        }
    }

    /// Raise the store-data load enable.
    fn load_dout_en(&mut self, mgr: &mut SimManager)
        requires
            old(mgr).wf(),
        ensures
            final(mgr).wf(),
            *final(self) == *old(self),
            poll_transition(old(mgr)@, final(mgr)@),
    {
        proof {
            lemma_poll_transition_refl(mgr@);
        }
        let sv = Byte::from(1u8);
        let ghost pre = mgr@;
        send_byte(mgr, &self.load_dataout, sv);
        proof {
            lemma_poll_transition_emit(pre, mgr@, task_to(self.load_dataout, byte_event(pre.next_id, pre.cycle, sv)));
            lemma_poll_transition_trans(old(mgr)@, pre, mgr@);
        }
    }

    /// Select the comparator operand and operation.
    fn set_cmp(&mut self, mgr: &mut SimManager, sel: u8, cmp_op: u8)
        requires
            old(mgr).wf(),
        ensures
            final(mgr).wf(),
            *final(self) == *old(self),
            poll_transition(old(mgr)@, final(mgr)@),
    {
        proof {
            lemma_poll_transition_refl(mgr@);
        }
        let sv = Byte::from(sel);
        let ghost pre = mgr@;
        send_byte(mgr, &self.cmp_mux_sel, sv);
        proof {
            lemma_poll_transition_emit(pre, mgr@, task_to(self.cmp_mux_sel, byte_event(pre.next_id, pre.cycle, sv)));
            lemma_poll_transition_trans(old(mgr)@, pre, mgr@);
        }
        let sv = Byte::from(cmp_op);
        let ghost pre = mgr@;
        send_byte(mgr, &self.cmp_op, sv);
        proof {
            lemma_poll_transition_emit(pre, mgr@, task_to(self.cmp_op, byte_event(pre.next_id, pre.cycle, sv)));
            lemma_poll_transition_trans(old(mgr)@, pre, mgr@);
        }
    }

    /// Start a memory read into the memory-data register.
    fn read_from_mem(&mut self, mgr: &mut SimManager)
        requires
            old(mgr).wf(),
        ensures
            final(mgr).wf(),
            *final(self) == *old(self),
            poll_transition(old(mgr)@, final(mgr)@),
    {
        proof {
            lemma_poll_transition_refl(mgr@);
        }
        let sv = Byte::from(1u8);
        let ghost pre = mgr@;
        send_byte(mgr, &self.load_mdr, sv);
        proof {
            lemma_poll_transition_emit(pre, mgr@, task_to(self.load_mdr, byte_event(pre.next_id, pre.cycle, sv)));
            lemma_poll_transition_trans(old(mgr)@, pre, mgr@);
        }
        let sv = Byte::from(1u8);
        let ghost pre = mgr@;
        send_byte(mgr, &self.mem_read, sv);
        proof {
            lemma_poll_transition_emit(pre, mgr@, task_to(self.mem_read, byte_event(pre.next_id, pre.cycle, sv)));
            lemma_poll_transition_trans(old(mgr)@, pre, mgr@);
        }
    }

    /// Start a memory write.
    fn write_to_mem(&mut self, mgr: &mut SimManager)
        requires
            old(mgr).wf(),
        ensures
            final(mgr).wf(),
            *final(self) == *old(self),
            poll_transition(old(mgr)@, final(mgr)@),
    {
        proof {
            lemma_poll_transition_refl(mgr@);
        }
        let sv = Byte::from(1u8);
        let ghost pre = mgr@;
        send_byte(mgr, &self.mem_write, sv);
        proof {
            lemma_poll_transition_emit(pre, mgr@, task_to(self.mem_write, byte_event(pre.next_id, pre.cycle, sv)));
            lemma_poll_transition_trans(old(mgr)@, pre, mgr@);
        }
    }

    /// Select both ALU operands and the operation.
    fn set_alu(&mut self, mgr: &mut SimManager, sel1: u8, sel2: u8, alu_op: u8)
        requires
            old(mgr).wf(),
        ensures
            final(mgr).wf(),
            *final(self) == *old(self),
            poll_transition(old(mgr)@, final(mgr)@),
    {
        proof {
            lemma_poll_transition_refl(mgr@);
        }
        let sv = Byte::from(sel1);
        let ghost pre = mgr@;
        send_byte(mgr, &self.alu_mux1_sel, sv);
        proof {
            lemma_poll_transition_emit(pre, mgr@, task_to(self.alu_mux1_sel, byte_event(pre.next_id, pre.cycle, sv)));
            lemma_poll_transition_trans(old(mgr)@, pre, mgr@);
        }
        let sv = Byte::from(sel2);
        let ghost pre = mgr@;
        send_byte(mgr, &self.alu_mux2_sel, sv);
        proof {
            lemma_poll_transition_emit(pre, mgr@, task_to(self.alu_mux2_sel, byte_event(pre.next_id, pre.cycle, sv)));
            lemma_poll_transition_trans(old(mgr)@, pre, mgr@);
        }
        let sv = Byte::from(alu_op);
        let ghost pre = mgr@;
        send_byte(mgr, &self.alu_op, sv);
        proof {
            lemma_poll_transition_emit(pre, mgr@, task_to(self.alu_op, byte_event(pre.next_id, pre.cycle, sv)));
            lemma_poll_transition_trans(old(mgr)@, pre, mgr@);
        }
    }

    /// Drive the signal pattern of the current state.
    fn set_control_signal(&mut self, mgr: &mut SimManager)
        requires
            old(mgr).wf(),
        ensures
            final(mgr).wf(),
            *final(self) == *old(self),
            poll_transition(old(mgr)@, final(mgr)@),
    {
        proof {
            lemma_poll_transition_refl(mgr@);
        }
        match self.state {
            States::Fetch1 => {
                self.load_mar_sel(mgr, MAR_MUX_PC_OUT);
            },
            States::Fetch2 => {
                self.read_from_mem(mgr);
            },
            States::Fetch3 => {
                self.load_ir_en(mgr);
            },
            States::Decode => {},
            States::Imm => {
                let ghost m0 = mgr@;
                match (self.funct3.to_u8(), self.funct7.to_u8()) {
                    (Some(funct3), Some(funct7)) => {
                        if funct3 == FUNCT3_SLT {
                            self.load_regfile_sel(mgr, REGFILE_MUX_BR_EN);
                            self.set_cmp(mgr, CMP_MUX_I_IMM, FUNCT3_BLT);
                        } else if funct3 == FUNCT3_SLTU {
                            self.load_regfile_sel(mgr, REGFILE_MUX_BR_EN);
                            self.set_cmp(mgr, CMP_MUX_I_IMM, FUNCT3_BLTU);
                        } else if funct3 == FUNCT3_SR {
                            self.load_regfile_sel(mgr, REGFILE_MUX_ALU_OUT);
                            let op = if (funct7 >> 5u8) & 0x1 == 0x1 {
                                ALU_SRA
                            } else {
                                ALU_SRL
                            };
                            self.set_alu(mgr, ALU1_MUX_RS1_OUT, ALU2_MUX_I_IMM, op);
                        } else {
                            self.load_regfile_sel(mgr, REGFILE_MUX_ALU_OUT);
                            self.set_alu(mgr, ALU1_MUX_RS1_OUT, ALU2_MUX_I_IMM, funct3);
                        }
                    },
                    _ => {},
                }
                let ghost m1 = mgr@;
                self.load_pc_sel(mgr, PC_MUX_PC_PLUS4);
                proof {
                    lemma_poll_transition_trans(m0, m1, mgr@);
                }
            },
            States::Reg => {
                let ghost m0 = mgr@;
                match (self.funct3.to_u8(), self.funct7.to_u8()) {
                    (Some(funct3), Some(funct7)) => {
                        if funct3 == 0u8 {
                            self.load_regfile_sel(mgr, REGFILE_MUX_ALU_OUT);
                            let op = if (funct7 >> 5u8) & 0x1 == 0x1 {
                                ALU_SUB
                            } else {
                                ALU_ADD
                            };
                            self.set_alu(mgr, ALU1_MUX_RS1_OUT, ALU2_MUX_RS2_OUT, op);
                        } else if funct3 == FUNCT3_SR {
                            self.load_regfile_sel(mgr, REGFILE_MUX_ALU_OUT);
                            let op = if (funct7 >> 5u8) & 0x1 == 0x1 {
                                ALU_SRA
                            } else {
                                ALU_SRL
                            };
                            self.set_alu(mgr, ALU1_MUX_RS1_OUT, ALU2_MUX_RS2_OUT, op);
                        } else if funct3 == FUNCT3_SLT {
                            self.load_regfile_sel(mgr, REGFILE_MUX_BR_EN);
                            self.set_cmp(mgr, CMP_MUX_RS2_OUT, FUNCT3_BLT);
                        } else if funct3 == FUNCT3_SLTU {
                            self.load_regfile_sel(mgr, REGFILE_MUX_BR_EN);
                            self.set_cmp(mgr, CMP_MUX_RS2_OUT, FUNCT3_BLTU);
                        } else {
                            self.load_regfile_sel(mgr, REGFILE_MUX_ALU_OUT);
                            self.set_alu(mgr, ALU1_MUX_RS1_OUT, ALU2_MUX_RS2_OUT, funct3);
                        }
                    },
                    _ => {},
                }
                let ghost m1 = mgr@;
                self.load_pc_sel(mgr, PC_MUX_PC_PLUS4);
                proof {
                    lemma_poll_transition_trans(m0, m1, mgr@);
                }
            },
            States::Lui => {
                let ghost m0 = mgr@;
                self.load_regfile_sel(mgr, REGFILE_MUX_U_IMM);
                let ghost m1 = mgr@;
                self.load_pc_sel(mgr, PC_MUX_PC_PLUS4);
                proof {
                    lemma_poll_transition_trans(m0, m1, mgr@);
                }
            },
            States::Br => {
                let ghost m0 = mgr@;
                self.set_alu(mgr, ALU1_MUX_PC_OUT, ALU2_MUX_B_IMM, ALU_ADD);
                let ghost m1 = mgr@;
                match self.funct3.to_u8() {
                    Some(funct3) => {
                        self.set_cmp(mgr, CMP_MUX_RS2_OUT, funct3);
                    },
                    None => {},
                }
                proof {
                    lemma_poll_transition_trans(m0, m1, mgr@);
                }
                let ghost m2 = mgr@;
                let sel = if self.cmp_out.is_something_nonzero() {
                    PC_MUX_ALU_OUT
                } else {
                    PC_MUX_PC_PLUS4
                };
                self.load_pc_sel(mgr, sel);
                proof {
                    lemma_poll_transition_trans(m0, m2, mgr@);
                }
            },
            States::Auipc => {
                let ghost m0 = mgr@;
                self.load_regfile_sel(mgr, REGFILE_MUX_ALU_OUT);
                let ghost m1 = mgr@;
                self.set_alu(mgr, ALU1_MUX_PC_OUT, ALU2_MUX_U_IMM, ALU_ADD);
                proof {
                    lemma_poll_transition_trans(m0, m1, mgr@);
                }
                let ghost m2 = mgr@;
                match self.funct3.to_u8() {
                    Some(funct3) => {
                        self.set_cmp(mgr, CMP_MUX_RS2_OUT, funct3);
                    },
                    None => {},
                }
                proof {
                    lemma_poll_transition_trans(m0, m2, mgr@);
                }
                let ghost m3 = mgr@;
                self.load_pc_sel(mgr, PC_MUX_PC_PLUS4);
                proof {
                    lemma_poll_transition_trans(m0, m3, mgr@);
                }
            },
            States::AddrCalc => {
                let ghost m0 = mgr@;
                self.load_mar_sel(mgr, MAR_MUX_ALU_OUT);
                let ghost m1 = mgr@;
                let sel2 = if self.opcode == Byte::from(OPCODE_LOAD) {
                    ALU2_MUX_I_IMM
                } else {
                    ALU2_MUX_S_IMM
                };
                self.set_alu(mgr, ALU1_MUX_RS1_OUT, sel2, ALU_ADD);
                proof {
                    lemma_poll_transition_trans(m0, m1, mgr@);
                }
                let ghost m2 = mgr@;
                if self.opcode == Byte::from(OPCODE_STORE) {
                    self.load_dout_en(mgr);
                }
                proof {
                    lemma_poll_transition_trans(m0, m2, mgr@);
                }
            },
            States::Load1 => {
                self.read_from_mem(mgr);
            },
            States::Load2 => {
                let ghost m0 = mgr@;
                match self.funct3.to_u8() {
                    Some(f) if f == FUNCT3_LB => {
                        self.load_regfile_sel(mgr, REGFILE_MUX_LB);
                    },
                    Some(f) if f == FUNCT3_LH => {
                        self.load_regfile_sel(mgr, REGFILE_MUX_LH);
                    },
                    Some(f) if f == FUNCT3_LW => {
                        self.load_regfile_sel(mgr, REGFILE_MUX_LW);
                    },
                    Some(f) if f == FUNCT3_LBU => {
                        self.load_regfile_sel(mgr, REGFILE_MUX_LBU);
                    },
                    Some(f) if f == FUNCT3_LHU => {
                        self.load_regfile_sel(mgr, REGFILE_MUX_LHU);
                    },
                    _ => {},
                }
                let ghost m1 = mgr@;
                self.load_pc_sel(mgr, PC_MUX_PC_PLUS4);
                proof {
                    lemma_poll_transition_trans(m0, m1, mgr@);
                }
            },
            States::Store1 => {
                self.write_to_mem(mgr);
            },
            States::Store2 => {
                self.load_pc_sel(mgr, PC_MUX_PC_PLUS4);
            },
            States::Jal => {
                let ghost m0 = mgr@;
                self.load_pc_sel(mgr, PC_MUX_ALU_OUT);
                let ghost m1 = mgr@;
                self.set_alu(mgr, ALU1_MUX_PC_OUT, ALU2_MUX_J_IMM, ALU_ADD);
                proof {
                    lemma_poll_transition_trans(m0, m1, mgr@);
                }
                let ghost m2 = mgr@;
                self.load_regfile_sel(mgr, REGFILE_MUX_PC_PLUS4);
                proof {
                    lemma_poll_transition_trans(m0, m2, mgr@);
                }
            },
            States::Jalr => {
                let ghost m0 = mgr@;
                self.load_pc_sel(mgr, PC_MUX_ALU_MOD2);
                let ghost m1 = mgr@;
                self.set_alu(mgr, ALU1_MUX_RS1_OUT, ALU2_MUX_I_IMM, ALU_ADD);
                proof {
                    lemma_poll_transition_trans(m0, m1, mgr@);
                }
                let ghost m2 = mgr@;
                self.load_regfile_sel(mgr, REGFILE_MUX_PC_PLUS4);
                proof {
                    lemma_poll_transition_trans(m0, m2, mgr@);
                }
            },
        }
    }

    /// Record the state the machine will enter at the next clock edge.
    fn set_next_state(&mut self)
        ensures
            *final(self) == (Control {
                next_state: next_state_spec(old(self).state, old(self).opcode, old(self).mem_resp),
                ..*old(self)
            }),
    {
        self.next_state = match self.state {
            States::Fetch1 => States::Fetch2,
            States::Fetch2 => {
                if self.mem_resp.is_something_nonzero() {
                    States::Fetch3
                } else {
                    States::Fetch2
                }
            },
            States::Fetch3 => States::Decode,
            States::Decode => {
                match self.opcode.to_u8() {
                    Some(op) if op == OPCODE_LUI => States::Lui,
                    Some(op) if op == OPCODE_AUIPC => States::Auipc,
                    Some(op) if op == OPCODE_JAL => States::Jal,
                    Some(op) if op == OPCODE_JALR => States::Jalr,
                    Some(op) if op == OPCODE_BR => States::Br,
                    Some(op) if op == OPCODE_LOAD || op == OPCODE_STORE => States::AddrCalc,
                    Some(op) if op == OPCODE_IMM => States::Imm,
                    Some(op) if op == OPCODE_REG => States::Reg,
                    _ => States::Fetch1,
                }
            },
            States::AddrCalc => {
                if self.opcode == Byte::from(OPCODE_LOAD) {
                    States::Load1
                } else {
                    States::Store1
                }
            },
            States::Load1 => {
                if self.mem_resp.is_something_nonzero() {
                    States::Load2
                } else {
                    States::Load1
                }
            },
            States::Store1 => {
                if self.mem_resp.is_something_nonzero() {
                    States::Store2
                } else {
                    States::Store1
                }
            },
            _ => States::Fetch1,
        };
    }

    /// The combinational step: drive the defaults, then the current
    /// state's signal pattern, then decide the next state.
    pub fn on_comb(&mut self, mgr: &mut SimManager)
        requires
            old(mgr).wf(),
        ensures
            final(mgr).wf(),
            poll_transition(old(mgr)@, final(mgr)@),
            *final(self) == (Control {
                next_state: next_state_spec(old(self).state, old(self).opcode, old(self).mem_resp),
                ..*old(self)
            }),
    {
        let ghost m0 = mgr@;
        self.set_default_control_signals(mgr);
        let ghost m1 = mgr@;
        self.set_control_signal(mgr);
        proof {
            lemma_poll_transition_trans(m0, m1, mgr@);
        }
        self.set_next_state();
    }

    /// Take one event received on the `funct3` port: decode the payload
    /// into the port slot, run the combinational pass exactly when the
    /// value changed, sync the previous-value slot, and acknowledge.
    pub fn handle_funct3(&mut self, mgr: &mut SimManager, event: SimEvent)
        requires
            old(mgr).wf(),
        ensures
            final(mgr).wf(),
            poll_transition(old(mgr)@, final(mgr)@),
            polled_control_funct3(*old(self), *final(self), old(mgr)@, final(mgr)@, Some(event)),
    {
        match get_inner(&event) {
            Payload::Byte(v) => {
                self.funct3 = v;
            },
            _ => {},
        }
        if !(self.funct3 == self.funct3_old) {
            self.on_comb(mgr);
        } else {
            proof {
                lemma_poll_transition_refl(mgr@);
            }
        }
        self.funct3_old = self.funct3;
        let _ = try_send(&self.ack_sender, event.event_id);
    }

    /// Take one event received on the `funct7` port: decode the payload
    /// into the port slot, run the combinational pass exactly when the
    /// value changed, sync the previous-value slot, and acknowledge.
    pub fn handle_funct7(&mut self, mgr: &mut SimManager, event: SimEvent)
        requires
            old(mgr).wf(),
        ensures
            final(mgr).wf(),
            poll_transition(old(mgr)@, final(mgr)@),
            polled_control_funct7(*old(self), *final(self), old(mgr)@, final(mgr)@, Some(event)),
    {
        match get_inner(&event) {
            Payload::Byte(v) => {
                self.funct7 = v;
            },
            _ => {},
        }
        if !(self.funct7 == self.funct7_old) {
            self.on_comb(mgr);
        } else {
            proof {
                lemma_poll_transition_refl(mgr@);
            }
        }
        self.funct7_old = self.funct7;
        let _ = try_send(&self.ack_sender, event.event_id);
    }

    /// Take one event received on the `cmp_out` port: decode the payload
    /// into the port slot, run the combinational pass exactly when the
    /// value changed, sync the previous-value slot, and acknowledge.
    pub fn handle_cmp_out(&mut self, mgr: &mut SimManager, event: SimEvent)
        requires
            old(mgr).wf(),
        ensures
            final(mgr).wf(),
            poll_transition(old(mgr)@, final(mgr)@),
            polled_control_cmp_out(*old(self), *final(self), old(mgr)@, final(mgr)@, Some(event)),
    {
        match get_inner(&event) {
            Payload::Byte(v) => {
                self.cmp_out = v;
            },
            _ => {},
        }
        if !(self.cmp_out == self.cmp_out_old) {
            self.on_comb(mgr);
        } else {
            proof {
                lemma_poll_transition_refl(mgr@);
            }
        }
        self.cmp_out_old = self.cmp_out;
        let _ = try_send(&self.ack_sender, event.event_id);
    }

    /// Take one event received on the `opcode` port: decode the payload
    /// into the port slot, run the combinational pass exactly when the
    /// value changed, sync the previous-value slot, and acknowledge.
    pub fn handle_opcode(&mut self, mgr: &mut SimManager, event: SimEvent)
        requires
            old(mgr).wf(),
        ensures
            final(mgr).wf(),
            poll_transition(old(mgr)@, final(mgr)@),
            polled_control_opcode(*old(self), *final(self), old(mgr)@, final(mgr)@, Some(event)),
    {
        match get_inner(&event) {
            Payload::Byte(v) => {
                self.opcode = v;
            },
            _ => {},
        }
        if !(self.opcode == self.opcode_old) {
            self.on_comb(mgr);
        } else {
            proof {
                lemma_poll_transition_refl(mgr@);
            }
        }
        self.opcode_old = self.opcode;
        let _ = try_send(&self.ack_sender, event.event_id);
    }

    /// Take one event received on the `mar` port: decode the payload
    /// into the port slot, run the combinational pass exactly when the
    /// value changed, sync the previous-value slot, and acknowledge.
    pub fn handle_mar(&mut self, mgr: &mut SimManager, event: SimEvent)
        requires
            old(mgr).wf(),
        ensures
            final(mgr).wf(),
            poll_transition(old(mgr)@, final(mgr)@),
            polled_control_mar(*old(self), *final(self), old(mgr)@, final(mgr)@, Some(event)),
    {
        match get_inner(&event) {
            Payload::Word(v) => {
                self.mar = v;
            },
            _ => {},
        }
        if !(self.mar == self.mar_old) {
            self.on_comb(mgr);
        } else {
            proof {
                lemma_poll_transition_refl(mgr@);
            }
        }
        self.mar_old = self.mar;
        let _ = try_send(&self.ack_sender, event.event_id);
    }

    /// Take one event received on the `mem_resp` port: decode the payload
    /// into the port slot, run the combinational pass exactly when the
    /// value changed, sync the previous-value slot, and acknowledge.
    pub fn handle_mem_resp(&mut self, mgr: &mut SimManager, event: SimEvent)
        requires
            old(mgr).wf(),
        ensures
            final(mgr).wf(),
            poll_transition(old(mgr)@, final(mgr)@),
            polled_control_mem_resp(*old(self), *final(self), old(mgr)@, final(mgr)@, Some(event)),
    {
        match get_inner(&event) {
            Payload::Byte(v) => {
                self.mem_resp = v;
            },
            _ => {},
        }
        if !(self.mem_resp == self.mem_resp_old) {
            self.on_comb(mgr);
        } else {
            proof {
                lemma_poll_transition_refl(mgr@);
            }
        }
        self.mem_resp_old = self.mem_resp;
        let _ = try_send(&self.ack_sender, event.event_id);
    }

    /// Take one clock event: commit the pending state, run the
    /// combinational pass, and acknowledge.
    pub fn handle_clock(&mut self, mgr: &mut SimManager, event: SimEvent)
        requires
            old(mgr).wf(),
        ensures
            final(mgr).wf(),
            poll_transition(old(mgr)@, final(mgr)@),
            polled_control_clock(*old(self), *final(self), old(mgr)@, final(mgr)@, Some(event)),
    {
        let ghost m0 = mgr@;
        self.on_clock(mgr);
        let ghost m1 = mgr@;
        self.on_comb(mgr);
        proof {
            lemma_poll_transition_trans(m0, m1, mgr@);
        }
        let _ = try_send(&self.ack_sender, event.event_id);
    }
}

/// What taking one event on the `funct3` port leaves behind: the decoded
/// payload in the port slot, the previous-value slot synced, and -- when
/// the observed value changed -- the combinational pass: signals driven on
/// the output ports and the next state decided from the updated inputs.
pub open spec fn polled_control_funct3(
    pre: Control,
    post: Control,
    pre_m: SimManagerView,
    post_m: SimManagerView,
    polled: Option<SimEvent>,
) -> bool {
    match polled {
        None => post == pre && post_m == pre_m,
        Some(e) => {
            &&& post.funct3 == (match e.payload {
                Payload::Byte(v) => v,
                _ => pre.funct3,
            })
            &&& (post.funct3 != pre.funct3_old ==> post == (Control {
                funct3: post.funct3,
                funct3_old: post.funct3,
                next_state: next_state_spec(pre.state, post.opcode, post.mem_resp),
                ..pre
            }) && poll_transition(pre_m, post_m))
            &&& (post.funct3 == pre.funct3_old ==> post == (Control {
                funct3: post.funct3,
                funct3_old: post.funct3,
                ..pre
            }) && post_m == pre_m)
        },
    }
}

/// What taking one event on the `funct7` port leaves behind: the decoded
/// payload in the port slot, the previous-value slot synced, and -- when
/// the observed value changed -- the combinational pass: signals driven on
/// the output ports and the next state decided from the updated inputs.
pub open spec fn polled_control_funct7(
    pre: Control,
    post: Control,
    pre_m: SimManagerView,
    post_m: SimManagerView,
    polled: Option<SimEvent>,
) -> bool {
    match polled {
        None => post == pre && post_m == pre_m,
        Some(e) => {
            &&& post.funct7 == (match e.payload {
                Payload::Byte(v) => v,
                _ => pre.funct7,
            })
            &&& (post.funct7 != pre.funct7_old ==> post == (Control {
                funct7: post.funct7,
                funct7_old: post.funct7,
                next_state: next_state_spec(pre.state, post.opcode, post.mem_resp),
                ..pre
            }) && poll_transition(pre_m, post_m))
            &&& (post.funct7 == pre.funct7_old ==> post == (Control {
                funct7: post.funct7,
                funct7_old: post.funct7,
                ..pre
            }) && post_m == pre_m)
        },
    }
}

/// What taking one event on the `cmp_out` port leaves behind: the decoded
/// payload in the port slot, the previous-value slot synced, and -- when
/// the observed value changed -- the combinational pass: signals driven on
/// the output ports and the next state decided from the updated inputs.
pub open spec fn polled_control_cmp_out(
    pre: Control,
    post: Control,
    pre_m: SimManagerView,
    post_m: SimManagerView,
    polled: Option<SimEvent>,
) -> bool {
    match polled {
        None => post == pre && post_m == pre_m,
        Some(e) => {
            &&& post.cmp_out == (match e.payload {
                Payload::Byte(v) => v,
                _ => pre.cmp_out,
            })
            &&& (post.cmp_out != pre.cmp_out_old ==> post == (Control {
                cmp_out: post.cmp_out,
                cmp_out_old: post.cmp_out,
                next_state: next_state_spec(pre.state, post.opcode, post.mem_resp),
                ..pre
            }) && poll_transition(pre_m, post_m))
            &&& (post.cmp_out == pre.cmp_out_old ==> post == (Control {
                cmp_out: post.cmp_out,
                cmp_out_old: post.cmp_out,
                ..pre
            }) && post_m == pre_m)
        },
    }
}

/// What taking one event on the `opcode` port leaves behind: the decoded
/// payload in the port slot, the previous-value slot synced, and -- when
/// the observed value changed -- the combinational pass: signals driven on
/// the output ports and the next state decided from the updated inputs.
pub open spec fn polled_control_opcode(
    pre: Control,
    post: Control,
    pre_m: SimManagerView,
    post_m: SimManagerView,
    polled: Option<SimEvent>,
) -> bool {
    match polled {
        None => post == pre && post_m == pre_m,
        Some(e) => {
            &&& post.opcode == (match e.payload {
                Payload::Byte(v) => v,
                _ => pre.opcode,
            })
            &&& (post.opcode != pre.opcode_old ==> post == (Control {
                opcode: post.opcode,
                opcode_old: post.opcode,
                next_state: next_state_spec(pre.state, post.opcode, post.mem_resp),
                ..pre
            }) && poll_transition(pre_m, post_m))
            &&& (post.opcode == pre.opcode_old ==> post == (Control {
                opcode: post.opcode,
                opcode_old: post.opcode,
                ..pre
            }) && post_m == pre_m)
        },
    }
}

/// What taking one event on the `mar` port leaves behind: the decoded
/// payload in the port slot, the previous-value slot synced, and -- when
/// the observed value changed -- the combinational pass: signals driven on
/// the output ports and the next state decided from the updated inputs.
pub open spec fn polled_control_mar(
    pre: Control,
    post: Control,
    pre_m: SimManagerView,
    post_m: SimManagerView,
    polled: Option<SimEvent>,
) -> bool {
    match polled {
        None => post == pre && post_m == pre_m,
        Some(e) => {
            &&& post.mar == (match e.payload {
                Payload::Word(v) => v,
                _ => pre.mar,
            })
            &&& (post.mar != pre.mar_old ==> post == (Control {
                mar: post.mar,
                mar_old: post.mar,
                next_state: next_state_spec(pre.state, post.opcode, post.mem_resp),
                ..pre
            }) && poll_transition(pre_m, post_m))
            &&& (post.mar == pre.mar_old ==> post == (Control {
                mar: post.mar,
                mar_old: post.mar,
                ..pre
            }) && post_m == pre_m)
        },
    }
}

/// What taking one event on the `mem_resp` port leaves behind: the decoded
/// payload in the port slot, the previous-value slot synced, and -- when
/// the observed value changed -- the combinational pass: signals driven on
/// the output ports and the next state decided from the updated inputs.
pub open spec fn polled_control_mem_resp(
    pre: Control,
    post: Control,
    pre_m: SimManagerView,
    post_m: SimManagerView,
    polled: Option<SimEvent>,
) -> bool {
    match polled {
        None => post == pre && post_m == pre_m,
        Some(e) => {
            &&& post.mem_resp == (match e.payload {
                Payload::Byte(v) => v,
                _ => pre.mem_resp,
            })
            &&& (post.mem_resp != pre.mem_resp_old ==> post == (Control {
                mem_resp: post.mem_resp,
                mem_resp_old: post.mem_resp,
                next_state: next_state_spec(pre.state, post.opcode, post.mem_resp),
                ..pre
            }) && poll_transition(pre_m, post_m))
            &&& (post.mem_resp == pre.mem_resp_old ==> post == (Control {
                mem_resp: post.mem_resp,
                mem_resp_old: post.mem_resp,
                ..pre
            }) && post_m == pre_m)
        },
    }
}

/// What taking one clock event leaves behind: the pending state is
/// committed, the combinational pass runs from it, and the event is
/// acknowledged.
pub open spec fn polled_control_clock(
    pre: Control,
    post: Control,
    pre_m: SimManagerView,
    post_m: SimManagerView,
    polled: Option<SimEvent>,
) -> bool {
    match polled {
        None => post == pre && post_m == pre_m,
        Some(e) => {
            &&& post == (Control {
                state: pre.next_state,
                next_state: next_state_spec(pre.next_state, pre.opcode, pre.mem_resp),
                ..pre
            })
            &&& poll_transition(pre_m, post_m)
        },
    }
}

impl Component for Control {
    fn get_component_id(&self) -> ComponentId {
        self.component_id
    }

    fn init(&mut self, mgr: &mut SimManager)
        ensures
            final(mgr)@ == old(mgr)@.with_subs(old(mgr)@.subs.push(old(self).clock_sender)),
    {
        self.init_impl(mgr);
        mgr.register_clock_tick(crate::channel::clone_sender(&self.clock_sender));
    }

    fn reset(&mut self) {
        self.reset_impl();
    }

    fn poll_recv(&mut self, mgr: &mut SimManager)
        ensures
            exists|po_clock: Option<SimEvent>, po_funct3: Option<SimEvent>, po_funct7: Option<SimEvent>, po_cmp_out: Option<SimEvent>, po_opcode: Option<SimEvent>, po_mar: Option<SimEvent>, po_mem_resp: Option<SimEvent>, cs1: Control, cs2: Control, cs3: Control, cs4: Control, cs5: Control, cs6: Control, mv1: SimManagerView, mv2: SimManagerView, mv3: SimManagerView, mv4: SimManagerView, mv5: SimManagerView, mv6: SimManagerView|
                #![trigger polled_control_clock(*old(self), cs1, old(mgr)@, mv1, po_clock), polled_control_funct3(cs1, cs2, mv1, mv2, po_funct3), polled_control_funct7(cs2, cs3, mv2, mv3, po_funct7), polled_control_cmp_out(cs3, cs4, mv3, mv4, po_cmp_out), polled_control_opcode(cs4, cs5, mv4, mv5, po_opcode), polled_control_mar(cs5, cs6, mv5, mv6, po_mar), polled_control_mem_resp(cs6, *final(self), mv6, final(mgr)@, po_mem_resp)]
                {
                    &&& polled_control_clock(*old(self), cs1, old(mgr)@, mv1, po_clock)
                    &&& polled_control_funct3(cs1, cs2, mv1, mv2, po_funct3)
                    &&& polled_control_funct7(cs2, cs3, mv2, mv3, po_funct7)
                    &&& polled_control_cmp_out(cs3, cs4, mv3, mv4, po_cmp_out)
                    &&& polled_control_opcode(cs4, cs5, mv4, mv5, po_opcode)
                    &&& polled_control_mar(cs5, cs6, mv5, mv6, po_mar)
                    &&& polled_control_mem_resp(cs6, *final(self), mv6, final(mgr)@, po_mem_resp)
                },
    {
        self.poll_impl();
        let ghost w0s = *self;
        let ghost w0m = mgr@;
        let ghost mut po_clock: Option<SimEvent> = None;
        match try_recv(&self.clock_receiver) {
            ChannelPoll::Item(event) => {
                proof {
                    po_clock = Some(event);
                }
                self.handle_clock(mgr, event);
            },
            _ => {},
        }
        proof {
            lemma_poll_transition_refl(mgr@);
            lemma_poll_transition_trans(old(mgr)@, w0m, mgr@);
        }
        let ghost w1s = *self;
        let ghost w1m = mgr@;
        let ghost mut po_funct3: Option<SimEvent> = None;
        match try_recv(&self.funct3_receiver) {
            ChannelPoll::Item(event) => {
                proof {
                    po_funct3 = Some(event);
                }
                self.handle_funct3(mgr, event);
            },
            _ => {},
        }
        proof {
            lemma_poll_transition_refl(mgr@);
            lemma_poll_transition_trans(old(mgr)@, w1m, mgr@);
        }
        let ghost w2s = *self;
        let ghost w2m = mgr@;
        let ghost mut po_funct7: Option<SimEvent> = None;
        match try_recv(&self.funct7_receiver) {
            ChannelPoll::Item(event) => {
                proof {
                    po_funct7 = Some(event);
                }
                self.handle_funct7(mgr, event);
            },
            _ => {},
        }
        proof {
            lemma_poll_transition_refl(mgr@);
            lemma_poll_transition_trans(old(mgr)@, w2m, mgr@);
        }
        let ghost w3s = *self;
        let ghost w3m = mgr@;
        let ghost mut po_cmp_out: Option<SimEvent> = None;
        match try_recv(&self.cmp_out_receiver) {
            ChannelPoll::Item(event) => {
                proof {
                    po_cmp_out = Some(event);
                }
                self.handle_cmp_out(mgr, event);
            },
            _ => {},
        }
        proof {
            lemma_poll_transition_refl(mgr@);
            lemma_poll_transition_trans(old(mgr)@, w3m, mgr@);
        }
        let ghost w4s = *self;
        let ghost w4m = mgr@;
        let ghost mut po_opcode: Option<SimEvent> = None;
        match try_recv(&self.opcode_receiver) {
            ChannelPoll::Item(event) => {
                proof {
                    po_opcode = Some(event);
                }
                self.handle_opcode(mgr, event);
            },
            _ => {},
        }
        proof {
            lemma_poll_transition_refl(mgr@);
            lemma_poll_transition_trans(old(mgr)@, w4m, mgr@);
        }
        let ghost w5s = *self;
        let ghost w5m = mgr@;
        let ghost mut po_mar: Option<SimEvent> = None;
        match try_recv(&self.mar_receiver) {
            ChannelPoll::Item(event) => {
                proof {
                    po_mar = Some(event);
                }
                self.handle_mar(mgr, event);
            },
            _ => {},
        }
        proof {
            lemma_poll_transition_refl(mgr@);
            lemma_poll_transition_trans(old(mgr)@, w5m, mgr@);
        }
        let ghost w6s = *self;
        let ghost w6m = mgr@;
        let ghost mut po_mem_resp: Option<SimEvent> = None;
        match try_recv(&self.mem_resp_receiver) {
            ChannelPoll::Item(event) => {
                proof {
                    po_mem_resp = Some(event);
                }
                self.handle_mem_resp(mgr, event);
            },
            _ => {},
        }
        proof {
            lemma_poll_transition_refl(mgr@);
            lemma_poll_transition_trans(old(mgr)@, w6m, mgr@);
        }
        proof {
            assert(polled_control_clock(w0s, w1s, w0m, w1m, po_clock));
            assert(polled_control_funct3(w1s, w2s, w1m, w2m, po_funct3));
            assert(polled_control_funct7(w2s, w3s, w2m, w3m, po_funct7));
            assert(polled_control_cmp_out(w3s, w4s, w3m, w4m, po_cmp_out));
            assert(polled_control_opcode(w4s, w5s, w4m, w5m, po_opcode));
            assert(polled_control_mar(w5s, w6s, w5m, w6m, po_mar));
            assert(polled_control_mem_resp(w6s, *self, w6m, mgr@, po_mem_resp));
        }
    }
}

} // verus!
