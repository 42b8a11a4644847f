//! The self-contained multi-cycle core: the whole datapath held in one
//! structure and advanced one clock per call. Control decisions, the ALU,
//! the comparator, the write-back multiplexer and the strobe masks follow
//! the same specifications as the message-passing datapath components.

use crate::backend::alu::{alu_compute, alu_out};
use crate::backend::cmp::{cmp_compute, cmp_taken};
use crate::backend::control::{
    lane_mask_exec, next_state_spec, rmask_spec, wmask_spec,
};
use crate::backend::data_out::data_out_shifted;
use crate::backend::mem_ctl::loaded_image;
use crate::backend::regfile::{reg_read, reg_write, regfile_mux_compute, regfile_mux_out};
use crate::isa::{
    States, ALU1_MUX_PC_OUT, ALU1_MUX_RS1_OUT, ALU2_MUX_B_IMM, ALU2_MUX_I_IMM, ALU2_MUX_J_IMM,
    ALU2_MUX_RS2_OUT, ALU2_MUX_S_IMM, ALU2_MUX_U_IMM, ALU_ADD, ALU_SRA, ALU_SRL, ALU_SUB,
    CMP_MUX_I_IMM, CMP_MUX_RS2_OUT, FUNCT3_BLT, FUNCT3_BLTU, FUNCT3_LB, FUNCT3_LBU, FUNCT3_LH,
    FUNCT3_LHU, FUNCT3_LW, FUNCT3_SLT, FUNCT3_SLTU, FUNCT3_SR, MAR_MUX_ALU_OUT, MAR_MUX_PC_OUT,
    OPCODE_LOAD, OPCODE_STORE, PC_MUX_ALU_MOD2, PC_MUX_ALU_OUT, PC_MUX_PC_PLUS4,
    REGFILE_MUX_ALU_OUT, REGFILE_MUX_BR_EN, REGFILE_MUX_LB, REGFILE_MUX_LBU, REGFILE_MUX_LH,
    REGFILE_MUX_LHU, REGFILE_MUX_LW, REGFILE_MUX_PC_PLUS4, REGFILE_MUX_U_IMM,
};
use crate::unicore::ir::IR;
use crate::unicore::mem_ctl::MemCtl;
use crate::unicore::mmio_driver::MMIODriver;
use crate::unicore::regfile::RegFile;
use crate::word::{byte8, u32_add, unknown_word, word32, Byte, Word};
use vstd::prelude::*;

verus! {

/// The control signals driven during one cycle.
#[derive(Clone, Copy, Debug)]
pub struct Signals {
    pub load_mar: u8,
    pub load_mdr: u8,
    pub load_pc: u8,
    pub load_ir: u8,
    pub load_regfile: u8,
    pub load_data_out: u8,
    pub pc_mux_sel: u8,
    pub cmp_op: u8,
    pub alu_mux1_sel: u8,
    pub alu_mux2_sel: u8,
    pub regfile_mux_sel: u8,
    pub mar_mux_sel: u8,
    pub cmp_mux_sel: u8,
    pub alu_op: u8,
    pub mem_read: u8,
    pub mem_write: u8,
    pub mem_byte_enable: u8,
}

/// Every signal inactive: nothing loads, nothing strobes, every selector
/// at its first input.
pub open spec fn default_signals() -> Signals {
    Signals {
        load_mar: 0,
        load_mdr: 0,
        load_pc: 0,
        load_ir: 0,
        load_regfile: 0,
        load_data_out: 0,
        pc_mux_sel: 0,
        cmp_op: 0,
        alu_mux1_sel: 0,
        alu_mux2_sel: 0,
        regfile_mux_sel: 0,
        mar_mux_sel: 0,
        cmp_mux_sel: 0,
        alu_op: 0,
        mem_read: 0,
        mem_write: 0,
        mem_byte_enable: 0,
    }
}

/// Whether the branch decided in the `Br` state is taken: the comparator
/// sees both source registers and the branch's own `funct3` (the default
/// equality test if the instruction's `funct3` is unknown).
pub open spec fn br_taken(regs: Seq<Word>, ir: IR) -> bool {
    let op = if ir.funct3.is_known() {
        ir.funct3
    } else {
        byte8(0)
    };
    cmp_taken(op, reg_read(regs, ir.rs1), reg_read(regs, ir.rs2))
}

/// The control signals the machine drives in a given state, for a given
/// decoded instruction, register bank and pending write strobe mask.
pub open spec fn control_signals_spec(
    state: States,
    ir: IR,
    regs: Seq<Word>,
    wmask: Byte,
) -> Signals {
    let d = default_signals();
    match state {
        States::Fetch1 => Signals { load_mar: 1, mar_mux_sel: MAR_MUX_PC_OUT, ..d },
        States::Fetch2 => Signals { load_mdr: 1, mem_read: 1, ..d },
        States::Fetch3 => Signals { load_ir: 1, ..d },
        States::Decode => d,
        States::Imm => {
            let base = if ir.funct3.is_known() && ir.funct7.is_known() {
                let f3 = ir.funct3.spec_u8();
                let f7 = ir.funct7.spec_u8();
                if f3 == FUNCT3_SLT {
                    Signals {
                        load_regfile: 1,
                        regfile_mux_sel: REGFILE_MUX_BR_EN,
                        cmp_mux_sel: CMP_MUX_I_IMM,
                        cmp_op: FUNCT3_BLT,
                        ..d
                    }
                } else if f3 == FUNCT3_SLTU {
                    Signals {
                        load_regfile: 1,
                        regfile_mux_sel: REGFILE_MUX_BR_EN,
                        cmp_mux_sel: CMP_MUX_I_IMM,
                        cmp_op: FUNCT3_BLTU,
                        ..d
                    }
                } else if f3 == FUNCT3_SR {
                    Signals {
                        load_regfile: 1,
                        regfile_mux_sel: REGFILE_MUX_ALU_OUT,
                        alu_mux1_sel: ALU1_MUX_RS1_OUT,
                        alu_mux2_sel: ALU2_MUX_I_IMM,
                        alu_op: if (f7 >> 5) & 0x1 == 0x1 {
                            ALU_SRA
                        } else {
                            ALU_SRL
                        },
                        ..d
                    }
                } else {
                    Signals {
                        load_regfile: 1,
                        regfile_mux_sel: REGFILE_MUX_ALU_OUT,
                        alu_mux1_sel: ALU1_MUX_RS1_OUT,
                        alu_mux2_sel: ALU2_MUX_I_IMM,
                        alu_op: f3,
                        ..d
                    }
                }
            } else {
                d
            };
            Signals { load_pc: 1, pc_mux_sel: PC_MUX_PC_PLUS4, ..base }
        },
        States::Reg => {
            let base = if ir.funct3.is_known() && ir.funct7.is_known() {
                let f3 = ir.funct3.spec_u8();
                let f7 = ir.funct7.spec_u8();
                if f3 == 0 {
                    Signals {
                        load_regfile: 1,
                        regfile_mux_sel: REGFILE_MUX_ALU_OUT,
                        alu_mux1_sel: ALU1_MUX_RS1_OUT,
                        alu_mux2_sel: ALU2_MUX_RS2_OUT,
                        alu_op: if (f7 >> 5) & 0x1 == 0x1 {
                            ALU_SUB
                        } else {
                            ALU_ADD
                        },
                        ..d
                    }
                } else if f3 == FUNCT3_SR {
                    Signals {
                        load_regfile: 1,
                        regfile_mux_sel: REGFILE_MUX_ALU_OUT,
                        alu_mux1_sel: ALU1_MUX_RS1_OUT,
                        alu_mux2_sel: ALU2_MUX_RS2_OUT,
                        alu_op: if (f7 >> 5) & 0x1 == 0x1 {
                            ALU_SRA
                        } else {
                            ALU_SRL
                        },
                        ..d
                    }
                } else if f3 == FUNCT3_SLT {
                    Signals {
                        load_regfile: 1,
                        regfile_mux_sel: REGFILE_MUX_BR_EN,
                        cmp_mux_sel: CMP_MUX_RS2_OUT,
                        cmp_op: FUNCT3_BLT,
                        ..d
                    }
                } else if f3 == FUNCT3_SLTU {
                    Signals {
                        load_regfile: 1,
                        regfile_mux_sel: REGFILE_MUX_BR_EN,
                        cmp_mux_sel: CMP_MUX_RS2_OUT,
                        cmp_op: FUNCT3_BLTU,
                        ..d
                    }
                } else {
                    Signals {
                        load_regfile: 1,
                        regfile_mux_sel: REGFILE_MUX_ALU_OUT,
                        alu_mux1_sel: ALU1_MUX_RS1_OUT,
                        alu_mux2_sel: ALU2_MUX_RS2_OUT,
                        alu_op: f3,
                        ..d
                    }
                }
            } else {
                d
            };
            Signals { load_pc: 1, pc_mux_sel: PC_MUX_PC_PLUS4, ..base }
        },
        States::Lui => Signals {
            load_regfile: 1,
            regfile_mux_sel: REGFILE_MUX_U_IMM,
            load_pc: 1,
            pc_mux_sel: PC_MUX_PC_PLUS4,
            ..d
        },
        States::Br => {
            let base = Signals {
                alu_mux1_sel: ALU1_MUX_PC_OUT,
                alu_mux2_sel: ALU2_MUX_B_IMM,
                alu_op: ALU_ADD,
                cmp_mux_sel: CMP_MUX_RS2_OUT,
                cmp_op: if ir.funct3.is_known() {
                    ir.funct3.spec_u8()
                } else {
                    0
                },
                ..d
            };
            Signals {
                load_pc: 1,
                pc_mux_sel: if br_taken(regs, ir) {
                    PC_MUX_ALU_OUT
                } else {
                    PC_MUX_PC_PLUS4
                },
                ..base
            }
        },
        States::Auipc => Signals {
            load_regfile: 1,
            regfile_mux_sel: REGFILE_MUX_ALU_OUT,
            alu_mux1_sel: ALU1_MUX_PC_OUT,
            alu_mux2_sel: ALU2_MUX_U_IMM,
            alu_op: ALU_ADD,
            cmp_mux_sel: CMP_MUX_RS2_OUT,
            cmp_op: if ir.funct3.is_known() {
                ir.funct3.spec_u8()
            } else {
                0
            },
            load_pc: 1,
            pc_mux_sel: PC_MUX_PC_PLUS4,
            ..d
        },
        States::AddrCalc => Signals {
            load_mar: 1,
            mar_mux_sel: MAR_MUX_ALU_OUT,
            alu_mux1_sel: ALU1_MUX_RS1_OUT,
            alu_mux2_sel: if ir.opcode == byte8(OPCODE_LOAD) {
                ALU2_MUX_I_IMM
            } else {
                ALU2_MUX_S_IMM
            },
            alu_op: ALU_ADD,
            load_data_out: if ir.opcode == byte8(OPCODE_STORE) {
                1
            } else {
                0
            },
            ..d
        },
        States::Load1 => Signals { load_mdr: 1, mem_read: 1, ..d },
        States::Load2 => {
            let base = if ir.funct3 == byte8(FUNCT3_LB) {
                Signals { load_regfile: 1, regfile_mux_sel: REGFILE_MUX_LB, ..d }
            } else if ir.funct3 == byte8(FUNCT3_LH) {
                Signals { load_regfile: 1, regfile_mux_sel: REGFILE_MUX_LH, ..d }
            } else if ir.funct3 == byte8(FUNCT3_LW) {
                Signals { load_regfile: 1, regfile_mux_sel: REGFILE_MUX_LW, ..d }
            } else if ir.funct3 == byte8(FUNCT3_LBU) {
                Signals { load_regfile: 1, regfile_mux_sel: REGFILE_MUX_LBU, ..d }
            } else if ir.funct3 == byte8(FUNCT3_LHU) {
                Signals { load_regfile: 1, regfile_mux_sel: REGFILE_MUX_LHU, ..d }
            } else {
                d
            };
            Signals { load_pc: 1, pc_mux_sel: PC_MUX_PC_PLUS4, ..base }
        },
        States::Store1 => {
            if wmask.is_known() {
                Signals { mem_write: 1, mem_byte_enable: wmask.spec_u8(), ..d }
            } else {
                d
            }
        },
        States::Store2 => Signals { load_pc: 1, pc_mux_sel: PC_MUX_PC_PLUS4, ..d },
        States::Jal => Signals {
            load_pc: 1,
            pc_mux_sel: PC_MUX_ALU_OUT,
            alu_mux1_sel: ALU1_MUX_PC_OUT,
            alu_mux2_sel: ALU2_MUX_J_IMM,
            alu_op: ALU_ADD,
            load_regfile: 1,
            regfile_mux_sel: REGFILE_MUX_PC_PLUS4,
            ..d
        },
        States::Jalr => Signals {
            load_pc: 1,
            pc_mux_sel: PC_MUX_ALU_MOD2,
            alu_mux1_sel: ALU1_MUX_RS1_OUT,
            alu_mux2_sel: ALU2_MUX_I_IMM,
            alu_op: ALU_ADD,
            load_regfile: 1,
            regfile_mux_sel: REGFILE_MUX_PC_PLUS4,
            ..d
        },
    }
}

/// Whether the state starts a memory access this cycle: fetches and
/// loads always, a store once its strobe mask is known.
pub open spec fn requests_memory(state: States, wmask: Byte) -> bool {
    state == States::Fetch2 || state == States::Load1 || (state == States::Store1
        && wmask.is_known())
}

/// The self-contained multi-cycle core.
pub struct Core<D: MMIODriver> {
    pub pc: Word,
    pub mar: Word,
    pub mdr: Word,
    pub regfile_din: Word,
    pub alu_out: Word,
    pub cmp_out: Word,
    pub wmask: Byte,
    pub rmask: Byte,
    pub ir: IR,
    pub data_out: Word,
    pub control_signals: Signals,
    pub state: States,
    pub next_state: States,
    pub regfile: RegFile,
    pub mem_ctl: MemCtl<D>,
}

impl<D: MMIODriver> Core<D> {
    /// Commit the pending state transition.
    fn update_state(&mut self)
        ensures
            *final(self) == (Core { state: old(self).next_state, ..*old(self) }),
    {
        self.state = self.next_state;
    }

    /// Raise the program-counter load enable and select its source.
    fn load_pc(&mut self, sel: u8)
        ensures
            *final(self) == (Core {
                control_signals: Signals {
                    load_pc: 1,
                    pc_mux_sel: sel,
                    ..old(self).control_signals
                },
                ..*old(self)
            }),
    {
        self.control_signals.load_pc = 1;
        self.control_signals.pc_mux_sel = sel;
    }

    /// Raise the register-file write enable and select its source.
    fn load_regfile(&mut self, sel: u8)
        ensures
            *final(self) == (Core {
                control_signals: Signals {
                    load_regfile: 1,
                    regfile_mux_sel: sel,
                    ..old(self).control_signals
                },
                ..*old(self)
            }),
    {
        self.control_signals.load_regfile = 1;
        self.control_signals.regfile_mux_sel = sel;
    }

    /// Raise the memory-address load enable and select its source.
    fn load_mar(&mut self, sel: u8)
        ensures
            *final(self) == (Core {
                control_signals: Signals {
                    load_mar: 1,
                    mar_mux_sel: sel,
                    ..old(self).control_signals
                },
                ..*old(self)
            }),
    {
        self.control_signals.load_mar = 1;
        self.control_signals.mar_mux_sel = sel;
    }

    /// Start a memory read into the memory-data register.
    fn load_mdr(&mut self)
        ensures
            final(self).control_signals == (Signals {
                load_mdr: 1,
                mem_read: 1,
                ..old(self).control_signals
            }),
            final(self).mem_ctl.mem() == old(self).mem_ctl.mem(),
            final(self).mem_ctl.mmio() == old(self).mem_ctl.mmio(),
            final(self).mem_ctl.latency() == old(self).mem_ctl.latency(),
            old(self).mem_ctl.wait() == 0 ==> final(self).mem_ctl.wait() == old(self).mem_ctl.latency(),
            old(self).mem_ctl.wait() != 0 ==> final(self).mem_ctl.wait() == old(self).mem_ctl.wait(),
            unchanged_datapath(*old(self), *final(self)),
    {
        self.control_signals.load_mdr = 1;
        self.control_signals.mem_read = 1;
        self.mem_ctl.req_access();
    }

    /// Raise the instruction-register load enable.
    fn load_ir(&mut self)
        ensures
            *final(self) == (Core {
                control_signals: Signals { load_ir: 1, ..old(self).control_signals },
                ..*old(self)
            }),
    {
        self.control_signals.load_ir = 1;
    }

    /// Raise the store-data load enable.
    fn load_dout(&mut self)
        ensures
            *final(self) == (Core {
                control_signals: Signals { load_data_out: 1, ..old(self).control_signals },
                ..*old(self)
            }),
    {
        self.control_signals.load_data_out = 1;
    }

    /// Start a memory write of the lanes selected by `byte_enable`.
    fn write_to_mem(&mut self, byte_enable: u8)
        ensures
            final(self).control_signals == (Signals {
                mem_write: 1,
                mem_byte_enable: byte_enable,
                ..old(self).control_signals
            }),
            final(self).mem_ctl.mem() == old(self).mem_ctl.mem(),
            final(self).mem_ctl.mmio() == old(self).mem_ctl.mmio(),
            final(self).mem_ctl.latency() == old(self).mem_ctl.latency(),
            old(self).mem_ctl.wait() == 0 ==> final(self).mem_ctl.wait() == old(self).mem_ctl.latency(),
            old(self).mem_ctl.wait() != 0 ==> final(self).mem_ctl.wait() == old(self).mem_ctl.wait(),
            unchanged_datapath(*old(self), *final(self)),
    {
        self.control_signals.mem_write = 1;
        self.control_signals.mem_byte_enable = byte_enable;
        self.mem_ctl.req_access();
    }

    /// Select both ALU operands and the operation.
    fn set_alu(&mut self, sel1: u8, sel2: u8, alu_op: u8)
        ensures
            *final(self) == (Core {
                control_signals: Signals {
                    alu_mux1_sel: sel1,
                    alu_mux2_sel: sel2,
                    alu_op,
                    ..old(self).control_signals
                },
                ..*old(self)
            }),
    {
        self.control_signals.alu_mux1_sel = sel1;
        self.control_signals.alu_mux2_sel = sel2;
        self.control_signals.alu_op = alu_op;
    }

    /// Select the comparator operand and operation.
    fn set_cmp(&mut self, sel: u8, cmp_op: u8)
        ensures
            *final(self) == (Core {
                control_signals: Signals {
                    cmp_mux_sel: sel,
                    cmp_op,
                    ..old(self).control_signals
                },
                ..*old(self)
            }),
    {
        self.control_signals.cmp_mux_sel = sel;
        self.control_signals.cmp_op = cmp_op;
    }

    /// Drive every signal to its inactive default.
    fn set_default_control_signals(&mut self)
        ensures
            *final(self) == (Core { control_signals: default_signals(), ..*old(self) }),
    {
        self.control_signals = Signals {
            load_mar: 0,
            load_mdr: 0,
            load_pc: 0,
            load_ir: 0,
            load_regfile: 0,
            load_data_out: 0,
            pc_mux_sel: 0,
            cmp_op: 0,
            alu_mux1_sel: 0,
            alu_mux2_sel: 0,
            regfile_mux_sel: 0,
            mar_mux_sel: 0,
            cmp_mux_sel: 0,
            alu_op: 0,
            mem_read: 0,
            mem_write: 0,
            mem_byte_enable: 0,
        };
    }

    /// Decide every control signal for the current state, starting a
    /// memory access where the state calls for one.
    fn set_control_signals(&mut self)
        ensures
            final(self).control_signals == control_signals_spec(
                old(self).state,
                old(self).ir,
                old(self).regfile@,
                old(self).wmask,
            ),
            final(self).mem_ctl.mem() == old(self).mem_ctl.mem(),
            final(self).mem_ctl.mmio() == old(self).mem_ctl.mmio(),
            final(self).mem_ctl.latency() == old(self).mem_ctl.latency(),
            requests_memory(old(self).state, old(self).wmask) && old(self).mem_ctl.wait() == 0
                ==> final(self).mem_ctl.wait() == old(self).mem_ctl.latency(),
            !requests_memory(old(self).state, old(self).wmask) ==> final(self).mem_ctl.wait()
                == old(self).mem_ctl.wait(),
            unchanged_datapath(*old(self), *final(self)),
    {
        self.set_default_control_signals();
        match self.state {
            States::Fetch1 => {
                self.load_mar(MAR_MUX_PC_OUT);
            },
            States::Fetch2 => {
                self.load_mdr();
            },
            States::Fetch3 => {
                self.load_ir();
            },
            States::Decode => {},
            States::Imm => {
                match (self.ir.funct3.to_u8(), self.ir.funct7.to_u8()) {
                    (Some(funct3), Some(funct7)) => {
                        if funct3 == FUNCT3_SLT {
                            self.load_regfile(REGFILE_MUX_BR_EN);
                            self.set_cmp(CMP_MUX_I_IMM, FUNCT3_BLT);
                        } else if funct3 == FUNCT3_SLTU {
                            self.load_regfile(REGFILE_MUX_BR_EN);
                            self.set_cmp(CMP_MUX_I_IMM, FUNCT3_BLTU);
                        } else if funct3 == FUNCT3_SR {
                            self.load_regfile(REGFILE_MUX_ALU_OUT);
                            let op = if (funct7 >> 5u8) & 0x1 == 0x1 {
                                ALU_SRA
                            } else {
                                ALU_SRL
                            };
                            self.set_alu(ALU1_MUX_RS1_OUT, ALU2_MUX_I_IMM, op);
                        } else {
                            self.load_regfile(REGFILE_MUX_ALU_OUT);
                            self.set_alu(ALU1_MUX_RS1_OUT, ALU2_MUX_I_IMM, funct3);
                        }
                    },
                    _ => {},
                }
                self.load_pc(PC_MUX_PC_PLUS4);
            },
            States::Reg => {
                match (self.ir.funct3.to_u8(), self.ir.funct7.to_u8()) {
                    (Some(funct3), Some(funct7)) => {
                        if funct3 == 0 {
                            self.load_regfile(REGFILE_MUX_ALU_OUT);
                            let op = if (funct7 >> 5u8) & 0x1 == 0x1 {
                                ALU_SUB
                            } else {
                                ALU_ADD
                            };
                            self.set_alu(ALU1_MUX_RS1_OUT, ALU2_MUX_RS2_OUT, op);
                        } else if funct3 == FUNCT3_SR {
                            self.load_regfile(REGFILE_MUX_ALU_OUT);
                            let op = if (funct7 >> 5u8) & 0x1 == 0x1 {
                                ALU_SRA
                            } else {
                                ALU_SRL
                            };
                            self.set_alu(ALU1_MUX_RS1_OUT, ALU2_MUX_RS2_OUT, op);
                        } else if funct3 == FUNCT3_SLT {
                            self.load_regfile(REGFILE_MUX_BR_EN);
                            self.set_cmp(CMP_MUX_RS2_OUT, FUNCT3_BLT);
                        } else if funct3 == FUNCT3_SLTU {
                            self.load_regfile(REGFILE_MUX_BR_EN);
                            self.set_cmp(CMP_MUX_RS2_OUT, FUNCT3_BLTU);
                        } else {
                            self.load_regfile(REGFILE_MUX_ALU_OUT);
                            self.set_alu(ALU1_MUX_RS1_OUT, ALU2_MUX_RS2_OUT, funct3);
                        }
                    },
                    _ => {},
                }
                self.load_pc(PC_MUX_PC_PLUS4);
            },
            States::Lui => {
                self.load_regfile(REGFILE_MUX_U_IMM);
                self.load_pc(PC_MUX_PC_PLUS4);
            },
            States::Br => {
                self.set_alu(ALU1_MUX_PC_OUT, ALU2_MUX_B_IMM, ALU_ADD);
                match self.ir.funct3.to_u8() {
                    Some(funct3) => {
                        self.set_cmp(CMP_MUX_RS2_OUT, funct3);
                    },
                    None => {},
                }
                let taken = self.calc_cmp_out();
                proof {
                    crate::word::lemma_word32_value(1);
                    crate::word::lemma_word32_value(0);
                }
                let sel = if taken.is_something_nonzero() {
                    PC_MUX_ALU_OUT
                } else {
                    PC_MUX_PC_PLUS4
                };
                self.load_pc(sel);
            },
            States::Auipc => {
                self.load_regfile(REGFILE_MUX_ALU_OUT);
                self.set_alu(ALU1_MUX_PC_OUT, ALU2_MUX_U_IMM, ALU_ADD);
                match self.ir.funct3.to_u8() {
                    Some(funct3) => {
                        self.set_cmp(CMP_MUX_RS2_OUT, funct3);
                    },
                    None => {},
                }
                self.load_pc(PC_MUX_PC_PLUS4);
            },
            States::AddrCalc => {
                self.load_mar(MAR_MUX_ALU_OUT);
                let sel2 = if self.ir.opcode == Byte::from(OPCODE_LOAD) {
                    ALU2_MUX_I_IMM
                } else {
                    ALU2_MUX_S_IMM
                };
                self.set_alu(ALU1_MUX_RS1_OUT, sel2, ALU_ADD);
                if self.ir.opcode == Byte::from(OPCODE_STORE) {
                    self.load_dout();
                }
            },
            States::Load1 => {
                self.load_mdr();
            },
            States::Load2 => {
                match self.ir.funct3.to_u8() {
                    Some(f) if f == FUNCT3_LB => {
                        self.load_regfile(REGFILE_MUX_LB);
                    },
                    Some(f) if f == FUNCT3_LH => {
                        self.load_regfile(REGFILE_MUX_LH);
                    },
                    Some(f) if f == FUNCT3_LW => {
                        self.load_regfile(REGFILE_MUX_LW);
                    },
                    Some(f) if f == FUNCT3_LBU => {
                        self.load_regfile(REGFILE_MUX_LBU);
                    },
                    Some(f) if f == FUNCT3_LHU => {
                        self.load_regfile(REGFILE_MUX_LHU);
                    },
                    _ => {},
                }
                self.load_pc(PC_MUX_PC_PLUS4);
            },
            States::Store1 => {
                match self.wmask.to_u8() {
                    Some(wmask) => {
                        self.write_to_mem(wmask);
                    },
                    None => {},
                }
            },
            States::Store2 => {
                self.load_pc(PC_MUX_PC_PLUS4);
            },
            States::Jal => {
                self.load_pc(PC_MUX_ALU_OUT);
                self.set_alu(ALU1_MUX_PC_OUT, ALU2_MUX_J_IMM, ALU_ADD);
                self.load_regfile(REGFILE_MUX_PC_PLUS4);
            },
            States::Jalr => {
                self.load_pc(PC_MUX_ALU_MOD2);
                self.set_alu(ALU1_MUX_RS1_OUT, ALU2_MUX_I_IMM, ALU_ADD);
                self.load_regfile(REGFILE_MUX_PC_PLUS4);
            },
        }
    }

    /// The first ALU operand selected by the current signals.
    pub open spec fn spec_alu_a(self) -> Word {
        if self.control_signals.alu_mux1_sel == ALU1_MUX_RS1_OUT {
            reg_read(self.regfile@, self.ir.rs1)
        } else if self.control_signals.alu_mux1_sel == ALU1_MUX_PC_OUT {
            self.pc
        } else {
            unknown_word()
        }
    }

    /// The second ALU operand selected by the current signals.
    pub open spec fn spec_alu_b(self) -> Word {
        let sel = self.control_signals.alu_mux2_sel;
        if sel == ALU2_MUX_I_IMM {
            self.ir.i_imm
        } else if sel == ALU2_MUX_U_IMM {
            self.ir.u_imm
        } else if sel == ALU2_MUX_B_IMM {
            self.ir.b_imm
        } else if sel == ALU2_MUX_S_IMM {
            self.ir.s_imm
        } else if sel == ALU2_MUX_J_IMM {
            self.ir.j_imm
        } else if sel == ALU2_MUX_RS2_OUT {
            reg_read(self.regfile@, self.ir.rs2)
        } else {
            unknown_word()
        }
    }

    /// Evaluate the ALU on the selected operands.
    fn calc_alu_out(&self) -> (r: Word)
        ensures
            r == alu_out(byte8(self.control_signals.alu_op), self.spec_alu_a(), self.spec_alu_b()),
    {
        let sel1 = self.control_signals.alu_mux1_sel;
        let a = if sel1 == ALU1_MUX_RS1_OUT {
            self.regfile.read(self.ir.rs1)
        } else if sel1 == ALU1_MUX_PC_OUT {
            self.pc
        } else {
            Word::unknown()
        };
        let sel2 = self.control_signals.alu_mux2_sel;
        let b = if sel2 == ALU2_MUX_I_IMM {
            self.ir.i_imm
        } else if sel2 == ALU2_MUX_U_IMM {
            self.ir.u_imm
        } else if sel2 == ALU2_MUX_B_IMM {
            self.ir.b_imm
        } else if sel2 == ALU2_MUX_S_IMM {
            self.ir.s_imm
        } else if sel2 == ALU2_MUX_J_IMM {
            self.ir.j_imm
        } else if sel2 == ALU2_MUX_RS2_OUT {
            self.regfile.read(self.ir.rs2)
        } else {
            Word::unknown()
        };
        alu_compute(Byte::from(self.control_signals.alu_op), a, b)
    }

    /// The comparator's second operand selected by the current signals.
    pub open spec fn spec_cmp_b(self) -> Word {
        if self.control_signals.cmp_mux_sel == CMP_MUX_RS2_OUT {
            reg_read(self.regfile@, self.ir.rs2)
        } else if self.control_signals.cmp_mux_sel == CMP_MUX_I_IMM {
            self.ir.i_imm
        } else {
            unknown_word()
        }
    }

    /// Evaluate the comparator: one when the selected comparison holds,
    /// zero otherwise.
    fn calc_cmp_out(&self) -> (r: Word)
        ensures
            r == (if cmp_taken(
                byte8(self.control_signals.cmp_op),
                reg_read(self.regfile@, self.ir.rs1),
                self.spec_cmp_b(),
            ) {
                word32(1)
            } else {
                word32(0)
            }),
    {
        let a = self.regfile.read(self.ir.rs1);
        let sel = self.control_signals.cmp_mux_sel;
        let b = if sel == CMP_MUX_RS2_OUT {
            self.regfile.read(self.ir.rs2)
        } else if sel == CMP_MUX_I_IMM {
            self.ir.i_imm
        } else {
            Word::unknown()
        };
        if cmp_compute(Byte::from(self.control_signals.cmp_op), a, b) {
            Word::from(1u32)
        } else {
            Word::from(0u32)
        }
    }

    /// The write strobe mask for the pending store.
    fn calc_wmask(&self) -> (r: Byte)
        ensures
            r == wmask_spec(self.ir.funct3, self.mar),
    {
        match self.ir.funct3.to_u8() {
            Some(f) if f == crate::isa::FUNCT3_SW => Byte::from(0x0fu8),
            Some(f) if f == crate::isa::FUNCT3_SH => lane_mask_exec(0x03, &self.mar),
            Some(f) if f == crate::isa::FUNCT3_SB => lane_mask_exec(0x01, &self.mar),
            _ => Byte::unknown(),
        }
    }

    /// The read strobe mask for the current state and pending load.
    fn calc_rmask(&self) -> (r: Byte)
        ensures
            r == rmask_spec(self.state, self.ir.funct3, self.mar),
    {
        if self.state == States::Fetch2 {
            Byte::from(0x0fu8)
        } else {
            match self.ir.funct3.to_u8() {
                Some(f) if f == FUNCT3_LW => Byte::from(0x0fu8),
                Some(f) if f == FUNCT3_LH || f == FUNCT3_LHU => lane_mask_exec(0x03, &self.mar),
                Some(f) if f == FUNCT3_LB || f == FUNCT3_LBU => lane_mask_exec(0x01, &self.mar),
                _ => Byte::unknown(),
            }
        }
    }

    /// Latch the selected address source into the memory-address register.
    fn update_mar(&mut self)
        ensures
            *final(self) == (Core { mar: final(self).mar, ..*old(self) }),
            old(self).control_signals.mar_mux_sel == MAR_MUX_PC_OUT ==> final(self).mar == old(self).pc,
            old(self).control_signals.mar_mux_sel == MAR_MUX_ALU_OUT ==> final(self).mar == old(self).alu_out,
    {
        let sel = self.control_signals.mar_mux_sel;
        self.mar = if sel == MAR_MUX_PC_OUT {
            self.pc
        } else if sel == MAR_MUX_ALU_OUT {
            self.alu_out
        } else {
            Word::unknown()
        };
    }

    /// Latch the memory's reply into the memory-data register, reading
    /// the aligned word under the current read strobe mask.
    fn update_mdr(&mut self)
        ensures
            *final(self) == (Core { mdr: final(self).mdr, ..*old(self) }),
            old(self).mem_ctl.wait() == 0 && old(self).rmask.is_known() && old(self).mem_ctl.no_mmio_window(crate::backend::mar::aligned_addr(old(self).mar)) ==> final(self).mdr == crate::mem::mem_read4(
                old(self).mem_ctl.mem(),
                crate::backend::mar::aligned_addr(old(self).mar),
                old(self).rmask.spec_u8(),
            ),
            old(self).mem_ctl.wait() != 0 ==> final(self).mdr == unknown_word(),
    {
        if self.mem_ctl.is_resp() {
            let aligned = self.mar.and(Word::from(0xffff_fffcu32));
            proof {
                crate::word::lemma_word32_value(0xffff_fffc);
            }
            self.mdr = self.mem_ctl.read(&aligned, self.rmask);
        } else {
            self.mdr = Word::unknown();
        }
    }

    /// Latch the program counter's next value.
    fn update_pc(&mut self)
        ensures
            *final(self) == (Core { pc: final(self).pc, ..*old(self) }),
            old(self).control_signals.pc_mux_sel == PC_MUX_PC_PLUS4 ==> final(self).pc == (if old(self).pc.is_known() {
                word32(u32_add(old(self).pc.spec_u32(), 4))
            } else {
                unknown_word()
            }),
            old(self).control_signals.pc_mux_sel == PC_MUX_ALU_OUT ==> final(self).pc == old(self).alu_out,
            old(self).control_signals.pc_mux_sel == PC_MUX_ALU_MOD2 ==> final(self).pc == (if old(self).alu_out.is_known() {
                word32(old(self).alu_out.spec_u32() & 0xffff_fffe)
            } else {
                unknown_word()
            }),
    {
        let sel = self.control_signals.pc_mux_sel;
        self.pc = if sel == PC_MUX_PC_PLUS4 {
            self.pc.add(Word::from(4u32))
        } else if sel == PC_MUX_ALU_OUT {
            self.alu_out
        } else if sel == PC_MUX_ALU_MOD2 {
            self.alu_out.and(Word::from(0xffff_fffeu32))
        } else {
            self.pc
        };
        proof {
            crate::word::lemma_word32_value(4);
            crate::word::lemma_word32_value(0xffff_fffe);
        }
    }

    /// Latch the memory-data register into the instruction register.
    fn update_ir(&mut self)
        ensures
            old(self).mdr.is_known() ==> final(self).ir == crate::unicore::ir::decoded_ir(
                old(self).mdr.spec_u32(),
            ),
            *final(self) == (Core { ir: final(self).ir, ..*old(self) }),
    {
        self.ir.write(self.mdr);
    }

    /// The value selected for write-back.
    fn calc_regfile_din(&self) -> (r: Word)
        ensures
            r == regfile_mux_out(
                byte8(self.control_signals.regfile_mux_sel),
                self.alu_out,
                self.cmp_out,
                self.ir.u_imm,
                self.mar,
                self.mdr,
                self.pc,
            ),
    {
        regfile_mux_compute(
            Byte::from(self.control_signals.regfile_mux_sel),
            self.alu_out,
            self.cmp_out,
            self.ir.u_imm,
            self.mar,
            self.mdr,
            self.pc,
        )
    }

    /// Write the selected value back to the destination register.
    fn update_regfile(&mut self)
        ensures
            final(self).regfile@ == reg_write(
                old(self).regfile@,
                old(self).ir.rd,
                old(self).regfile_din,
            ),
            *final(self) == (Core { regfile: final(self).regfile, ..*old(self) }),
    {
        self.regfile.write(self.ir.rd, self.regfile_din);
    }

    /// Latch the store data, shifted into the addressed byte lane.
    fn update_dataout(&mut self)
        ensures
            old(self).mar.is_known() ==> final(self).data_out == data_out_shifted(
                reg_read(old(self).regfile@, old(self).ir.rs2),
                old(self).mar,
            ),
            !old(self).mar.is_known() ==> final(self).data_out == old(self).data_out,
            *final(self) == (Core { data_out: final(self).data_out, ..*old(self) }),
    {
        match self.mar.to_u32() {
            Some(mar) => {
                let masked: u32 = mar & 0x3;
                proof {
                    assert(mar & 0x3 <= 3) by (bit_vector);
                }
                let shift: u32 = 8 * masked;
                let rs2_val = self.regfile.read(self.ir.rs2);
                self.data_out = rs2_val.shl(Word::from(shift));
                proof {
                    crate::word::lemma_word32_value(shift);
                    assert(shift <= 24 ==> (shift & 31) == shift) by (bit_vector);
                }
            },
            None => {},
        }
    }

    /// Recompute every combinational value from the freshly decided
    /// signals: tick the memory, then the ALU, comparator, write-back
    /// value and both strobe masks.
    fn update_comb_signal(&mut self)
        ensures
            final(self).mem_ctl.wait() == (if old(self).mem_ctl.wait() > 0 {
                (old(self).mem_ctl.wait() - 1) as u128
            } else {
                0u128
            }),
            final(self).mem_ctl.mem() == old(self).mem_ctl.mem(),
            final(self).mem_ctl.mmio() == old(self).mem_ctl.mmio(),
            final(self).alu_out == alu_out(
                byte8(old(self).control_signals.alu_op),
                old(self).spec_alu_a(),
                old(self).spec_alu_b(),
            ),
            final(self).cmp_out == (if cmp_taken(
                byte8(old(self).control_signals.cmp_op),
                reg_read(old(self).regfile@, old(self).ir.rs1),
                old(self).spec_cmp_b(),
            ) {
                word32(1)
            } else {
                word32(0)
            }),
            final(self).wmask == wmask_spec(old(self).ir.funct3, old(self).mar),
            final(self).rmask == rmask_spec(old(self).state, old(self).ir.funct3, old(self).mar),
            final(self).state == old(self).state,
            final(self).next_state == old(self).next_state,
            final(self).pc == old(self).pc,
            final(self).mar == old(self).mar,
            final(self).mdr == old(self).mdr,
            final(self).ir == old(self).ir,
            final(self).data_out == old(self).data_out,
            final(self).control_signals == old(self).control_signals,
            final(self).regfile@ == old(self).regfile@,
            final(self).regfile_din == regfile_mux_out(
                byte8(old(self).control_signals.regfile_mux_sel),
                final(self).alu_out,
                final(self).cmp_out,
                old(self).ir.u_imm,
                old(self).mar,
                old(self).mdr,
                old(self).pc,
            ),
    {
        self.mem_ctl.tick();
        self.alu_out = self.calc_alu_out();
        self.cmp_out = self.calc_cmp_out();
        self.regfile_din = self.calc_regfile_din();
        self.wmask = self.calc_wmask();
        self.rmask = self.calc_rmask();
    }

    /// Commit every enabled latch: address, data, program counter,
    /// instruction, write-back and store path, in that order.
    fn update_datapath(&mut self)
        ensures
            final(self).mem_ctl.wait() == old(self).mem_ctl.wait(),
            final(self).state == old(self).state,
            final(self).next_state == old(self).next_state,
            final(self).control_signals == old(self).control_signals,
            old(self).control_signals.load_regfile == 0 ==> final(self).regfile@ == old(self).regfile@,
            old(self).control_signals.load_pc == 0 ==> final(self).pc == old(self).pc,
            old(self).control_signals.load_ir == 0 ==> final(self).ir == old(self).ir,
    {
        if self.control_signals.load_mar != 0 {
            self.update_mar();
        }
        if self.control_signals.load_mdr != 0 {
            self.update_mdr();
        }
        if self.control_signals.load_pc != 0 {
            self.update_pc();
        }
        if self.control_signals.load_ir != 0 {
            self.update_ir();
        }
        if self.control_signals.load_regfile != 0 {
            self.update_regfile();
        }
        if self.control_signals.load_data_out != 0 {
            self.update_dataout();
        }
        if self.mem_ctl.is_resp() && self.control_signals.mem_write != 0 {
            let aligned = self.mar.and(Word::from(0xffff_fffcu32));
            let data = self.data_out;
            let mask = Byte::from(self.control_signals.mem_byte_enable);
            self.mem_ctl.write(&aligned, data, mask);
        }
    }

    /// Decide the state the machine enters at the next clock edge.
    fn set_next_state(&mut self)
        ensures
            final(self).next_state == next_state_spec(
                old(self).state,
                old(self).ir.opcode,
                if old(self).mem_ctl.wait() == 0 {
                    byte8(1)
                } else {
                    byte8(0)
                },
            ),
            *final(self) == (Core { next_state: final(self).next_state, ..*old(self) }),
    {
        let resp = self.mem_ctl.is_resp();
        self.next_state = match self.state {
            States::Fetch1 => States::Fetch2,
            States::Fetch2 => {
                if resp {
                    States::Fetch3
                } else {
                    States::Fetch2
                }
            },
            States::Fetch3 => States::Decode,
            States::Decode => {
                match self.ir.opcode.to_u8() {
                    Some(op) if op == crate::isa::OPCODE_LUI => States::Lui,
                    Some(op) if op == crate::isa::OPCODE_AUIPC => States::Auipc,
                    Some(op) if op == crate::isa::OPCODE_JAL => States::Jal,
                    Some(op) if op == crate::isa::OPCODE_JALR => States::Jalr,
                    Some(op) if op == crate::isa::OPCODE_BR => States::Br,
                    Some(op) if op == OPCODE_LOAD || op == OPCODE_STORE => States::AddrCalc,
                    Some(op) if op == crate::isa::OPCODE_IMM => States::Imm,
                    Some(op) if op == crate::isa::OPCODE_REG => States::Reg,
                    _ => States::Fetch1,
                }
            },
            States::AddrCalc => {
                if self.ir.opcode == Byte::from(OPCODE_LOAD) {
                    States::Load1
                } else {
                    States::Store1
                }
            },
            States::Load1 => {
                if resp {
                    States::Load2
                } else {
                    States::Load1
                }
            },
            States::Store1 => {
                if resp {
                    States::Store2
                } else {
                    States::Store1
                }
            },
            _ => States::Fetch1,
        };
    }

    /// Advance one clock: commit the state transition, decide the
    /// signals, settle the combinational values, commit the latches, and
    /// choose the next state.
    pub fn next_cycle(&mut self)
        ensures
            final(self).state == old(self).next_state,
            final(self).control_signals == control_signals_spec(
                old(self).next_state,
                old(self).ir,
                old(self).regfile@,
                old(self).wmask,
            ),
    {
        self.update_state();
        self.set_control_signals();
        self.update_comb_signal();
        self.update_datapath();
        self.set_next_state();
    }

    /// Preload a binary image into memory, starting at the given address.
    pub fn load_bin(&mut self, data: &Vec<u8>, addr: Word)
        ensures
            final(self).mem_ctl.mem() == loaded_image(
                old(self).mem_ctl.mem(),
                data@,
                addr,
                data@.len() as int,
            ),
            final(self).state == old(self).state,
    {
        self.mem_ctl.load_bin(data, addr);
    }

    /// Whether the held instruction is one of the two halt markers, in a
    /// state where the marker is decisive.
    pub fn should_halt(&self) -> (r: bool)
        ensures
            r == ((self.state == States::Imm && self.ir.data == word32(0xf000_2013u32)) || (
            self.state == States::Br && self.ir.data == word32(0x0000_0063u32))),
    {
        proof {
            crate::word::lemma_word32_value(0xf000_2013u32);
            crate::word::lemma_word32_value(0x0000_0063u32);
        }
        (self.state == States::Imm && self.ir.data == Word::from(0xf000_2013u32)) || (self.state
            == States::Br && self.ir.data == Word::from(0x0000_0063u32))
    }
}

/// Whether the datapath registers (everything but the control signals and
/// the memory wait counter) are unchanged between two core values.
pub open spec fn unchanged_datapath<D: MMIODriver>(a: Core<D>, b: Core<D>) -> bool {
    &&& b.pc == a.pc
    &&& b.mar == a.mar
    &&& b.mdr == a.mdr
    &&& b.regfile_din == a.regfile_din
    &&& b.alu_out == a.alu_out
    &&& b.cmp_out == a.cmp_out
    &&& b.wmask == a.wmask
    &&& b.rmask == a.rmask
    &&& b.ir == a.ir
    &&& b.data_out == a.data_out
    &&& b.state == a.state
    &&& b.next_state == a.next_state
    &&& b.regfile@ == a.regfile@
}

impl<D: MMIODriver> Default for Core<D> {
    /// A fresh core: program counter at the boot address, state machine
    /// at the first fetch phase, registers zero, memory empty.
    fn default() -> (r: Core<D>)
        ensures
            r.pc == word32(0x4000_0000u32),
            r.state == States::Fetch1,
            r.next_state == States::Fetch1,
            r.mem_ctl.mem() == Map::<u64, Byte>::empty(),
            r.mem_ctl.wait() == 0,
    {
        Core {
            pc: Word::from(0x4000_0000u32),
            mar: Word::unknown(),
            mdr: Word::unknown(),
            regfile_din: Word::zeros(),
            alu_out: Word::zeros(),
            cmp_out: Word::zeros(),
            wmask: Byte::zeros(),
            rmask: Byte::zeros(),
            ir: IR::default(),
            data_out: Word::unknown(),
            control_signals: Signals {
                load_mar: 0,
                load_mdr: 0,
                load_pc: 0,
                load_ir: 0,
                load_regfile: 0,
                load_data_out: 0,
                pc_mux_sel: 0,
                cmp_op: 0,
                alu_mux1_sel: 0,
                alu_mux2_sel: 0,
                regfile_mux_sel: 0,
                mar_mux_sel: 0,
                cmp_mux_sel: 0,
                alu_op: 0,
                mem_read: 0,
                mem_write: 0,
                mem_byte_enable: 0,
            },
            state: States::Fetch1,
            next_state: States::Fetch1,
            regfile: RegFile::default(),
            mem_ctl: MemCtl::default(),
        }
    }
}

} // verus!
