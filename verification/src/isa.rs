//! Instruction-set constants shared by the datapath components: ALU
//! operations, `funct3` codes, opcodes, multiplexer selectors, and the
//! control state machine's states.

use vstd::prelude::*;

verus! {

// ALU operations.
pub const ALU_ADD: u8 = 0;

pub const ALU_SLL: u8 = 1;

pub const ALU_SRA: u8 = 2;

pub const ALU_SUB: u8 = 3;

pub const ALU_XOR: u8 = 4;

pub const ALU_SRL: u8 = 5;

pub const ALU_OR: u8 = 6;

pub const ALU_AND: u8 = 7;

// funct3 codes of branches.
pub const FUNCT3_BEQ: u8 = 0;

pub const FUNCT3_BNE: u8 = 1;

pub const FUNCT3_BLT: u8 = 4;

pub const FUNCT3_BGE: u8 = 5;

pub const FUNCT3_BLTU: u8 = 6;

pub const FUNCT3_BGEU: u8 = 7;

// funct3 codes of register and immediate arithmetic.
pub const FUNCT3_ADD: u8 = 0;

pub const FUNCT3_SLL: u8 = 1;

pub const FUNCT3_SLT: u8 = 2;

pub const FUNCT3_SLTU: u8 = 3;

pub const FUNCT3_XOR: u8 = 4;

pub const FUNCT3_SR: u8 = 5;

pub const FUNCT3_OR: u8 = 6;

pub const FUNCT3_AND: u8 = 7;

// funct3 codes of loads.
pub const FUNCT3_LB: u8 = 0;

pub const FUNCT3_LH: u8 = 1;

pub const FUNCT3_LW: u8 = 2;

pub const FUNCT3_LBU: u8 = 4;

pub const FUNCT3_LHU: u8 = 5;

// funct3 codes of stores.
pub const FUNCT3_SB: u8 = 0;

pub const FUNCT3_SH: u8 = 1;

pub const FUNCT3_SW: u8 = 2;

// Major opcodes.
pub const OPCODE_LUI: u8 = 0x37;

pub const OPCODE_AUIPC: u8 = 0x17;

pub const OPCODE_JAL: u8 = 0x6f;

pub const OPCODE_JALR: u8 = 0x67;

pub const OPCODE_BR: u8 = 0x63;

pub const OPCODE_LOAD: u8 = 0x03;

pub const OPCODE_STORE: u8 = 0x23;

pub const OPCODE_IMM: u8 = 0x13;

pub const OPCODE_REG: u8 = 0x33;

// Program-counter multiplexer selectors.
pub const PC_MUX_PC_PLUS4: u8 = 0;

pub const PC_MUX_ALU_OUT: u8 = 1;

pub const PC_MUX_ALU_MOD2: u8 = 2;

// First ALU-operand multiplexer selectors.
pub const ALU1_MUX_RS1_OUT: u8 = 0;

pub const ALU1_MUX_PC_OUT: u8 = 1;

// Second ALU-operand multiplexer selectors.
pub const ALU2_MUX_I_IMM: u8 = 0;

pub const ALU2_MUX_U_IMM: u8 = 1;

pub const ALU2_MUX_B_IMM: u8 = 2;

pub const ALU2_MUX_S_IMM: u8 = 3;

pub const ALU2_MUX_J_IMM: u8 = 4;

pub const ALU2_MUX_RS2_OUT: u8 = 5;

// Register-file write-back multiplexer selectors.
pub const REGFILE_MUX_ALU_OUT: u8 = 0;

pub const REGFILE_MUX_BR_EN: u8 = 1;

pub const REGFILE_MUX_U_IMM: u8 = 2;

pub const REGFILE_MUX_LW: u8 = 3;

pub const REGFILE_MUX_PC_PLUS4: u8 = 4;

pub const REGFILE_MUX_LB: u8 = 5;

pub const REGFILE_MUX_LBU: u8 = 6;

pub const REGFILE_MUX_LH: u8 = 7;

pub const REGFILE_MUX_LHU: u8 = 8;

// Memory-address-register multiplexer selectors.
pub const MAR_MUX_PC_OUT: u8 = 0;

pub const MAR_MUX_ALU_OUT: u8 = 1;

// Comparator second-operand multiplexer selectors.
pub const CMP_MUX_RS2_OUT: u8 = 0;

pub const CMP_MUX_I_IMM: u8 = 1;

/// The `funct3` field of an instruction.
pub open spec fn funct3_of(inst: u32) -> u8 {
    ((inst >> 12u32) & 0b111) as u8
}

/// The `funct7` field of an instruction.
pub open spec fn funct7_of(inst: u32) -> u8 {
    ((inst >> 25u32) & 0x7f) as u8
}

/// The major opcode of an instruction.
pub open spec fn opcode_of(inst: u32) -> u8 {
    (inst & 0x7f) as u8
}

/// The first source register index of an instruction.
pub open spec fn rs1_of(inst: u32) -> u8 {
    ((inst >> 15u32) & 0x1f) as u8
}

/// The second source register index of an instruction.
pub open spec fn rs2_of(inst: u32) -> u8 {
    ((inst >> 20u32) & 0x1f) as u8
}

/// The destination register index of an instruction.
pub open spec fn rd_of(inst: u32) -> u8 {
    ((inst >> 7u32) & 0x1f) as u8
}

/// The sign-extended I-format immediate.
pub open spec fn i_imm_of(inst: u32) -> u32 {
    crate::word::sign_extend_spec(inst >> 20u32, 11)
}

/// The sign-extended S-format immediate.
pub open spec fn s_imm_of(inst: u32) -> u32 {
    crate::word::sign_extend_spec((((inst >> 25u32) & 0x7f) << 5u32) | ((inst >> 7u32) & 0x1f), 11)
}

/// The sign-extended B-format immediate.
pub open spec fn b_imm_of(inst: u32) -> u32 {
    crate::word::sign_extend_spec(
        (((inst >> 31u32) & 0b1) << 12u32) | (((inst >> 7u32) & 0b1) << 11u32) | (((inst >> 25u32)
            & 0x3f) << 5u32) | (((inst >> 8u32) & 0xf) << 1u32),
        12,
    )
}

/// The U-format immediate.
pub open spec fn u_imm_of(inst: u32) -> u32 {
    ((inst >> 12u32) & 0xfffff) << 12u32
}

/// The sign-extended J-format immediate.
pub open spec fn j_imm_of(inst: u32) -> u32 {
    crate::word::sign_extend_spec(
        (((inst >> 31u32) & 0b1) << 20u32) | (((inst >> 12u32) & 0xff) << 12u32) | (((inst
            >> 20u32) & 0b1) << 11u32) | (((inst >> 21u32) & 0x3ff) << 1u32),
        20,
    )
}

/// The states of the multi-cycle control machine.
#[derive(Clone, Copy, Debug, PartialEq, Eq, Structural)]
pub enum States {
    Fetch1,
    Fetch2,
    Fetch3,
    Decode,
    Imm,
    Reg,
    Lui,
    Br,
    Auipc,
    AddrCalc,
    Load1,
    Load2,
    Store1,
    Store2,
    Jal,
    Jalr,
}

} // verus!
