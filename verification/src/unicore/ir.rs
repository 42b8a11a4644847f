//! The instruction register of the self-contained core: the raw word and
//! every decoded field, refreshed whenever a new instruction is written.

use crate::isa::{
    b_imm_of, funct3_of, funct7_of, i_imm_of, j_imm_of, opcode_of, rd_of, rs1_of, rs2_of, s_imm_of,
    u_imm_of,
};
use crate::word::{byte8, sign_extend, word32, Byte, Word};
use vstd::prelude::*;

verus! {

/// The instruction register and its decoded fields.
#[derive(Clone, Copy, Debug)]
pub struct IR {
    pub data: Word,
    pub funct3: Byte,
    pub funct7: Byte,
    pub opcode: Byte,
    pub i_imm: Word,
    pub s_imm: Word,
    pub b_imm: Word,
    pub u_imm: Word,
    pub j_imm: Word,
    pub rs1: Byte,
    pub rs2: Byte,
    pub rd: Byte,
}

/// An instruction register holding a known instruction, fully decoded.
pub open spec fn decoded_ir(inst: u32) -> IR {
    IR {
        data: word32(inst),
        funct3: byte8(funct3_of(inst)),
        funct7: byte8(funct7_of(inst)),
        opcode: byte8(opcode_of(inst)),
        i_imm: word32(i_imm_of(inst)),
        s_imm: word32(s_imm_of(inst)),
        b_imm: word32(b_imm_of(inst)),
        u_imm: word32(u_imm_of(inst)),
        j_imm: word32(j_imm_of(inst)),
        rs1: byte8(rs1_of(inst)),
        rs2: byte8(rs2_of(inst)),
        rd: byte8(rd_of(inst)),
    }
}

impl IR {
    /// Latch an instruction word and refresh the decoded fields. A word
    /// with unknown bytes is latched raw; the decoded fields then keep
    /// their previous values.
    pub fn write(&mut self, data: Word)
        ensures
            data.is_known() ==> *final(self) == decoded_ir(data.spec_u32()),
            !data.is_known() ==> *final(self) == (IR { data, ..*old(self) }),
    {
        self.data = data;
        self.update();
    }

    /// Refresh the decoded fields from the held word, when it is known.
    fn update(&mut self)
        ensures
            old(self).data.is_known() ==> *final(self) == decoded_ir(old(self).data.spec_u32()),
            !old(self).data.is_known() ==> *final(self) == *old(self),
    {
        match self.data.to_u32() {
            Some(inst) => {
                self.funct3 = Byte::from(((inst >> 12u32) & 0b111) as u8);
                self.funct7 = Byte::from(((inst >> 25u32) & 0x7f) as u8);
                self.opcode = Byte::from((inst & 0x7f) as u8);
                self.i_imm = sign_extend(inst >> 20u32, 11);
                self.s_imm = sign_extend(
                    (((inst >> 25u32) & 0x7f) << 5u32) | ((inst >> 7u32) & 0x1f),
                    11,
                );
                self.b_imm = sign_extend(
                    (((inst >> 31u32) & 0b1) << 12u32) | (((inst >> 7u32) & 0b1) << 11u32) | (((
                    inst >> 25u32) & 0x3f) << 5u32) | (((inst >> 8u32) & 0xf) << 1u32),
                    12,
                );
                self.u_imm = Word::from(((inst >> 12u32) & 0xfffff) << 12u32);
                self.j_imm = sign_extend(
                    (((inst >> 31u32) & 0b1) << 20u32) | (((inst >> 12u32) & 0xff) << 12u32) | (((
                    inst >> 20u32) & 0b1) << 11u32) | (((inst >> 21u32) & 0x3ff) << 1u32),
                    20,
                );
                self.rs1 = Byte::from(((inst >> 15u32) & 0x1f) as u8);
                self.rs2 = Byte::from(((inst >> 20u32) & 0x1f) as u8);
                self.rd = Byte::from(((inst >> 7u32) & 0x1f) as u8);
                proof {
                    crate::word::lemma_word_from_value(old(self).data);
                }
            },
            None => {},
        }
    }
}

impl Default for IR {
    /// A fresh instruction register: everything unknown.
    fn default() -> (r: IR)
        ensures
            r.data == crate::word::unknown_word(),
    {
        IR {
            data: Word::unknown(),
            funct3: Byte::unknown(),
            funct7: Byte::unknown(),
            opcode: Byte::unknown(),
            i_imm: Word::unknown(),
            s_imm: Word::unknown(),
            b_imm: Word::unknown(),
            u_imm: Word::unknown(),
            j_imm: Word::unknown(),
            rs1: Byte::unknown(),
            rs2: Byte::unknown(),
            rd: Byte::unknown(),
        }
    }
}

} // verus!
