//! The register file of the self-contained core: thirty-two registers,
//! register zero hard-wired to zero.

use crate::backend::regfile::{reg_read, reg_write};
use crate::word::{word32, Byte, Word};
use vstd::prelude::*;

verus! {

/// Thirty-two 32-bit registers.
pub struct RegFile {
    registers: Vec<Word>,
}

impl View for RegFile {
    type V = Seq<Word>;

    closed spec fn view(&self) -> Seq<Word> {
        self.registers@
    }
}

impl RegFile {
    /// The bank always holds exactly thirty-two registers.
    #[verifier::type_invariant]
    closed spec fn inv(&self) -> bool {
        self@.len() == 32
    }

    /// The bank holds exactly thirty-two registers: the fact callers need
    /// to use the pointwise consequences of a write.
    pub fn len(&self) -> (r: usize)
        ensures
            r == 32,
            self@.len() == 32,
    {
        proof {
            use_type_invariant(&*self);
        }
        32
    }

    /// Read a register: register zero reads as zero; an unknown or
    /// out-of-range index reads as unknown.
    pub fn read(&self, addr: Byte) -> (r: Word)
        ensures
            r == reg_read(self@, addr),
    {
        proof {
            use_type_invariant(&*self);
        }
        if addr.is_zero() {
            Word::zeros()
        } else {
            match addr.to_u8() {
                Some(idx) => {
                    if idx < 32 {
                        self.registers[idx as usize]
                    } else {
                        Word::unknown()
                    }
                },
                None => Word::unknown(),
            }
        }
    }

    /// Write a register; register zero and unknown or out-of-range
    /// indexes are left alone.
    pub fn write(&mut self, addr: Byte, val: Word)
        ensures
            final(self)@ == reg_write(old(self)@, addr, val),
    {
        proof {
            use_type_invariant(&*self);
        }
        match addr.to_u8() {
            Some(idx) => {
                if idx != 0 && idx < 32 {
                    self.registers[idx as usize] = val;
                }
            },
            None => {},
        }
    }
}

impl Default for RegFile {
    /// A fresh bank with every register zero.
    fn default() -> (r: RegFile)
        ensures
            r@.len() == 32,
            forall|i: int| 0 <= i < 32 ==> r@[i] == word32(0),
    {
        let mut registers: Vec<Word> = Vec::new();
        let mut i: usize = 0;
        while i < 32
            invariant
                i <= 32,
                registers@.len() == i,
                forall|j: int| 0 <= j < i ==> registers@[j] == word32(0),
            decreases 32 - i,
        {
            registers.push(Word::zeros());
            i += 1;
        }
        RegFile { registers }
    }
}

} // verus!
