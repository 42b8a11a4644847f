//! Bit-exact value model for the datapath: bytes and 32-bit words whose
//! individual bytes may be unknown, as in a hardware simulation where a
//! register has not been driven yet.
//!
//! An operation on fully known values behaves like the corresponding 32-bit
//! machine operation (wrapping, with shift amounts taken modulo the width, as
//! hardware does); an operation that touches an unknown byte yields a fully
//! unknown result.

use vstd::prelude::*;

verus! {

/// One byte of simulated data; `None` means the value is unknown.
#[derive(Clone, Copy, Debug)]
pub struct Byte {
    pub v: Option<u8>,
}

/// Four bytes of simulated data, little-endian; each byte may be unknown.
#[derive(Clone, Copy, Debug)]
pub struct Word {
    pub b0: Option<u8>,
    pub b1: Option<u8>,
    pub b2: Option<u8>,
    pub b3: Option<u8>,
}

fn opt_u8_eq(a: Option<u8>, b: Option<u8>) -> (r: bool)
    ensures
        r == (a == b),
{
    match (a, b) {
        (None, None) => true,
        (Some(x), Some(y)) => x == y,
        _ => false,
    }
}

impl PartialEq for Byte {
    fn eq(&self, other: &Byte) -> (r: bool) {
        opt_u8_eq(self.v, other.v)
    }
}

impl vstd::std_specs::cmp::PartialEqSpecImpl for Byte {
    open spec fn obeys_eq_spec() -> bool {
        true
    }

    open spec fn eq_spec(&self, other: &Byte) -> bool {
        self.v == other.v
    }
}

impl PartialEq for Word {
    fn eq(&self, other: &Word) -> (r: bool) {
        opt_u8_eq(self.b0, other.b0) && opt_u8_eq(self.b1, other.b1) && opt_u8_eq(
            self.b2,
            other.b2,
        ) && opt_u8_eq(self.b3, other.b3)
    }
}

impl vstd::std_specs::cmp::PartialEqSpecImpl for Word {
    open spec fn obeys_eq_spec() -> bool {
        true
    }

    open spec fn eq_spec(&self, other: &Word) -> bool {
        self.b0 == other.b0 && self.b1 == other.b1 && self.b2 == other.b2 && self.b3 == other.b3
    }
}

/// The word whose four bytes are all unknown.
pub open spec fn unknown_word() -> Word {
    Word { b0: None, b1: None, b2: None, b3: None }
}

/// The fully known word with the given 32-bit value, little-endian.
pub open spec fn word32(v: u32) -> Word {
    Word {
        b0: Some((v & 0xff) as u8),
        b1: Some(((v >> 8) & 0xff) as u8),
        b2: Some(((v >> 16) & 0xff) as u8),
        b3: Some(((v >> 24) & 0xff) as u8),
    }
}

/// The byte whose value is unknown.
pub open spec fn unknown_byte() -> Byte {
    Byte { v: None }
}

/// The fully known byte with the given value.
pub open spec fn byte8(v: u8) -> Byte {
    Byte { v: Some(v) }
}

/// Wrapping 32-bit addition.
pub open spec fn u32_add(a: u32, b: u32) -> u32 {
    ((a + b) % 0x1_0000_0000) as u32
}

/// Wrapping 32-bit subtraction.
pub open spec fn u32_sub(a: u32, b: u32) -> u32 {
    ((a + 0x1_0000_0000 - b) % 0x1_0000_0000) as u32
}

/// Arithmetic right shift of a 32-bit value by `k < 32` places.
pub open spec fn u32_sra(a: u32, k: u32) -> u32 {
    (a >> k) | (if a >= 0x8000_0000 {
        !(0xffff_ffffu32 >> k)
    } else {
        0u32
    })
}

impl Byte {
    /// Whether the byte holds a known value.
    pub open spec fn is_known(self) -> bool {
        self.v is Some
    }

    /// The value of a known byte.
    pub open spec fn spec_u8(self) -> u8 {
        self.v.unwrap()
    }

    /// A byte of unknown value.
    pub fn unknown() -> (r: Byte)
        ensures
            r == unknown_byte(),
    {
        Byte { v: None }
    }

    /// The known zero byte.
    pub fn zeros() -> (r: Byte)
        ensures
            r == byte8(0),
    {
        Byte { v: Some(0) }
    }

    /// The byte's value, or `None` if it is unknown.
    pub fn to_u8(&self) -> (r: Option<u8>)
        ensures
            self.is_known() ==> r == Some(self.spec_u8()),
            !self.is_known() ==> r is None,
    {
        self.v
    }

    /// Whether the byte is known to be zero.
    pub fn is_zero(&self) -> (r: bool)
        ensures
            r == (self.is_known() && self.spec_u8() == 0),
    {
        match self.v {
            Some(x) => x == 0,
            None => false,
        }
    }

    /// Whether the byte is known and nonzero.
    pub fn is_something_nonzero(&self) -> (r: bool)
        ensures
            r == (self.is_known() && self.spec_u8() != 0),
    {
        match self.v {
            Some(x) => x != 0,
            None => false,
        }
    }

    /// Left shift of a byte by a byte amount (amount taken modulo 8).
    pub fn shl(self, amt: Byte) -> (r: Byte)
        ensures
            self.is_known() && amt.is_known() ==> r == byte8(
                ((((self.spec_u8() as u32) << ((amt.spec_u8() & 7) as u32)) & 0xff) as u8),
            ),
            !(self.is_known() && amt.is_known()) ==> r == unknown_byte(),
    {
        match (self.v, amt.v) {
            (Some(a), Some(k)) => {
                let kk: u32 = (k & 7) as u32;
                assert(kk < 8) by (bit_vector)
                    requires
                        kk == (k & 7) as u32,
                ;
                Byte { v: Some((((a as u32) << kk) & 0xff) as u8) }
            },
            _ => Byte { v: None },
        }
    }
}

impl From<u8> for Byte {
    fn from(v: u8) -> (r: Byte) {
        Byte { v: Some(v) }
    }
}

impl vstd::std_specs::convert::FromSpecImpl<u8> for Byte {
    open spec fn obeys_from_spec() -> bool {
        true
    }

    open spec fn from_spec(v: u8) -> Byte {
        byte8(v)
    }
}

impl Word {
    /// Whether all four bytes hold known values.
    pub open spec fn is_known(self) -> bool {
        self.b0 is Some && self.b1 is Some && self.b2 is Some && self.b3 is Some
    }

    /// The 32-bit value of a fully known word, little-endian.
    pub open spec fn spec_u32(self) -> u32 {
        (self.b0.unwrap() as u32) | ((self.b1.unwrap() as u32) << 8) | ((self.b2.unwrap()
            as u32) << 16) | ((self.b3.unwrap() as u32) << 24)
    }

    /// The byte at position `i` (0 is least significant).
    pub open spec fn spec_get(self, i: int) -> Option<u8> {
        if i == 0 {
            self.b0
        } else if i == 1 {
            self.b1
        } else if i == 2 {
            self.b2
        } else {
            self.b3
        }
    }

    /// A word whose four bytes are all unknown.
    pub fn unknown() -> (r: Word)
        ensures
            r == unknown_word(),
    {
        Word { b0: None, b1: None, b2: None, b3: None }
    }

    /// The known all-zero word.
    pub fn zeros() -> (r: Word)
        ensures
            r == word32(0),
    {
        proof {
            assert((0u32 >> 8) == 0 && (0u32 >> 16) == 0 && (0u32 >> 24) == 0 && (0u32 & 0xff)
                == 0) by (bit_vector);
        }
        Word { b0: Some(0), b1: Some(0), b2: Some(0), b3: Some(0) }
    }

    /// The word's 32-bit value, or `None` unless all four bytes are known.
    pub fn to_u32(&self) -> (r: Option<u32>)
        ensures
            self.is_known() ==> r == Some(self.spec_u32()),
            !self.is_known() ==> r is None,
    {
        match (self.b0, self.b1, self.b2, self.b3) {
            (Some(a), Some(b), Some(c), Some(d)) => Some(
                (a as u32) | ((b as u32) << 8) | ((c as u32) << 16) | ((d as u32) << 24),
            ),
            _ => None,
        }
    }

    /// Whether any byte is unknown.
    pub fn has_unknown(&self) -> (r: bool)
        ensures
            r == !self.is_known(),
    {
        self.b0.is_none() || self.b1.is_none() || self.b2.is_none() || self.b3.is_none()
    }

    /// Whether the word is known to be zero.
    pub fn is_zero(&self) -> (r: bool)
        ensures
            r == (self.is_known() && self.spec_u32() == 0),
    {
        match self.to_u32() {
            Some(v) => v == 0,
            None => false,
        }
    }

    /// Whether the word is known and nonzero.
    pub fn is_something_nonzero(&self) -> (r: bool)
        ensures
            r == (self.is_known() && self.spec_u32() != 0),
    {
        match self.to_u32() {
            Some(v) => v != 0,
            None => false,
        }
    }

    /// The byte at position `i` (0 is least significant).
    pub fn get_byte(&self, i: usize) -> (r: Option<u8>)
        requires
            i < 4,
        ensures
            r == self.spec_get(i as int),
    {
        if i == 0 {
            self.b0
        } else if i == 1 {
            self.b1
        } else if i == 2 {
            self.b2
        } else {
            self.b3
        }
    }

    /// Replace the byte at position `i` (0 is least significant).
    pub fn set_byte(&mut self, i: usize, v: Option<u8>)
        requires
            i < 4,
        ensures
            final(self).spec_get(i as int) == v,
            forall|j: int| 0 <= j < 4 && j != i ==> final(self).spec_get(j) == old(self).spec_get(j),
    {
        if i == 0 {
            self.b0 = v;
        } else if i == 1 {
            self.b1 = v;
        } else if i == 2 {
            self.b2 = v;
        } else {
            self.b3 = v;
        }
    }

    /// Wrapping addition; unknown if either operand has an unknown byte.
    pub fn add(self, other: Word) -> (r: Word)
        ensures
            self.is_known() && other.is_known() ==> r == word32(
                u32_add(self.spec_u32(), other.spec_u32()),
            ),
            !(self.is_known() && other.is_known()) ==> r == unknown_word(),
    {
        match (self.to_u32(), other.to_u32()) {
            (Some(a), Some(b)) => {
                let s: u64 = (a as u64) + (b as u64);
                Word::from((s % 0x1_0000_0000) as u32)
            },
            _ => Word::unknown(),
        }
    }

    /// Wrapping subtraction; unknown if either operand has an unknown byte.
    pub fn sub(self, other: Word) -> (r: Word)
        ensures
            self.is_known() && other.is_known() ==> r == word32(
                u32_sub(self.spec_u32(), other.spec_u32()),
            ),
            !(self.is_known() && other.is_known()) ==> r == unknown_word(),
    {
        match (self.to_u32(), other.to_u32()) {
            (Some(a), Some(b)) => {
                let s: u64 = (a as u64) + 0x1_0000_0000 - (b as u64);
                Word::from((s % 0x1_0000_0000) as u32)
            },
            _ => Word::unknown(),
        }
    }

    /// Bitwise and; unknown if either operand has an unknown byte.
    pub fn and(self, other: Word) -> (r: Word)
        ensures
            self.is_known() && other.is_known() ==> r == word32(
                self.spec_u32() & other.spec_u32(),
            ),
            !(self.is_known() && other.is_known()) ==> r == unknown_word(),
    {
        match (self.to_u32(), other.to_u32()) {
            (Some(a), Some(b)) => Word::from(a & b),
            _ => Word::unknown(),
        }
    }

    /// Bitwise or; unknown if either operand has an unknown byte.
    pub fn or(self, other: Word) -> (r: Word)
        ensures
            self.is_known() && other.is_known() ==> r == word32(
                self.spec_u32() | other.spec_u32(),
            ),
            !(self.is_known() && other.is_known()) ==> r == unknown_word(),
    {
        match (self.to_u32(), other.to_u32()) {
            (Some(a), Some(b)) => Word::from(a | b),
            _ => Word::unknown(),
        }
    }

    /// Bitwise exclusive or; unknown if either operand has an unknown byte.
    pub fn xor(self, other: Word) -> (r: Word)
        ensures
            self.is_known() && other.is_known() ==> r == word32(
                self.spec_u32() ^ other.spec_u32(),
            ),
            !(self.is_known() && other.is_known()) ==> r == unknown_word(),
    {
        match (self.to_u32(), other.to_u32()) {
            (Some(a), Some(b)) => Word::from(a ^ b),
            _ => Word::unknown(),
        }
    }

    /// Logical left shift, amount taken modulo 32 as the hardware shifter does.
    pub fn shl(self, amt: Word) -> (r: Word)
        ensures
            self.is_known() && amt.is_known() ==> r == word32(
                self.spec_u32() << ((amt.spec_u32() & 31) as u32),
            ),
            !(self.is_known() && amt.is_known()) ==> r == unknown_word(),
    {
        match (self.to_u32(), amt.to_u32()) {
            (Some(a), Some(k)) => {
                let kk: u32 = k & 31;
                assert(kk < 32) by (bit_vector)
                    requires
                        kk == k & 31,
                ;
                Word::from(a << kk)
            },
            _ => Word::unknown(),
        }
    }

    /// Logical right shift, amount taken modulo 32.
    pub fn shr(self, amt: Word) -> (r: Word)
        ensures
            self.is_known() && amt.is_known() ==> r == word32(
                self.spec_u32() >> ((amt.spec_u32() & 31) as u32),
            ),
            !(self.is_known() && amt.is_known()) ==> r == unknown_word(),
    {
        match (self.to_u32(), amt.to_u32()) {
            (Some(a), Some(k)) => {
                let kk: u32 = k & 31;
                assert(kk < 32) by (bit_vector)
                    requires
                        kk == k & 31,
                ;
                Word::from(a >> kk)
            },
            _ => Word::unknown(),
        }
    }

    /// Arithmetic right shift, amount taken modulo 32.
    pub fn shra(self, amt: Word) -> (r: Word)
        ensures
            self.is_known() && amt.is_known() ==> r == word32(
                u32_sra(self.spec_u32(), (amt.spec_u32() & 31) as u32),
            ),
            !(self.is_known() && amt.is_known()) ==> r == unknown_word(),
    {
        match (self.to_u32(), amt.to_u32()) {
            (Some(a), Some(k)) => {
                let kk: u32 = k & 31;
                assert(kk < 32) by (bit_vector)
                    requires
                        kk == k & 31,
                ;
                let fill: u32 = if a >= 0x8000_0000 {
                    !(0xffff_ffffu32 >> kk)
                } else {
                    0
                };
                Word::from((a >> kk) | fill)
            },
            _ => Word::unknown(),
        }
    }

    /// Bitwise and of the word with a byte-sized mask, as a byte.
    pub fn and_byte(self, mask: Byte) -> (r: Byte)
        ensures
            self.is_known() && mask.is_known() ==> r == byte8(
                ((self.spec_u32() & (mask.spec_u8() as u32)) as u8),
            ),
            !(self.is_known() && mask.is_known()) ==> r == unknown_byte(),
    {
        match (self.to_u32(), mask.v) {
            (Some(a), Some(m)) => {
                let masked: u32 = a & (m as u32);
                assert(masked < 256) by (bit_vector)
                    requires
                        masked == a & (m as u32),
                        m < 256,
                ;
                Byte { v: Some(masked as u8) }
            },
            _ => Byte { v: None },
        }
    }

    /// Signed less-than; false unless both operands are fully known.
    pub fn lt_signed(self, other: Word) -> (r: bool)
        ensures
            self.is_known() && other.is_known() ==> r == ((self.spec_u32() as i32) < (
            other.spec_u32() as i32)),
            !(self.is_known() && other.is_known()) ==> r == false,
    {
        match (self.to_u32(), other.to_u32()) {
            (Some(a), Some(b)) => (a as i32) < (b as i32),
            _ => false,
        }
    }

    /// Unsigned less-than; false unless both operands are fully known.
    pub fn lt_unsigned(self, other: Word) -> (r: bool)
        ensures
            self.is_known() && other.is_known() ==> r == (self.spec_u32() < other.spec_u32()),
            !(self.is_known() && other.is_known()) ==> r == false,
    {
        match (self.to_u32(), other.to_u32()) {
            (Some(a), Some(b)) => a < b,
            _ => false,
        }
    }
}

impl From<u32> for Word {
    fn from(v: u32) -> (r: Word) {
        proof {
            lemma_word32_value(v);
        }
        Word {
            b0: Some((v & 0xff) as u8),
            b1: Some(((v >> 8) & 0xff) as u8),
            b2: Some(((v >> 16) & 0xff) as u8),
            b3: Some(((v >> 24) & 0xff) as u8),
        }
    }
}

impl vstd::std_specs::convert::FromSpecImpl<u32> for Word {
    open spec fn obeys_from_spec() -> bool {
        true
    }

    open spec fn from_spec(v: u32) -> Word {
        word32(v)
    }
}

/// A word built from a 32-bit value reads back as that value.
pub proof fn lemma_word32_value(v: u32)
    ensures
        word32(v).is_known(),
        word32(v).spec_u32() == v,
{
    assert(((v & 0xff) as u8 as u32) | ((((v >> 8) & 0xff) as u8 as u32) << 8) | ((((v >> 16)
        & 0xff) as u8 as u32) << 16) | ((((v >> 24) & 0xff) as u8 as u32) << 24) == v)
        by (bit_vector);
}

/// A fully known word is exactly the word built from its 32-bit value:
/// byte decomposition is unique.
pub proof fn lemma_word_from_value(w: Word)
    requires
        w.is_known(),
    ensures
        w == word32(w.spec_u32()),
{
    let b0 = w.b0.unwrap();
    let b1 = w.b1.unwrap();
    let b2 = w.b2.unwrap();
    let b3 = w.b3.unwrap();
    let v = w.spec_u32();
    assert(b0 == (v & 0xff) as u8 && b1 == ((v >> 8) & 0xff) as u8 && b2 == ((v >> 16)
        & 0xff) as u8 && b3 == ((v >> 24) & 0xff) as u8) by (bit_vector)
        requires
            v == (b0 as u32) | ((b1 as u32) << 8) | ((b2 as u32) << 16) | ((b3 as u32) << 24),
    ;
}

/// Sign extension of the low bits of a value, where `upper_idx` is the
/// position of the sign bit: bits above it are filled with copies of it,
/// bits at and below it are kept.
pub open spec fn sign_extend_spec(val: u32, upper_idx: u8) -> u32 {
    if (val >> (upper_idx as u32)) & 1 == 1 {
        if upper_idx >= 31 {
            val
        } else {
            val | (0xffff_ffffu32 << ((upper_idx + 1) as u32))
        }
    } else {
        val & (0xffff_ffffu32 >> ((31 - upper_idx) as u32))
    }
}

/// Sign-extend the low `upper_idx + 1` bits of `val` to a full word.
pub fn sign_extend(val: u32, upper_idx: u8) -> (r: Word)
    requires
        upper_idx < 32,
    ensures
        r == word32(sign_extend_spec(val, upper_idx)),
        r.is_known(),
{
    let msb = (val >> (upper_idx as u32)) & 0x1;
    if msb == 0x1 {
        if upper_idx >= 31 {
            Word::from(val)
        } else {
            Word::from(val | (0xffff_ffffu32 << ((upper_idx + 1) as u32)))
        }
    } else {
        Word::from(val & (0xffff_ffffu32 >> ((31 - upper_idx) as u32)))
    }
}

} // verus!
