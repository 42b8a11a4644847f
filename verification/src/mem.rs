//! Backing storage for the memory controllers: a byte store addressed by
//! simulated words.
//!
//! An address is a word whose bytes may themselves be unknown, so the store
//! is keyed by an encoding that keeps distinct address values distinct:
//! the four data bytes (unknown bytes as zero) together with a mask of
//! which bytes are known.

use crate::word::{Byte, Word};
use std::collections::HashMap;
use vstd::prelude::*;

verus! {

broadcast use vstd::std_specs::hash::group_hash_axioms;

/// The key under which an address word is stored: its four bytes, with a
/// fifth byte recording which of them are known. Distinct address values
/// get distinct keys.
pub open spec fn word_key(w: Word) -> u64 {
    (if w.b0 is Some {
        (w.b0.unwrap() as u64) | 0x1_0000_0000u64
    } else {
        0u64
    }) | (if w.b1 is Some {
        ((w.b1.unwrap() as u64) << 8u64) | 0x2_0000_0000u64
    } else {
        0u64
    }) | (if w.b2 is Some {
        ((w.b2.unwrap() as u64) << 16u64) | 0x4_0000_0000u64
    } else {
        0u64
    }) | (if w.b3 is Some {
        ((w.b3.unwrap() as u64) << 24u64) | 0x8_0000_0000u64
    } else {
        0u64
    })
}

/// Compute the store key of an address word.
pub fn word_key_exec(w: &Word) -> (r: u64)
    ensures
        r == word_key(*w),
{
    let k0: u64 = match w.b0 {
        Some(b) => (b as u64) | 0x1_0000_0000u64,
        None => 0,
    };
    let k1: u64 = match w.b1 {
        Some(b) => ((b as u64) << 8u64) | 0x2_0000_0000u64,
        None => 0,
    };
    let k2: u64 = match w.b2 {
        Some(b) => ((b as u64) << 16u64) | 0x4_0000_0000u64,
        None => 0,
    };
    let k3: u64 = match w.b3 {
        Some(b) => ((b as u64) << 24u64) | 0x8_0000_0000u64,
        None => 0,
    };
    k0 | k1 | k2 | k3
}

/// A byte store addressed by simulated words.
pub struct MemStore {
    map: HashMap<u64, Byte>,
}

impl View for MemStore {
    type V = Map<u64, Byte>;

    closed spec fn view(&self) -> Map<u64, Byte> {
        self.map@
    }
}

impl MemStore {
    /// An empty store.
    pub fn new() -> (r: MemStore)
        ensures
            r@ == Map::<u64, Byte>::empty(),
    {
        MemStore { map: HashMap::new() }
    }

    /// Store a byte at an address.
    pub fn store_byte(&mut self, addr: &Word, b: Byte)
        ensures
            final(self)@ == old(self)@.insert(word_key(*addr), b),
    {
        let key = word_key_exec(addr);
        self.map.insert(key, b);
    }

    /// The byte at an address, if one has been stored there.
    pub fn load_byte(&self, addr: &Word) -> (r: Option<Byte>)
        ensures
            self@.contains_key(word_key(*addr)) ==> r == Some(self@[word_key(*addr)]),
            !self@.contains_key(word_key(*addr)) ==> r is None,
    {
        let key = word_key_exec(addr);
        match self.map.get(&key) {
            Some(b) => Some(*b),
            None => None,
        }
    }

    /// Store the data bytes selected by the mask, each at its own byte
    /// address.
    pub fn write_masked(&mut self, addr: &Word, wmask: u8, data: &Word)
        ensures
            final(self)@ == mem_write4(old(self)@, *addr, wmask, *data),
    {
        let ghost pre = self@;
        let mut i: u32 = 0;
        while i < 4
            invariant
                i <= 4,
                self@ == mem_write_upto(pre, *addr, wmask, *data, i as int),
            decreases 4 - i,
        {
            if (wmask >> (i as u8)) & 0x1 == 0x1 {
                let addr_idx = addr.add(Word::from(i));
                proof {
                    crate::word::lemma_word32_value(i);
                }
                let b = Byte { v: data.get_byte(i as usize) };
                self.store_byte(&addr_idx, b);
            }
            i += 1;
        }
    }

    /// Read the bytes selected by the mask, each from its own byte
    /// address; unselected or absent bytes come back unknown.
    pub fn read_masked(&self, addr: &Word, rmask: u8) -> (r: Word)
        ensures
            r == mem_read4(self@, *addr, rmask),
    {
        let mut ret = Word::unknown();
        let mut i: u32 = 0;
        while i < 4
            invariant
                i <= 4,
                forall|j: int|
                    0 <= j < i ==> ret.spec_get(j) == read_byte_at(self@, *addr, rmask, j),
                forall|j: int| i <= j < 4 ==> ret.spec_get(j) is None,
            decreases 4 - i,
        {
            if (rmask >> (i as u8)) & 0x1 == 0x1 {
                let addr_idx = addr.add(Word::from(i));
                proof {
                    crate::word::lemma_word32_value(i);
                }
                match self.load_byte(&addr_idx) {
                    Some(b) => {
                        ret.set_byte(i as usize, b.v);
                    },
                    None => {
                        ret.set_byte(i as usize, None);
                    },
                }
            }
            i += 1;
        }
        proof {
            assert(ret.spec_get(0) == read_byte_at(self@, *addr, rmask, 0));
            assert(ret.b0 == ret.spec_get(0) && ret.b1 == ret.spec_get(1) && ret.b2 == ret.spec_get(2) && ret.b3 == ret.spec_get(3));
            assert(ret.spec_get(1) == read_byte_at(self@, *addr, rmask, 1));
            assert(ret.spec_get(2) == read_byte_at(self@, *addr, rmask, 2));
            assert(ret.spec_get(3) == read_byte_at(self@, *addr, rmask, 3));
        }
        ret
    }
}

/// The byte address `i` bytes past a word address; unknown if the base is.
pub open spec fn addr_plus(addr: Word, i: u32) -> Word {
    if addr.is_known() {
        crate::word::word32(crate::word::u32_add(addr.spec_u32(), i))
    } else {
        crate::word::unknown_word()
    }
}

/// One byte of a masked write applied to a store.
pub open spec fn write_byte_step(
    m: Map<u64, Byte>,
    addr: Word,
    wmask: u8,
    data: Word,
    i: int,
) -> Map<u64, Byte> {
    if (wmask >> i) & 0x1 == 0x1 {
        m.insert(word_key(addr_plus(addr, i as u32)), Byte { v: data.spec_get(i) })
    } else {
        m
    }
}

/// The first `n` bytes of a masked write applied to a store.
pub open spec fn mem_write_upto(
    m: Map<u64, Byte>,
    addr: Word,
    wmask: u8,
    data: Word,
    n: int,
) -> Map<u64, Byte>
    decreases n,
{
    if n <= 0 {
        m
    } else {
        write_byte_step(mem_write_upto(m, addr, wmask, data, n - 1), addr, wmask, data, n - 1)
    }
}

/// A masked four-byte write applied to a store.
pub open spec fn mem_write4(m: Map<u64, Byte>, addr: Word, wmask: u8, data: Word) -> Map<
    u64,
    Byte,
> {
    mem_write_upto(m, addr, wmask, data, 4)
}

/// The byte a masked read yields at lane `i`: unknown when the lane is
/// unselected or nothing is stored at its address.
pub open spec fn read_byte_at(m: Map<u64, Byte>, addr: Word, rmask: u8, i: int) -> Option<u8> {
    if (rmask >> i) & 0x1 == 0x1 {
        if m.contains_key(word_key(addr_plus(addr, i as u32))) {
            m[word_key(addr_plus(addr, i as u32))].v
        } else {
            None
        }
    } else {
        None
    }
}

/// The word a masked four-byte read yields.
pub open spec fn mem_read4(m: Map<u64, Byte>, addr: Word, rmask: u8) -> Word {
    Word {
        b0: read_byte_at(m, addr, rmask, 0),
        b1: read_byte_at(m, addr, rmask, 1),
        b2: read_byte_at(m, addr, rmask, 2),
        b3: read_byte_at(m, addr, rmask, 3),
    }
}

} // verus!
