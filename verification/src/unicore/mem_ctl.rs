//! The memory controller of the self-contained core: a byte store with a
//! modelled access latency, and a window of memory-mapped peripherals.

use crate::backend::mem_ctl::loaded_image;
use crate::mem::{
    addr_plus, mem_read4, mem_write4, read_byte_at, word_key, MemStore,
};
use crate::unicore::mmio_ctl::MMIOCtl;
use crate::unicore::mmio_driver::MMIODriver;
use crate::word::{Byte, Word};
use vstd::prelude::*;

verus! {

/// The memory controller.
pub struct MemCtl<D: MMIODriver> {
    backend_mem: MemStore,
    mmio_ctl: MMIOCtl<D>,
    mem_access_latency: u128,
    mem_wait_left: u128,
}

impl<D: MMIODriver> MemCtl<D> {
    /// The backing store's contents.
    pub closed spec fn mem(&self) -> Map<u64, Byte> {
        self.backend_mem@
    }

    /// The keys of the addresses where a peripheral is mapped.
    pub closed spec fn mmio(&self) -> Set<u64> {
        self.mmio_ctl.mapped()
    }

    /// How many ticks the pending access still needs.
    pub closed spec fn wait(&self) -> u128 {
        self.mem_wait_left
    }

    /// Whether no byte address touched by a masked access at `addr` has a
    /// peripheral mapped.
    pub open spec fn no_mmio_window(&self, addr: Word) -> bool {
        forall|i: u32|
            0 <= i < 4 ==> !self.mmio().contains(word_key(#[trigger] addr_plus(addr, i)))
    }

    /// Whether the pending access, if any, has completed.
    pub fn is_resp(&self) -> (r: bool)
        ensures
            r == (self.wait() == 0),
    {
        self.mem_wait_left == 0
    }

    /// Start an access: an idle controller begins counting the access
    /// latency; a busy one keeps its pending access.
    pub fn req_access(&mut self)
        ensures
            final(self).mem() == old(self).mem(),
            final(self).mmio() == old(self).mmio(),
            old(self).wait() == 0 ==> final(self).wait() == final(self).latency(),
            old(self).wait() != 0 ==> final(self).wait() == old(self).wait(),
            final(self).latency() == old(self).latency(),
    {
        if self.mem_wait_left == 0 {
            self.mem_wait_left = self.mem_access_latency;
        }
    }

    /// The configured access latency.
    pub closed spec fn latency(&self) -> u128 {
        self.mem_access_latency
    }

    /// One tick of the wait counter: a pending access gets one cycle
    /// closer to completion, and a completed one stays completed.
    pub fn tick(&mut self)
        ensures
            final(self).mem() == old(self).mem(),
            final(self).mmio() == old(self).mmio(),
            final(self).wait() == (if old(self).wait() > 0 {
                (old(self).wait() - 1) as u128
            } else {
                0u128
            }),
            final(self).latency() == old(self).latency(),
    {
        if self.mem_wait_left > 0 {
            self.mem_wait_left = self.mem_wait_left - 1;
        }
    }

    /// Read the bytes selected by the mask. A byte whose address has a
    /// peripheral mapped comes from the peripheral; with no peripheral in
    /// the window the result is exactly the masked read of the store.
    pub fn read(&self, addr: &Word, rmask: Byte) -> (r: Word)
        ensures
            rmask.is_known() && self.no_mmio_window(*addr) ==> r == mem_read4(
                self.mem(),
                *addr,
                rmask.spec_u8(),
            ),
            !rmask.is_known() ==> r == crate::word::unknown_word(),
    {
        let mut ret = Word::unknown();
        match rmask.to_u8() {
            Some(rmask_v) => {
                let mut i: u32 = 0;
                while i < 4
                    invariant
                        i <= 4,
                        self.no_mmio_window(*addr) ==> forall|j: int|
                            0 <= j < i ==> ret.spec_get(j) == read_byte_at(
                                self.mem(),
                                *addr,
                                rmask_v,
                                j,
                            ),
                        forall|j: int| i <= j < 4 ==> ret.spec_get(j) is None,
                    decreases 4 - i,
                {
                    if (rmask_v >> (i as u8)) & 0x1 == 0x1 {
                        let addr_idx = addr.add(Word::from(i));
                        proof {
                            crate::word::lemma_word32_value(i);
                        }
                        if self.mmio_ctl.contains(&addr_idx) {
                            let b = self.mmio_ctl.read(&addr_idx);
                            ret.set_byte(i as usize, b.to_u8());
                        } else {
                            match self.backend_mem.load_byte(&addr_idx) {
                                Some(b) => {
                                    ret.set_byte(i as usize, b.v);
                                },
                                None => {
                                    ret.set_byte(i as usize, None);
                                },
                            }
                        }
                    }
                    i += 1;
                }
                proof {
                    if self.no_mmio_window(*addr) {
                        assert(ret.spec_get(0) == read_byte_at(self.mem(), *addr, rmask_v, 0));
                        assert(ret.spec_get(1) == read_byte_at(self.mem(), *addr, rmask_v, 1));
                        assert(ret.spec_get(2) == read_byte_at(self.mem(), *addr, rmask_v, 2));
                        assert(ret.spec_get(3) == read_byte_at(self.mem(), *addr, rmask_v, 3));
                        assert(ret.b0 == ret.spec_get(0) && ret.b1 == ret.spec_get(1) && ret.b2
                            == ret.spec_get(2) && ret.b3 == ret.spec_get(3));
                    }
                }
            },
            None => {},
        }
        ret
    }

    /// Write the data bytes selected by the mask. A byte whose address
    /// has a peripheral mapped goes to the peripheral; with no peripheral
    /// in the window the store changes by exactly the masked write.
    pub fn write(&mut self, addr: &Word, data: Word, wmask: Byte)
        ensures
            final(self).mmio() == old(self).mmio(),
            final(self).wait() == old(self).wait(),
            final(self).latency() == old(self).latency(),
            wmask.is_known() && old(self).no_mmio_window(*addr) ==> final(self).mem()
                == mem_write4(old(self).mem(), *addr, wmask.spec_u8(), data),
            !wmask.is_known() ==> final(self).mem() == old(self).mem(),
    {
        match wmask.to_u8() {
            Some(wmask_v) => {
                let ghost pre = self.mem();
                let mut i: u32 = 0;
                while i < 4
                    invariant
                        i <= 4,
                        self.mmio() == old(self).mmio(),
                        self.wait() == old(self).wait(),
                        self.latency() == old(self).latency(),
                        old(self).no_mmio_window(*addr) ==> self.mem()
                            == crate::mem::mem_write_upto(pre, *addr, wmask_v, data, i as int),
                    decreases 4 - i,
                {
                    if (wmask_v >> (i as u8)) & 0x1 == 0x1 {
                        let addr_idx = addr.add(Word::from(i));
                        proof {
                            crate::word::lemma_word32_value(i);
                        }
                        let b = Byte { v: data.get_byte(i as usize) };
                        if self.mmio_ctl.contains(&addr_idx) {
                            self.mmio_ctl.write(&addr_idx, b);
                        } else {
                            self.backend_mem.store_byte(&addr_idx, b);
                        }
                    }
                    i += 1;
                }
            },
            None => {},
        }
    }

    /// Map a peripheral at an address.
    pub fn insert_mmio_driver(&mut self, addr: &Word, driver: D)
        ensures
            final(self).mmio() == old(self).mmio().insert(word_key(*addr)),
            final(self).mem() == old(self).mem(),
            final(self).wait() == old(self).wait(),
            final(self).latency() == old(self).latency(),
    {
        self.mmio_ctl.insert_mmio_driver(addr, driver);
    }

    /// Preload a binary image byte by byte, starting at the given address.
    pub fn load_bin(&mut self, data: &Vec<u8>, addr: Word)
        ensures
            final(self).mem() == loaded_image(old(self).mem(), data@, addr, data@.len() as int),
            final(self).mmio() == old(self).mmio(),
            final(self).wait() == old(self).wait(),
            final(self).latency() == old(self).latency(),
    {
        let ghost pre = self.mem();
        let n = data.len();
        let mut i: usize = 0;
        while i < n
            invariant
                i <= n,
                n == data@.len(),
                self.mem() == loaded_image(pre, data@, addr, i as int),
                self.mmio() == old(self).mmio(),
                self.wait() == old(self).wait(),
                self.latency() == old(self).latency(),
            decreases n - i,
        {
            let step = addr.add(Word::from(i as u32));
            proof {
                crate::word::lemma_word32_value(i as u32);
            }
            self.backend_mem.store_byte(&step, Byte::from(data[i]));
            i += 1;
        }
    }
}

impl<D: MMIODriver> Default for MemCtl<D> {
    /// A fresh controller: empty store, no peripherals, an access latency
    /// of two ticks, nothing pending.
    fn default() -> (r: MemCtl<D>)
        ensures
            r.mem() == Map::<u64, Byte>::empty(),
            r.mmio() =~= Set::<u64>::empty(),
            r.wait() == 0,
            r.latency() == 2,
    {
        MemCtl {
            backend_mem: MemStore::new(),
            mmio_ctl: MMIOCtl::new(),
            mem_access_latency: 2,
            mem_wait_left: 0,
        }
    }
}

} // verus!
