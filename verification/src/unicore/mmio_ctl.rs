//! Routing of memory-mapped reads and writes to their peripherals.

use crate::mem::{word_key, word_key_exec};
use crate::unicore::mmio_driver::MMIODriver;
use crate::word::{unknown_byte, Byte, Word};
use vstd::prelude::*;

verus! {

broadcast use vstd::set::group_set_axioms;

/// The peripherals, keyed by the address each is mapped at.
pub struct MMIOCtl<D: MMIODriver> {
    drivers: Vec<(u64, D)>,
}

impl<D: MMIODriver> MMIOCtl<D> {
    /// The keys of the mapped addresses.
    pub closed spec fn mapped(&self) -> Set<u64> {
        Set::new(
            |k: u64| exists|j: int| 0 <= j < self.drivers@.len() && (#[trigger] self.drivers@[j]).0 == k,
        )
    }

    /// A controller with nothing mapped.
    pub fn new() -> (r: MMIOCtl<D>)
        ensures
            r.mapped() =~= Set::<u64>::empty(),
    {
        MMIOCtl { drivers: Vec::new() }
    }

    /// The byte presented by the peripheral mapped at the address; an
    /// unmapped address reads as unknown.
    pub fn read(&self, addr: &Word) -> (r: Byte)
        ensures
            !self.mapped().contains(word_key(*addr)) ==> r == unknown_byte(),
    {
        let key = word_key_exec(addr);
        let n = self.drivers.len();
        let mut i: usize = 0;
        while i < n
            invariant
                key == word_key(*addr),
                n == self.drivers@.len(),
                i <= n,
                forall|j: int| 0 <= j < i ==> (#[trigger] self.drivers@[j]).0 != key,
            decreases n - i,
        {
            if self.drivers[i].0 == key {
                proof {
                    assert(exists|j: int|
                        0 <= j < self.drivers@.len() && (#[trigger] self.drivers@[j]).0 == key) by {
                        assert(self.drivers@[i as int].0 == key);
                    }
                    assert(self.mapped().contains(key));
                }
                return self.drivers[i].1.read();
            }
            i += 1;
        }
        Byte::unknown()
    }

    /// Whether a peripheral is mapped at the address.
    pub fn contains(&self, addr: &Word) -> (r: bool)
        ensures
            r == self.mapped().contains(word_key(*addr)),
    {
        let key = word_key_exec(addr);
        let n = self.drivers.len();
        let mut i: usize = 0;
        while i < n
            invariant
                key == word_key(*addr),
                n == self.drivers@.len(),
                i <= n,
                forall|j: int| 0 <= j < i ==> (#[trigger] self.drivers@[j]).0 != key,
            decreases n - i,
        {
            if self.drivers[i].0 == key {
                proof {
                    assert(exists|j: int|
                        0 <= j < self.drivers@.len() && (#[trigger] self.drivers@[j]).0 == key) by {
                        assert(self.drivers@[i as int].0 == key);
                    }
                    assert(self.mapped().contains(key));
                }
                return true;
            }
            i += 1;
        }
        false
    }

    /// Hand a byte to the peripheral mapped at the address; a write to an
    /// unmapped address is dropped.
    pub fn write(&self, addr: &Word, data: Byte) {
        let key = word_key_exec(addr);
        let n = self.drivers.len();
        let mut i: usize = 0;
        while i < n
            invariant
                n == self.drivers@.len(),
                i <= n,
            decreases n - i,
        {
            if self.drivers[i].0 == key {
                self.drivers[i].1.write(data);
                return;
            }
            i += 1;
        }
    }

    /// Map a peripheral at an address; mapping an address again replaces
    /// the peripheral that was there.
    pub fn insert_mmio_driver(&mut self, addr: &Word, driver: D)
        ensures
            final(self).mapped() == old(self).mapped().insert(word_key(*addr)),
    {
        let key = word_key_exec(addr);
        let n = self.drivers.len();
        let mut i: usize = 0;
        while i < n
            invariant
                key == word_key(*addr),
                n == self.drivers@.len(),
                i <= n,
                self.drivers@ == old(self).drivers@,
            decreases n - i,
        {
            if self.drivers[i].0 == key {
                self.drivers[i] = (key, driver);
                proof {
                    assert(self.mapped() =~= old(self).mapped().insert(key)) by {
                        assert forall|k: u64| self.mapped().contains(k) implies old(
                            self,
                        ).mapped().insert(key).contains(k) by {
                            let j = choose|j: int|
                                0 <= j < self.drivers@.len() && (#[trigger] self.drivers@[j]).0
                                    == k;
                            assert(old(self).drivers@[j].0 == k);
                        }
                        assert forall|k: u64| old(self).mapped().insert(key).contains(
                            k,
                        ) implies self.mapped().contains(k) by {
                            if k == key {
                                assert(self.drivers@[i as int].0 == k);
                            } else {
                                let j = choose|j: int|
                                    0 <= j < old(self).drivers@.len() && (#[trigger] old(
                                        self,
                                    ).drivers@[j]).0 == k;
                                assert(self.drivers@[j].0 == k);
                            }
                        }
                    }
                }
                return;
            }
            i += 1;
        }
        self.drivers.push((key, driver));
        proof {
            assert forall|k: u64| self.mapped().contains(k) implies old(self).mapped().insert(
                key,
            ).contains(k) by {
                let j = choose|j: int|
                    0 <= j < self.drivers@.len() && (#[trigger] self.drivers@[j]).0 == k;
                if j < old(self).drivers@.len() {
                    assert(old(self).drivers@[j].0 == k);
                }
            }
            assert forall|k: u64| old(self).mapped().insert(key).contains(k) implies
                self.mapped().contains(k) by {
                if k == key {
                    assert(self.drivers@[self.drivers@.len() - 1].0 == k);
                } else {
                    let j = choose|j: int|
                        0 <= j < old(self).drivers@.len() && (#[trigger] old(
                            self,
                        ).drivers@[j]).0 == k;
                    assert(self.drivers@[j].0 == k);
                }
            }
            assert(self.mapped() =~= old(self).mapped().insert(key));
        }
    }
}

} // verus!
