//! The contract a memory-mapped peripheral implements to be reachable
//! through the memory controller.

use crate::word::Byte;
use vstd::prelude::*;

verus! {

/// A byte-wide memory-mapped peripheral. Reads and writes take `&self`:
/// a stateful driver manages its own interior state.
pub trait MMIODriver: Sized {
    /// One-time setup.
    fn init(&self);

    /// The byte the peripheral currently presents.
    fn read(&self) -> Byte;

    /// Hand the peripheral a byte.
    fn write(&self, byte: Byte);
}

/// A peripheral that absorbs writes and reads back unknown: the driver
/// used where an address range is mapped but nothing is attached.
pub struct NullMmio {}

impl MMIODriver for NullMmio {
    fn init(&self) {
    }

    fn read(&self) -> Byte {
        Byte::unknown()
    }

    fn write(&self, byte: Byte) {
    }
}

} // verus!
