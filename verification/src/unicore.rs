//! A self-contained, single-threaded model of the same multi-cycle CPU:
//! the whole datapath advanced as one pure state machine, one clock per
//! call, with a latency-modelled memory controller and optional
//! memory-mapped peripherals.

pub mod cpu;
pub mod ir;
pub mod mem_ctl;
pub mod mmio_ctl;
pub mod mmio_driver;
pub mod regfile;
