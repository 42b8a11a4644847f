//! The multi-cycle CPU datapath built on the kernel: one component per
//! hardware block, wired by typed links, plus the assembled core.

pub mod alu;
pub mod blackhole;
pub mod cmp;
pub mod control;
pub mod cpu;
pub mod data_out;
pub mod event;
pub mod ir;
pub mod mar;
pub mod mdr;
pub mod mem_ctl;
pub mod pc;
pub mod regfile;
