//! A cycle-accurate discrete-event simulation kernel for hardware-style
//! systems built from small components that communicate over typed links,
//! together with the bit-exact value model and the CPU datapath components
//! that run on top of it.

pub mod backend;
pub mod channel;
pub mod clock_event;
pub mod component;
pub mod error;
pub mod event;
pub mod isa;
pub mod mem;
pub mod queue;
pub mod sim_dispatcher;
pub mod sim_manager;
pub mod simple_component;
pub mod task;
pub mod types;
pub mod unicore;
pub mod word;
