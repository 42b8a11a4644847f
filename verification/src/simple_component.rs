//! Sample components for exercising the kernel: a packet source, a
//! forwarding link, a sink, and a loopback source.

pub mod simple_event;
pub mod simple_link;
pub mod simple_loopback;
pub mod simple_receiver;
pub mod simple_sender;
