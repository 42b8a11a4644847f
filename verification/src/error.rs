//! The fatal conditions the kernel recognizes. The simulator favours loud,
//! reproducible failure over recovery: every variant here means the run is no
//! longer trustworthy.

use vstd::prelude::*;

verus! {

/// A fatal kernel condition.
#[derive(Clone, Copy, Debug, PartialEq, Eq, Structural)]
pub enum SimError {
    /// An event at the head of the heap is scheduled strictly in the past:
    /// some component emitted into a cycle that has already completed.
    TimeFault,
    /// An acknowledgement arrived for an event identifier that is not in the
    /// reorder buffer: a duplicate ack or a corrupted identifier path.
    PhantomAck,
    /// A shared structure was left behind by a panicking holder; an embedder
    /// that shares the manager behind a lock maps poisoning to this.
    LockPoisoned,
    /// The acknowledgement channel has no senders left, so outstanding
    /// releases can never be acknowledged.
    ChannelClosed,
    /// A drain pass changed nothing although the cycle cannot complete: an
    /// event was released into a channel that no polled component drains, so
    /// waiting longer would spin forever.
    Stalled,
}

} // verus!
