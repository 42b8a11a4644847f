//! Scalar identifier types used throughout the kernel.

use vstd::prelude::*;

verus! {

/// Simulated time, measured in clock cycles since reset.
pub type Cycle = u128;

/// Globally unique identifier of an event within one run.
pub type EventId = u128;

/// Stable identifier of a hosted component, assigned by the embedder.
pub type ComponentId = u128;

/// The receiving end of an event link, polled by the owning component.
pub type Input = crossbeam_channel::Receiver<crate::event::SimEvent>;

/// The sending end of an event link, held by whoever delivers into it.
pub type Output = crossbeam_channel::Sender<crate::event::SimEvent>;

/// Successor of a counter value, wrapping at the top of the 128-bit range
/// as the executable increment does in release builds.
pub open spec fn wrap_inc(x: u128) -> u128 {
    if x == u128::MAX {
        0
    } else {
        (x + 1) as u128
    }
}

/// Increment a 128-bit counter, wrapping on overflow.
pub fn counter_inc(x: u128) -> (r: u128)
    ensures
        r == wrap_inc(x),
{
    if x == u128::MAX {
        0
    } else {
        x + 1
    }
}

/// A cycle a fixed number of cycles into the future. Saturation is
/// unreachable in any real run; it only keeps the operation total.
pub open spec fn cycle_later(base: u128, delta: u128) -> u128 {
    if base + delta <= u128::MAX {
        (base + delta) as u128
    } else {
        base
    }
}

/// Compute a cycle a fixed number of cycles into the future.
pub fn cycle_add(base: u128, delta: u128) -> (r: u128)
    ensures
        r == cycle_later(base, delta),
        r >= base,
{
    if base <= u128::MAX - delta {
        base + delta
    } else {
        base
    }
}

/// A counter value advanced `k` times, wrapping at the top of the 128-bit
/// range.
pub open spec fn wrap_add(x: u128, k: int) -> u128 {
    ((x + k) % (u128::MAX + 1)) as u128
}

/// Advancing a counter one step at a time agrees with advancing it by a sum.
pub proof fn lemma_wrap_add_inc(x: u128, k: int)
    requires
        k >= 0,
    ensures
        wrap_inc(wrap_add(x, k)) == wrap_add(x, k + 1),
{
    let m = u128::MAX + 1;
    let y = wrap_add(x, k);
    assert(0 <= (x + k) % m < m) by {
        vstd::arithmetic::div_mod::lemma_mod_bound(x + k, m);
    }
    assert((x + k + 1) % m == ((x + k) % m + 1) % m) by {
        vstd::arithmetic::div_mod::lemma_add_mod_noop(x + k, 1, m);
        vstd::arithmetic::div_mod::lemma_small_mod(1, m as nat);
    }
    if y == u128::MAX {
        assert((y + 1) % m == 0) by {
            vstd::arithmetic::div_mod::lemma_mod_self_0(m);
        }
    } else {
        assert((y + 1) % m == y + 1) by {
            vstd::arithmetic::div_mod::lemma_small_mod((y + 1) as nat, m as nat);
        }
    }
}

} // verus!
