//! A dispatcher owns a disjoint group of components and drives them in a
//! simple round-robin: one polling pass gives each component one chance to
//! drain its inputs, fire its callbacks and acknowledge.
//!
//! The driver interleaves dispatcher passes with the manager's drain loop,
//! so components make progress while the manager waits for quiescence.

use crate::component::{
    lemma_poll_transition_refl, lemma_poll_transition_trans, poll_transition, AnyComponent,
    Component,
};
use crate::sim_manager::SimManager;
use vstd::prelude::*;

verus! {

/// A worker that hosts a partition of the components.
pub struct SimDispatcher {
    pub components: Vec<AnyComponent>,
}

impl SimDispatcher {
    pub fn new(components: Vec<AnyComponent>) -> (r: SimDispatcher)
        ensures
            r.components@.len() == components@.len(),
    {
        SimDispatcher { components }
    }

    /// Run each owned component's one-time setup, then reset it, before the
    /// simulation starts.
    pub fn init(&mut self, mgr: &mut SimManager)
        requires
            old(mgr).wf(),
        ensures
            final(mgr).wf(),
            final(mgr)@.cycle == old(mgr)@.cycle,
            final(mgr)@.heap == old(mgr)@.heap,
            final(mgr)@.rob == old(mgr)@.rob,
            final(mgr)@.processed == old(mgr)@.processed,
            final(mgr)@.next_id == old(mgr)@.next_id,
            old(mgr)@.subs.is_prefix_of(final(mgr)@.subs),
    {
        let n = self.components.len();
        let mut i: usize = 0;
        while i < n
            invariant
                n == self.components@.len(),
                i <= n,
                mgr.wf(),
                mgr@.cycle == old(mgr)@.cycle,
                mgr@.heap == old(mgr)@.heap,
                mgr@.rob == old(mgr)@.rob,
                mgr@.processed == old(mgr)@.processed,
                mgr@.next_id == old(mgr)@.next_id,
                old(mgr)@.subs.is_prefix_of(mgr@.subs),
            decreases n - i,
        {
            let c = &mut self.components[i];
            c.init(mgr);
            c.reset();
            i += 1;
        }
    }

    /// One polling pass over the owned components.
    pub fn poll_components(&mut self, mgr: &mut SimManager)
        requires
            old(mgr).wf(),
        ensures
            final(mgr).wf(),
            poll_transition(old(mgr)@, final(mgr)@),
    {
        proof {
            lemma_poll_transition_refl(mgr@);
        }
        let n = self.components.len();
        let mut i: usize = 0;
        while i < n
            invariant
                n == self.components@.len(),
                i <= n,
                mgr.wf(),
                poll_transition(old(mgr)@, mgr@),
            decreases n - i,
        {
            let ghost mid = mgr@;
            let c = &mut self.components[i];
            c.poll_recv(mgr);
            proof {
                lemma_poll_transition_trans(old(mgr)@, mid, mgr@);
            }
            i += 1;
        }
    }
}

/// One polling pass over every dispatcher.
pub fn poll_all(dispatchers: &mut Vec<SimDispatcher>, mgr: &mut SimManager)
    requires
        old(mgr).wf(),
    ensures
        final(mgr).wf(),
        poll_transition(old(mgr)@, final(mgr)@),
        final(dispatchers)@.len() == old(dispatchers)@.len(),
{
    proof {
        lemma_poll_transition_refl(mgr@);
    }
    let n = dispatchers.len();
    let mut i: usize = 0;
    while i < n
        invariant
            n == dispatchers@.len(),
            i <= n,
            mgr.wf(),
            poll_transition(old(mgr)@, mgr@),
        decreases n - i,
    {
        let ghost mid = mgr@;
        let d = &mut dispatchers[i];
        d.poll_components(mgr);
        proof {
            lemma_poll_transition_trans(old(mgr)@, mid, mgr@);
        }
        i += 1;
    }
}

/// Run every dispatcher's setup pass.
pub fn init_all(dispatchers: &mut Vec<SimDispatcher>, mgr: &mut SimManager)
    requires
        old(mgr).wf(),
    ensures
        final(mgr).wf(),
        final(mgr)@.cycle == old(mgr)@.cycle,
        final(mgr)@.heap == old(mgr)@.heap,
        final(mgr)@.rob == old(mgr)@.rob,
        final(mgr)@.processed == old(mgr)@.processed,
        final(mgr)@.next_id == old(mgr)@.next_id,
        old(mgr)@.subs.is_prefix_of(final(mgr)@.subs),
        final(dispatchers)@.len() == old(dispatchers)@.len(),
{
    let n = dispatchers.len();
    let mut i: usize = 0;
    while i < n
        invariant
            n == dispatchers@.len(),
            i <= n,
            mgr.wf(),
            mgr@.cycle == old(mgr)@.cycle,
            mgr@.heap == old(mgr)@.heap,
            mgr@.rob == old(mgr)@.rob,
            mgr@.processed == old(mgr)@.processed,
            mgr@.next_id == old(mgr)@.next_id,
            old(mgr)@.subs.is_prefix_of(mgr@.subs),
        decreases n - i,
    {
        let d = &mut dispatchers[i];
        d.init(mgr);
        i += 1;
    }
}

} // verus!
