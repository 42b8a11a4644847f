//! The contract every hosted component implements, and the closed set of
//! component kinds a dispatcher can host.
//!
//! A component owns its input ports (a receiver, a current value and a
//! previous value per port) and its output endpoints. Its per-tick work is
//! `poll_recv`: receive pending events without blocking, decode them into
//! port values, fire the combinational callback when a value changed, and
//! acknowledge each received event. A component with a clock port handles a
//! tick by running its clocked callback, then its combinational callback,
//! then acknowledging.

use crate::sim_manager::{SimManager, SimManagerView};
use crate::task::Task;
use crate::types::ComponentId;
use vstd::prelude::*;

verus! {

/// What one polling pass may do to the manager: time, the reorder buffer,
/// the processed count and the subscriber list stay put; the heap can only
/// gain events, and only events scheduled at or after the current cycle.
pub open spec fn poll_transition(pre: SimManagerView, post: SimManagerView) -> bool {
    &&& post.cycle == pre.cycle
    &&& post.rob == pre.rob
    &&& post.processed == pre.processed
    &&& post.subs == pre.subs
    &&& pre.heap.to_multiset().subset_of(post.heap.to_multiset())
    &&& forall|t: Task|
        post.heap.to_multiset().count(t) > pre.heap.to_multiset().count(t)
            ==> t.event.scheduled_time >= pre.cycle
}

/// A manager left alone satisfies the polling transition.
pub proof fn lemma_poll_transition_refl(v: SimManagerView)
    ensures
        poll_transition(v, v),
{
    broadcast use vstd::multiset::group_multiset_axioms;

}

/// Polling transitions compose.
pub proof fn lemma_poll_transition_trans(a: SimManagerView, b: SimManagerView, c: SimManagerView)
    requires
        poll_transition(a, b),
        poll_transition(b, c),
    ensures
        poll_transition(a, c),
{
    broadcast use vstd::multiset::group_multiset_axioms;

}

/// Emitting one event scheduled no earlier than the current cycle is a
/// polling transition.
pub proof fn lemma_poll_transition_emit(pre: SimManagerView, post: SimManagerView, t: Task)
    requires
        post.heap.to_multiset() == pre.heap.to_multiset().insert(t),
        t.event.scheduled_time >= pre.cycle,
        post.cycle == pre.cycle,
        post.rob == pre.rob,
        post.processed == pre.processed,
        post.subs == pre.subs,
    ensures
        poll_transition(pre, post),
{
    broadcast use vstd::multiset::group_multiset_axioms;

}

/// The contract a component must meet to be dispatchable.
pub trait Component: Sized {
    /// The component's stable identity, used for termination voting.
    fn get_component_id(&self) -> ComponentId;

    /// One-time setup before the simulation starts: a clocked component
    /// subscribes to clock ticks here, and a primary component registers its
    /// do-not-end vote. Nothing is scheduled and nothing acknowledged.
    fn init(&mut self, mgr: &mut SimManager)
        requires
            old(mgr).wf(),
        ensures
            final(mgr).wf(),
            final(mgr)@.cycle == old(mgr)@.cycle,
            final(mgr)@.heap == old(mgr)@.heap,
            final(mgr)@.rob == old(mgr)@.rob,
            final(mgr)@.processed == old(mgr)@.processed,
            final(mgr)@.next_id == old(mgr)@.next_id,
            old(mgr)@.subs.is_prefix_of(final(mgr)@.subs),
    ;

    /// Return the component's internal state to its default.
    fn reset(&mut self);

    /// The per-tick work function: drain the component's input ports
    /// without blocking, fire callbacks on changed values, acknowledge
    /// every received event.
    fn poll_recv(&mut self, mgr: &mut SimManager)
        requires
            old(mgr).wf(),
        ensures
            final(mgr).wf(),
            poll_transition(old(mgr)@, final(mgr)@),
    ;
}

/// The component kinds this library ships. A dispatcher owns a vector of
/// these; an embedder extends the simulator by adding a kind here.
pub enum AnyComponent {
    Link(crate::simple_component::simple_link::SimpleLink),
    Loopback(crate::simple_component::simple_loopback::SimpleLoopback),
    Receiver(crate::simple_component::simple_receiver::SimpleReceiver),
    Sender(crate::simple_component::simple_sender::SimpleSender),
    Blackhole(crate::backend::blackhole::WordBlackhole),
    Alu(crate::backend::alu::Alu),
    AluMux1(crate::backend::alu::AluMux1),
    AluMux2(crate::backend::alu::AluMux2),
    Cmp(crate::backend::cmp::Cmp),
    CmpMux(crate::backend::cmp::CmpMux),
    Control(crate::backend::control::Control),
    DataOut(crate::backend::data_out::DataOut),
    Ir(crate::backend::ir::IR),
    Mar(crate::backend::mar::Mar),
    MarMux(crate::backend::mar::MarMux),
    Mdr(crate::backend::mdr::Mdr),
    MemCtl(crate::backend::mem_ctl::MemCtl),
    Pc(crate::backend::pc::Pc),
    PcMux(crate::backend::pc::PcMux),
    RegFile(crate::backend::regfile::RegFile),
    RegFileMux(crate::backend::regfile::RegFileMux),
}

impl Component for AnyComponent {
    fn get_component_id(&self) -> ComponentId {
        match self {
            AnyComponent::Link(c) => c.get_component_id(),
            AnyComponent::Loopback(c) => c.get_component_id(),
            AnyComponent::Receiver(c) => c.get_component_id(),
            AnyComponent::Sender(c) => c.get_component_id(),
            AnyComponent::Blackhole(c) => c.get_component_id(),
            AnyComponent::Alu(c) => c.get_component_id(),
            AnyComponent::AluMux1(c) => c.get_component_id(),
            AnyComponent::AluMux2(c) => c.get_component_id(),
            AnyComponent::Cmp(c) => c.get_component_id(),
            AnyComponent::CmpMux(c) => c.get_component_id(),
            AnyComponent::Control(c) => c.get_component_id(),
            AnyComponent::DataOut(c) => c.get_component_id(),
            AnyComponent::Ir(c) => c.get_component_id(),
            AnyComponent::Mar(c) => c.get_component_id(),
            AnyComponent::MarMux(c) => c.get_component_id(),
            AnyComponent::Mdr(c) => c.get_component_id(),
            AnyComponent::MemCtl(c) => c.get_component_id(),
            AnyComponent::Pc(c) => c.get_component_id(),
            AnyComponent::PcMux(c) => c.get_component_id(),
            AnyComponent::RegFile(c) => c.get_component_id(),
            AnyComponent::RegFileMux(c) => c.get_component_id(),
        }
    }

    fn init(&mut self, mgr: &mut SimManager)
        ensures
            match *old(self) {
                AnyComponent::Link(c) => final(mgr)@ == old(mgr)@,
                AnyComponent::Loopback(c) => final(mgr)@ == old(mgr)@.with_votes(
                    old(mgr)@.votes.insert(c.component_id),
                ).with_subs(old(mgr)@.subs.push(c.clock_sender)),
                AnyComponent::Receiver(c) => final(mgr)@ == old(mgr)@.with_votes(
                    old(mgr)@.votes.insert(c.component_id),
                ),
                AnyComponent::Sender(c) => final(mgr)@ == old(mgr)@.with_votes(
                    old(mgr)@.votes.insert(c.component_id),
                ).with_subs(old(mgr)@.subs.push(c.clock_sender)),
                AnyComponent::Blackhole(c) => final(mgr)@ == old(mgr)@,
                AnyComponent::Alu(c) => final(mgr)@ == old(mgr)@,
                AnyComponent::AluMux1(c) => final(mgr)@ == old(mgr)@,
                AnyComponent::AluMux2(c) => final(mgr)@ == old(mgr)@,
                AnyComponent::Cmp(c) => final(mgr)@ == old(mgr)@,
                AnyComponent::CmpMux(c) => final(mgr)@ == old(mgr)@,
                AnyComponent::Control(c) => final(mgr)@ == old(mgr)@.with_subs(
                    old(mgr)@.subs.push(c.clock_sender),
                ),
                AnyComponent::DataOut(c) => final(mgr)@ == old(mgr)@.with_subs(
                    old(mgr)@.subs.push(c.clock_sender),
                ),
                AnyComponent::Ir(c) => final(mgr)@ == old(mgr)@.with_subs(
                    old(mgr)@.subs.push(c.clock_sender),
                ),
                AnyComponent::Mar(c) => final(mgr)@ == old(mgr)@.with_subs(
                    old(mgr)@.subs.push(c.clock_sender),
                ),
                AnyComponent::MarMux(c) => final(mgr)@ == old(mgr)@,
                AnyComponent::Mdr(c) => final(mgr)@ == old(mgr)@.with_subs(
                    old(mgr)@.subs.push(c.clock_sender),
                ),
                AnyComponent::MemCtl(c) => final(mgr)@ == old(mgr)@.with_subs(
                    old(mgr)@.subs.push(c.clock_sender),
                ),
                AnyComponent::Pc(c) => final(mgr)@ == old(mgr)@.with_subs(
                    old(mgr)@.subs.push(c.clock_sender),
                ),
                AnyComponent::PcMux(c) => final(mgr)@ == old(mgr)@,
                AnyComponent::RegFile(c) => final(mgr)@ == old(mgr)@.with_subs(
                    old(mgr)@.subs.push(c.clock_sender),
                ),
                AnyComponent::RegFileMux(c) => final(mgr)@ == old(mgr)@,
            },
    {
        match self {
            AnyComponent::Link(c) => c.init(mgr),
            AnyComponent::Loopback(c) => c.init(mgr),
            AnyComponent::Receiver(c) => c.init(mgr),
            AnyComponent::Sender(c) => c.init(mgr),
            AnyComponent::Blackhole(c) => c.init(mgr),
            AnyComponent::Alu(c) => c.init(mgr),
            AnyComponent::AluMux1(c) => c.init(mgr),
            AnyComponent::AluMux2(c) => c.init(mgr),
            AnyComponent::Cmp(c) => c.init(mgr),
            AnyComponent::CmpMux(c) => c.init(mgr),
            AnyComponent::Control(c) => c.init(mgr),
            AnyComponent::DataOut(c) => c.init(mgr),
            AnyComponent::Ir(c) => c.init(mgr),
            AnyComponent::Mar(c) => c.init(mgr),
            AnyComponent::MarMux(c) => c.init(mgr),
            AnyComponent::Mdr(c) => c.init(mgr),
            AnyComponent::MemCtl(c) => c.init(mgr),
            AnyComponent::Pc(c) => c.init(mgr),
            AnyComponent::PcMux(c) => c.init(mgr),
            AnyComponent::RegFile(c) => c.init(mgr),
            AnyComponent::RegFileMux(c) => c.init(mgr),
        }
    }

    fn reset(&mut self) {
        match self {
            AnyComponent::Link(c) => c.reset(),
            AnyComponent::Loopback(c) => c.reset(),
            AnyComponent::Receiver(c) => c.reset(),
            AnyComponent::Sender(c) => c.reset(),
            AnyComponent::Blackhole(c) => c.reset(),
            AnyComponent::Alu(c) => c.reset(),
            AnyComponent::AluMux1(c) => c.reset(),
            AnyComponent::AluMux2(c) => c.reset(),
            AnyComponent::Cmp(c) => c.reset(),
            AnyComponent::CmpMux(c) => c.reset(),
            AnyComponent::Control(c) => c.reset(),
            AnyComponent::DataOut(c) => c.reset(),
            AnyComponent::Ir(c) => c.reset(),
            AnyComponent::Mar(c) => c.reset(),
            AnyComponent::MarMux(c) => c.reset(),
            AnyComponent::Mdr(c) => c.reset(),
            AnyComponent::MemCtl(c) => c.reset(),
            AnyComponent::Pc(c) => c.reset(),
            AnyComponent::PcMux(c) => c.reset(),
            AnyComponent::RegFile(c) => c.reset(),
            AnyComponent::RegFileMux(c) => c.reset(),
        }
    }

    fn poll_recv(&mut self, mgr: &mut SimManager) {
        match self {
            AnyComponent::Link(c) => c.poll_recv(mgr),
            AnyComponent::Loopback(c) => c.poll_recv(mgr),
            AnyComponent::Receiver(c) => c.poll_recv(mgr),
            AnyComponent::Sender(c) => c.poll_recv(mgr),
            AnyComponent::Blackhole(c) => c.poll_recv(mgr),
            AnyComponent::Alu(c) => c.poll_recv(mgr),
            AnyComponent::AluMux1(c) => c.poll_recv(mgr),
            AnyComponent::AluMux2(c) => c.poll_recv(mgr),
            AnyComponent::Cmp(c) => c.poll_recv(mgr),
            AnyComponent::CmpMux(c) => c.poll_recv(mgr),
            AnyComponent::Control(c) => c.poll_recv(mgr),
            AnyComponent::DataOut(c) => c.poll_recv(mgr),
            AnyComponent::Ir(c) => c.poll_recv(mgr),
            AnyComponent::Mar(c) => c.poll_recv(mgr),
            AnyComponent::MarMux(c) => c.poll_recv(mgr),
            AnyComponent::Mdr(c) => c.poll_recv(mgr),
            AnyComponent::MemCtl(c) => c.poll_recv(mgr),
            AnyComponent::Pc(c) => c.poll_recv(mgr),
            AnyComponent::PcMux(c) => c.poll_recv(mgr),
            AnyComponent::RegFile(c) => c.poll_recv(mgr),
            AnyComponent::RegFileMux(c) => c.poll_recv(mgr),
        }
    }
}

} // verus!
