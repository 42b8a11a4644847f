//! The memory controller component: a single-cycle backing store that
//! serves the CPU's read and write requests on clock edges.

use crate::backend::event::{byte_event, send_byte, send_word, word_event};
use crate::channel::{new_channel, try_recv, try_send, ChannelPoll};
use crate::component::{
    lemma_poll_transition_emit, lemma_poll_transition_refl, lemma_poll_transition_trans,
    poll_transition, Component,
};
use crate::event::{get_inner, Payload, SimEvent};
use crate::mem::{mem_read4, mem_write4, MemStore};
use crate::sim_manager::{SimManager, SimManagerView};
use crate::task::task_to;
use crate::types::{wrap_inc, ComponentId, EventId, Input, Output};
use crate::word::{byte8, unknown_word, Byte, Word};
use vstd::prelude::*;

verus! {

/// The memory controller: on each tick it serves at most one request, a
/// write taking precedence over a read, and reports completion on its
/// response port.
pub struct MemCtl {
    pub backend_mem: MemStore,
    pub is_busy: bool,
    pub component_id: ComponentId,
    pub ack_sender: crossbeam_channel::Sender<EventId>,
    pub clock_sender: Output,
    pub clock_receiver: Input,
    pub cpu_addr_receiver: Input,
    pub cpu_addr: Word,
    pub cpu_addr_old: Word,
    pub cpu_wdata_receiver: Input,
    pub cpu_wdata: Word,
    pub cpu_wdata_old: Word,
    pub cpu_read_en_receiver: Input,
    pub cpu_read_en: Byte,
    pub cpu_read_en_old: Byte,
    pub cpu_rmask_receiver: Input,
    pub cpu_rmask: Byte,
    pub cpu_rmask_old: Byte,
    pub cpu_write_en_receiver: Input,
    pub cpu_write_en: Byte,
    pub cpu_write_en_old: Byte,
    pub cpu_wmask_receiver: Input,
    pub cpu_wmask: Byte,
    pub cpu_wmask_old: Byte,
    pub cpu_rdata: Output,
    pub cpu_resp: Output,
}

impl MemCtl {
    pub fn new(
        component_id: ComponentId,
        ack_sender: crossbeam_channel::Sender<EventId>,
        cpu_addr_receiver: Input,
        cpu_wdata_receiver: Input,
        cpu_read_en_receiver: Input,
        cpu_rmask_receiver: Input,
        cpu_write_en_receiver: Input,
        cpu_wmask_receiver: Input,
        cpu_rdata: Output,
        cpu_resp: Output,
    ) -> (r: MemCtl)
        ensures
            r.component_id == component_id,
            r.backend_mem@ == Map::<u64, Byte>::empty(),
            !r.is_busy,
    {
        let clock_channel = new_channel();
        MemCtl {
            backend_mem: MemStore::new(),
            is_busy: false,
            component_id,
            ack_sender,
            clock_sender: clock_channel.0,
            clock_receiver: clock_channel.1,
            cpu_addr_receiver,
            cpu_addr: Word::unknown(),
            cpu_addr_old: Word::unknown(),
            cpu_wdata_receiver,
            cpu_wdata: Word::unknown(),
            cpu_wdata_old: Word::unknown(),
            cpu_read_en_receiver,
            cpu_read_en: Byte::unknown(),
            cpu_read_en_old: Byte::unknown(),
            cpu_rmask_receiver,
            cpu_rmask: Byte::unknown(),
            cpu_rmask_old: Byte::unknown(),
            cpu_write_en_receiver,
            cpu_write_en: Byte::unknown(),
            cpu_write_en_old: Byte::unknown(),
            cpu_wmask_receiver,
            cpu_wmask: Byte::unknown(),
            cpu_wmask_old: Byte::unknown(),
            cpu_rdata,
            cpu_resp,
        }
    }

    pub fn init_impl(&mut self, mgr: &mut SimManager)
        requires
            old(mgr).wf(),
        ensures
            final(mgr).wf(),
            final(mgr)@ == old(mgr)@,
            *final(self) == *old(self),
    {
    }

    pub fn reset_impl(&mut self)
        ensures
            *final(self) == *old(self),
    {
    }

    pub fn poll_impl(&mut self)
        ensures
            *final(self) == *old(self),
    {
    }

    /// Serve the pending request, if any: a write commits the masked
    /// data bytes and acknowledges with response 1; a read returns the
    /// masked word and acknowledges with response 1; with no request the
    /// response line is driven 0.
    pub fn on_clock(&mut self, mgr: &mut SimManager)
        requires
            old(mgr).wf(),
        ensures
            final(mgr).wf(),
            poll_transition(old(mgr)@, final(mgr)@),
            final(self).component_id == old(self).component_id,
            final(self).is_busy == old(self).is_busy,
            *final(self) == (MemCtl { backend_mem: final(self).backend_mem, ..*old(self) }),
            old(self).is_busy ==> final(mgr)@ == old(mgr)@ && final(self).backend_mem@ == old(self).backend_mem@,
            !old(self).is_busy && wr_req(*old(self)) ==> {
                &&& final(self).backend_mem@ == (match old(self).cpu_wmask.v {
                    Some(m) => mem_write4(
                        old(self).backend_mem@,
                        old(self).cpu_addr,
                        m,
                        old(self).cpu_wdata,
                    ),
                    None => old(self).backend_mem@,
                })
                &&& final(mgr)@ == old(mgr)@.with_heap(final(mgr)@.heap).with_next_id(
                    wrap_inc(old(mgr)@.next_id),
                )
                &&& final(mgr)@.heap.to_multiset() == old(mgr)@.heap.to_multiset().insert(
                    task_to(old(self).cpu_resp, byte_event(old(mgr)@.next_id, old(mgr)@.cycle, byte8(1))),
                )
            },
            !old(self).is_busy && !wr_req(*old(self)) && rd_req(*old(self)) ==> {
                &&& final(self).backend_mem@ == old(self).backend_mem@
                &&& final(mgr)@ == old(mgr)@.with_heap(final(mgr)@.heap).with_next_id(
                    wrap_inc(wrap_inc(old(mgr)@.next_id)),
                )
                &&& final(mgr)@.heap.to_multiset() == old(mgr)@.heap.to_multiset().insert(
                    task_to(old(self).cpu_rdata, word_event(old(mgr)@.next_id, old(mgr)@.cycle, rd_word(*old(self)))),
                ).insert(
                    task_to(old(self).cpu_resp, byte_event(wrap_inc(old(mgr)@.next_id), old(mgr)@.cycle, byte8(1))),
                )
            },
            !old(self).is_busy && !wr_req(*old(self)) && !rd_req(*old(self)) ==> {
                &&& final(self).backend_mem@ == old(self).backend_mem@
                &&& final(mgr)@ == old(mgr)@.with_heap(final(mgr)@.heap).with_next_id(
                    wrap_inc(old(mgr)@.next_id),
                )
                &&& final(mgr)@.heap.to_multiset() == old(mgr)@.heap.to_multiset().insert(
                    task_to(old(self).cpu_resp, byte_event(old(mgr)@.next_id, old(mgr)@.cycle, byte8(0))),
                )
            },
    {
        proof {
            lemma_poll_transition_refl(mgr@);
        }
        if !self.is_busy {
            if self.cpu_write_en.is_something_nonzero() {
                match self.cpu_wmask.to_u8() {
                    Some(wmask) => {
                        self.backend_mem.write_masked(&self.cpu_addr, wmask, &self.cpu_wdata);
                    },
                    None => {},
                }
                let ghost v0 = mgr@;
                send_byte(mgr, &self.cpu_resp, Byte::from(1u8));
                proof {
                    lemma_poll_transition_emit(
                        v0,
                        mgr@,
                        task_to(self.cpu_resp, byte_event(v0.next_id, v0.cycle, byte8(1))),
                    );
                }
            } else if self.cpu_read_en.is_something_nonzero() {
                let ret = match self.cpu_rmask.to_u8() {
                    Some(rmask) => self.backend_mem.read_masked(&self.cpu_addr, rmask),
                    None => Word::unknown(),
                };
                let ghost v0 = mgr@;
                send_word(mgr, &self.cpu_rdata, ret);
                proof {
                    lemma_poll_transition_emit(
                        v0,
                        mgr@,
                        task_to(self.cpu_rdata, word_event(v0.next_id, v0.cycle, ret)),
                    );
                }
                let ghost v1 = mgr@;
                send_byte(mgr, &self.cpu_resp, Byte::from(1u8));
                proof {
                    lemma_poll_transition_emit(
                        v1,
                        mgr@,
                        task_to(self.cpu_resp, byte_event(v1.next_id, v1.cycle, byte8(1))),
                    );
                    lemma_poll_transition_trans(v0, v1, mgr@);
                }
            } else {
                let ghost v0 = mgr@;
                send_byte(mgr, &self.cpu_resp, Byte::from(0u8));
                proof {
                    lemma_poll_transition_emit(
                        v0,
                        mgr@,
                        task_to(self.cpu_resp, byte_event(v0.next_id, v0.cycle, byte8(0))),
                    );
                }
            }
        }
    }

    /// The datapath is purely clocked here; arrival alone does nothing.
    pub fn on_comb(&mut self, mgr: &mut SimManager)
        requires
            old(mgr).wf(),
        ensures
            final(mgr).wf(),
            final(mgr)@ == old(mgr)@,
            *final(self) == *old(self),
    {
    }

    /// Preload a binary image byte by byte, starting at the given address.
    pub fn load_bin(&mut self, data: &Vec<u8>, addr: Word)
        ensures
            final(self).backend_mem@ == loaded_image(
                old(self).backend_mem@,
                data@,
                addr,
                data@.len() as int,
            ),
            final(self).component_id == old(self).component_id,
            final(self).is_busy == old(self).is_busy,
            *final(self) == (MemCtl { backend_mem: final(self).backend_mem, ..*old(self) }),
    {
        let ghost pre = self.backend_mem@;
        let n = data.len();
        let mut i: usize = 0;
        while i < n
            invariant
                i <= n,
                n == data@.len(),
                self.backend_mem@ == loaded_image(pre, data@, addr, i as int),
                *self == (MemCtl { backend_mem: self.backend_mem, ..*old(self) }),
            decreases n - i,
        {
            let step = addr.add(Word::from(i as u32));
            proof {
                crate::word::lemma_word32_value(i as u32);
            }
            self.backend_mem.store_byte(&step, Byte::from(data[i]));
            i += 1;
        }
    }

    /// Take one event received on the `cpu_addr` port: decode the payload
    /// into the port slot, fire the combinational callback exactly when
    /// the value changed, sync the previous-value slot, and acknowledge.
    pub fn handle_cpu_addr(&mut self, mgr: &mut SimManager, event: SimEvent)
        requires
            old(mgr).wf(),
        ensures
            final(mgr).wf(),
            poll_transition(old(mgr)@, final(mgr)@),
            polled_mem_ctl_cpu_addr(*old(self), *final(self), old(mgr)@, final(mgr)@, Some(event)),
    {
        match get_inner(&event) {
            Payload::Word(v) => {
                self.cpu_addr = v;
            },
            _ => {},
        }
        if !(self.cpu_addr == self.cpu_addr_old) {
            self.on_comb(mgr);
        } else {
            proof {
                lemma_poll_transition_refl(mgr@);
            }
        }
        self.cpu_addr_old = self.cpu_addr;
        let _ = try_send(&self.ack_sender, event.event_id);
    }

    /// Take one event received on the `cpu_wdata` port: decode the payload
    /// into the port slot, fire the combinational callback exactly when
    /// the value changed, sync the previous-value slot, and acknowledge.
    pub fn handle_cpu_wdata(&mut self, mgr: &mut SimManager, event: SimEvent)
        requires
            old(mgr).wf(),
        ensures
            final(mgr).wf(),
            poll_transition(old(mgr)@, final(mgr)@),
            polled_mem_ctl_cpu_wdata(*old(self), *final(self), old(mgr)@, final(mgr)@, Some(event)),
    {
        match get_inner(&event) {
            Payload::Word(v) => {
                self.cpu_wdata = v;
            },
            _ => {},
        }
        if !(self.cpu_wdata == self.cpu_wdata_old) {
            self.on_comb(mgr);
        } else {
            proof {
                lemma_poll_transition_refl(mgr@);
            }
        }
        self.cpu_wdata_old = self.cpu_wdata;
        let _ = try_send(&self.ack_sender, event.event_id);
    }

    /// Take one event received on the `cpu_read_en` port: decode the payload
    /// into the port slot, fire the combinational callback exactly when
    /// the value changed, sync the previous-value slot, and acknowledge.
    pub fn handle_cpu_read_en(&mut self, mgr: &mut SimManager, event: SimEvent)
        requires
            old(mgr).wf(),
        ensures
            final(mgr).wf(),
            poll_transition(old(mgr)@, final(mgr)@),
            polled_mem_ctl_cpu_read_en(
                *old(self),
                *final(self),
                old(mgr)@,
                final(mgr)@,
                Some(event),
            ),
    {
        match get_inner(&event) {
            Payload::Byte(v) => {
                self.cpu_read_en = v;
            },
            _ => {},
        }
        if !(self.cpu_read_en == self.cpu_read_en_old) {
            self.on_comb(mgr);
        } else {
            proof {
                lemma_poll_transition_refl(mgr@);
            }
        }
        self.cpu_read_en_old = self.cpu_read_en;
        let _ = try_send(&self.ack_sender, event.event_id);
    }

    /// Take one event received on the `cpu_rmask` port: decode the payload
    /// into the port slot, fire the combinational callback exactly when
    /// the value changed, sync the previous-value slot, and acknowledge.
    pub fn handle_cpu_rmask(&mut self, mgr: &mut SimManager, event: SimEvent)
        requires
            old(mgr).wf(),
        ensures
            final(mgr).wf(),
            poll_transition(old(mgr)@, final(mgr)@),
            polled_mem_ctl_cpu_rmask(*old(self), *final(self), old(mgr)@, final(mgr)@, Some(event)),
    {
        match get_inner(&event) {
            Payload::Byte(v) => {
                self.cpu_rmask = v;
            },
            _ => {},
        }
        if !(self.cpu_rmask == self.cpu_rmask_old) {
            self.on_comb(mgr);
        } else {
            proof {
                lemma_poll_transition_refl(mgr@);
            }
        }
        self.cpu_rmask_old = self.cpu_rmask;
        let _ = try_send(&self.ack_sender, event.event_id);
    }

    /// Take one event received on the `cpu_write_en` port: decode the payload
    /// into the port slot, fire the combinational callback exactly when
    /// the value changed, sync the previous-value slot, and acknowledge.
    pub fn handle_cpu_write_en(&mut self, mgr: &mut SimManager, event: SimEvent)
        requires
            old(mgr).wf(),
        ensures
            final(mgr).wf(),
            poll_transition(old(mgr)@, final(mgr)@),
            polled_mem_ctl_cpu_write_en(
                *old(self),
                *final(self),
                old(mgr)@,
                final(mgr)@,
                Some(event),
            ),
    {
        match get_inner(&event) {
            Payload::Byte(v) => {
                self.cpu_write_en = v;
            },
            _ => {},
        }
        if !(self.cpu_write_en == self.cpu_write_en_old) {
            self.on_comb(mgr);
        } else {
            proof {
                lemma_poll_transition_refl(mgr@);
            }
        }
        self.cpu_write_en_old = self.cpu_write_en;
        let _ = try_send(&self.ack_sender, event.event_id);
    }

    /// Take one event received on the `cpu_wmask` port: decode the payload
    /// into the port slot, fire the combinational callback exactly when
    /// the value changed, sync the previous-value slot, and acknowledge.
    pub fn handle_cpu_wmask(&mut self, mgr: &mut SimManager, event: SimEvent)
        requires
            old(mgr).wf(),
        ensures
            final(mgr).wf(),
            poll_transition(old(mgr)@, final(mgr)@),
            polled_mem_ctl_cpu_wmask(*old(self), *final(self), old(mgr)@, final(mgr)@, Some(event)),
    {
        match get_inner(&event) {
            Payload::Byte(v) => {
                self.cpu_wmask = v;
            },
            _ => {},
        }
        if !(self.cpu_wmask == self.cpu_wmask_old) {
            self.on_comb(mgr);
        } else {
            proof {
                lemma_poll_transition_refl(mgr@);
            }
        }
        self.cpu_wmask_old = self.cpu_wmask;
        let _ = try_send(&self.ack_sender, event.event_id);
    }

    /// Take one clock event: run the clocked callback, then the
    /// combinational callback, then acknowledge.
    pub fn handle_clock(&mut self, mgr: &mut SimManager, event: SimEvent)
        requires
            old(mgr).wf(),
        ensures
            final(mgr).wf(),
            poll_transition(old(mgr)@, final(mgr)@),
            polled_mem_ctl_clock(*old(self), *final(self), old(mgr)@, final(mgr)@, Some(event)),
    {
        let ghost m0 = mgr@;
        self.on_clock(mgr);
        let ghost m1 = mgr@;
        self.on_comb(mgr);
        proof {
            lemma_poll_transition_trans(m0, m1, mgr@);
        }
        let _ = try_send(&self.ack_sender, event.event_id);
    }
}

/// Whether a write request is pending on the ports.
pub open spec fn wr_req(c: MemCtl) -> bool {
    c.cpu_write_en.is_known() && c.cpu_write_en.spec_u8() != 0
}

/// Whether a read request is pending on the ports.
pub open spec fn rd_req(c: MemCtl) -> bool {
    c.cpu_read_en.is_known() && c.cpu_read_en.spec_u8() != 0
}

/// The word a pending read yields.
pub open spec fn rd_word(c: MemCtl) -> Word {
    match c.cpu_rmask.v {
        Some(m) => mem_read4(c.backend_mem@, c.cpu_addr, m),
        None => unknown_word(),
    }
}

/// A store after the first `n` bytes of an image have been loaded at
/// consecutive addresses.
pub open spec fn loaded_image(
    m: Map<u64, Byte>,
    data: Seq<u8>,
    addr: Word,
    n: int,
) -> Map<u64, Byte>
    decreases n,
{
    if n <= 0 {
        m
    } else {
        loaded_image(m, data, addr, n - 1).insert(
            crate::mem::word_key(crate::mem::addr_plus(addr, (n - 1) as u32)),
            byte8(data[n - 1]),
        )
    }

}

/// The combinational callback's exact effect on the manager: none.
pub open spec fn mem_ctl_emission(c: MemCtl, pre: SimManagerView, post: SimManagerView) -> bool {
    post == pre
}

/// The clocked callback's exact effect: serve the pending request.
pub open spec fn memctl_tick(pre: MemCtl, post: MemCtl, pre_m: SimManagerView, post_m: SimManagerView) -> bool {
    &&& pre.is_busy ==> post_m == pre_m && post.backend_mem@ == pre.backend_mem@
    &&& !pre.is_busy && wr_req(pre) ==> {
                &&& post.backend_mem@ == (match pre.cpu_wmask.v {
                    Some(m) => mem_write4(
                        pre.backend_mem@,
                        pre.cpu_addr,
                        m,
                        pre.cpu_wdata,
                    ),
                    None => pre.backend_mem@,
                })
                &&& post_m == pre_m.with_heap(post_m.heap).with_next_id(
                    wrap_inc(pre_m.next_id),
                )
                &&& post_m.heap.to_multiset() == pre_m.heap.to_multiset().insert(
                    task_to(pre.cpu_resp, byte_event(pre_m.next_id, pre_m.cycle, byte8(1))),
                )
            }
    &&& !pre.is_busy && !wr_req(pre) && rd_req(pre) ==> {
                &&& post.backend_mem@ == pre.backend_mem@
                &&& post_m == pre_m.with_heap(post_m.heap).with_next_id(
                    wrap_inc(wrap_inc(pre_m.next_id)),
                )
                &&& post_m.heap.to_multiset() == pre_m.heap.to_multiset().insert(
                    task_to(pre.cpu_rdata, word_event(pre_m.next_id, pre_m.cycle, rd_word(pre))),
                ).insert(
                    task_to(pre.cpu_resp, byte_event(wrap_inc(pre_m.next_id), pre_m.cycle, byte8(1))),
                )
            }
    &&& !pre.is_busy && !wr_req(pre) && !rd_req(pre) ==> {
                &&& post.backend_mem@ == pre.backend_mem@
                &&& post_m == pre_m.with_heap(post_m.heap).with_next_id(
                    wrap_inc(pre_m.next_id),
                )
                &&& post_m.heap.to_multiset() == pre_m.heap.to_multiset().insert(
                    task_to(pre.cpu_resp, byte_event(pre_m.next_id, pre_m.cycle, byte8(0))),
                )
            }
}

/// What taking one event on the `cpu_addr` port leaves behind: with no
/// event, nothing; with one, the decoded payload in the port slot (any
/// other payload kind leaves the slot as it was), the previous-value slot
/// synced, and the combinational callback's emission exactly when the
/// observed value changed.
pub open spec fn polled_mem_ctl_cpu_addr(
    pre: MemCtl,
    post: MemCtl,
    pre_m: SimManagerView,
    post_m: SimManagerView,
    polled: Option<SimEvent>,
) -> bool {
    match polled {
        None => post == pre && post_m == pre_m,
        Some(e) => {
            &&& post == (MemCtl { cpu_addr: post.cpu_addr, cpu_addr_old: post.cpu_addr, ..pre })
            &&& post.cpu_addr == (match e.payload {
                Payload::Word(v) => v,
                _ => pre.cpu_addr,
            })
            &&& (post.cpu_addr != pre.cpu_addr_old ==> mem_ctl_emission(post, pre_m, post_m))
            &&& (post.cpu_addr == pre.cpu_addr_old ==> post_m == pre_m)
        },
    }
}

/// What taking one event on the `cpu_wdata` port leaves behind: with no
/// event, nothing; with one, the decoded payload in the port slot (any
/// other payload kind leaves the slot as it was), the previous-value slot
/// synced, and the combinational callback's emission exactly when the
/// observed value changed.
pub open spec fn polled_mem_ctl_cpu_wdata(
    pre: MemCtl,
    post: MemCtl,
    pre_m: SimManagerView,
    post_m: SimManagerView,
    polled: Option<SimEvent>,
) -> bool {
    match polled {
        None => post == pre && post_m == pre_m,
        Some(e) => {
            &&& post == (MemCtl { cpu_wdata: post.cpu_wdata, cpu_wdata_old: post.cpu_wdata, ..pre })
            &&& post.cpu_wdata == (match e.payload {
                Payload::Word(v) => v,
                _ => pre.cpu_wdata,
            })
            &&& (post.cpu_wdata != pre.cpu_wdata_old ==> mem_ctl_emission(post, pre_m, post_m))
            &&& (post.cpu_wdata == pre.cpu_wdata_old ==> post_m == pre_m)
        },
    }
}

/// What taking one event on the `cpu_read_en` port leaves behind: with no
/// event, nothing; with one, the decoded payload in the port slot (any
/// other payload kind leaves the slot as it was), the previous-value slot
/// synced, and the combinational callback's emission exactly when the
/// observed value changed.
pub open spec fn polled_mem_ctl_cpu_read_en(
    pre: MemCtl,
    post: MemCtl,
    pre_m: SimManagerView,
    post_m: SimManagerView,
    polled: Option<SimEvent>,
) -> bool {
    match polled {
        None => post == pre && post_m == pre_m,
        Some(e) => {
            &&& post == (MemCtl { cpu_read_en: post.cpu_read_en, cpu_read_en_old: post.cpu_read_en, ..pre })
            &&& post.cpu_read_en == (match e.payload {
                Payload::Byte(v) => v,
                _ => pre.cpu_read_en,
            })
            &&& (post.cpu_read_en != pre.cpu_read_en_old ==> mem_ctl_emission(post, pre_m, post_m))
            &&& (post.cpu_read_en == pre.cpu_read_en_old ==> post_m == pre_m)
        },
    }
}

/// What taking one event on the `cpu_rmask` port leaves behind: with no
/// event, nothing; with one, the decoded payload in the port slot (any
/// other payload kind leaves the slot as it was), the previous-value slot
/// synced, and the combinational callback's emission exactly when the
/// observed value changed.
pub open spec fn polled_mem_ctl_cpu_rmask(
    pre: MemCtl,
    post: MemCtl,
    pre_m: SimManagerView,
    post_m: SimManagerView,
    polled: Option<SimEvent>,
) -> bool {
    match polled {
        None => post == pre && post_m == pre_m,
        Some(e) => {
            &&& post == (MemCtl { cpu_rmask: post.cpu_rmask, cpu_rmask_old: post.cpu_rmask, ..pre })
            &&& post.cpu_rmask == (match e.payload {
                Payload::Byte(v) => v,
                _ => pre.cpu_rmask,
            })
            &&& (post.cpu_rmask != pre.cpu_rmask_old ==> mem_ctl_emission(post, pre_m, post_m))
            &&& (post.cpu_rmask == pre.cpu_rmask_old ==> post_m == pre_m)
        },
    }
}

/// What taking one event on the `cpu_write_en` port leaves behind: with no
/// event, nothing; with one, the decoded payload in the port slot (any
/// other payload kind leaves the slot as it was), the previous-value slot
/// synced, and the combinational callback's emission exactly when the
/// observed value changed.
pub open spec fn polled_mem_ctl_cpu_write_en(
    pre: MemCtl,
    post: MemCtl,
    pre_m: SimManagerView,
    post_m: SimManagerView,
    polled: Option<SimEvent>,
) -> bool {
    match polled {
        None => post == pre && post_m == pre_m,
        Some(e) => {
            &&& post == (MemCtl { cpu_write_en: post.cpu_write_en, cpu_write_en_old: post.cpu_write_en, ..pre })
            &&& post.cpu_write_en == (match e.payload {
                Payload::Byte(v) => v,
                _ => pre.cpu_write_en,
            })
            &&& (post.cpu_write_en != pre.cpu_write_en_old ==> mem_ctl_emission(post, pre_m, post_m))
            &&& (post.cpu_write_en == pre.cpu_write_en_old ==> post_m == pre_m)
        },
    }
}

/// What taking one event on the `cpu_wmask` port leaves behind: with no
/// event, nothing; with one, the decoded payload in the port slot (any
/// other payload kind leaves the slot as it was), the previous-value slot
/// synced, and the combinational callback's emission exactly when the
/// observed value changed.
pub open spec fn polled_mem_ctl_cpu_wmask(
    pre: MemCtl,
    post: MemCtl,
    pre_m: SimManagerView,
    post_m: SimManagerView,
    polled: Option<SimEvent>,
) -> bool {
    match polled {
        None => post == pre && post_m == pre_m,
        Some(e) => {
            &&& post == (MemCtl { cpu_wmask: post.cpu_wmask, cpu_wmask_old: post.cpu_wmask, ..pre })
            &&& post.cpu_wmask == (match e.payload {
                Payload::Byte(v) => v,
                _ => pre.cpu_wmask,
            })
            &&& (post.cpu_wmask != pre.cpu_wmask_old ==> mem_ctl_emission(post, pre_m, post_m))
            &&& (post.cpu_wmask == pre.cpu_wmask_old ==> post_m == pre_m)
        },
    }
}

/// What taking one clock event leaves behind: the clocked callback's
/// effect, then the combinational callback's, then the acknowledgement.
pub open spec fn polled_mem_ctl_clock(
    pre: MemCtl,
    post: MemCtl,
    pre_m: SimManagerView,
    post_m: SimManagerView,
    polled: Option<SimEvent>,
) -> bool {
    match polled {
        None => post == pre && post_m == pre_m,
        Some(e) => {
            &&& post == (MemCtl { backend_mem: post.backend_mem, ..pre })
            &&& memctl_tick(pre, post, pre_m, post_m)
        },
    }
}

impl Component for MemCtl {
    fn get_component_id(&self) -> ComponentId {
        self.component_id
    }

    fn init(&mut self, mgr: &mut SimManager)
        ensures
            final(mgr)@ == old(mgr)@.with_subs(old(mgr)@.subs.push(old(self).clock_sender)),
    {
        self.init_impl(mgr);
        mgr.register_clock_tick(crate::channel::clone_sender(&self.clock_sender));
    }

    fn reset(&mut self) {
        self.reset_impl();
    }

    fn poll_recv(&mut self, mgr: &mut SimManager)
        ensures
            exists|po_clock: Option<SimEvent>, po_cpu_addr: Option<SimEvent>, po_cpu_wdata: Option<SimEvent>, po_cpu_read_en: Option<SimEvent>, po_cpu_rmask: Option<SimEvent>, po_cpu_write_en: Option<SimEvent>, po_cpu_wmask: Option<SimEvent>, cs1: MemCtl, cs2: MemCtl, cs3: MemCtl, cs4: MemCtl, cs5: MemCtl, cs6: MemCtl, mv1: SimManagerView, mv2: SimManagerView, mv3: SimManagerView, mv4: SimManagerView, mv5: SimManagerView, mv6: SimManagerView|
                #![trigger polled_mem_ctl_clock(*old(self), cs1, old(mgr)@, mv1, po_clock), polled_mem_ctl_cpu_addr(cs1, cs2, mv1, mv2, po_cpu_addr), polled_mem_ctl_cpu_wdata(cs2, cs3, mv2, mv3, po_cpu_wdata), polled_mem_ctl_cpu_read_en(cs3, cs4, mv3, mv4, po_cpu_read_en), polled_mem_ctl_cpu_rmask(cs4, cs5, mv4, mv5, po_cpu_rmask), polled_mem_ctl_cpu_write_en(cs5, cs6, mv5, mv6, po_cpu_write_en), polled_mem_ctl_cpu_wmask(cs6, *final(self), mv6, final(mgr)@, po_cpu_wmask)]
                {
                    &&& polled_mem_ctl_clock(*old(self), cs1, old(mgr)@, mv1, po_clock)
                    &&& polled_mem_ctl_cpu_addr(cs1, cs2, mv1, mv2, po_cpu_addr)
                    &&& polled_mem_ctl_cpu_wdata(cs2, cs3, mv2, mv3, po_cpu_wdata)
                    &&& polled_mem_ctl_cpu_read_en(cs3, cs4, mv3, mv4, po_cpu_read_en)
                    &&& polled_mem_ctl_cpu_rmask(cs4, cs5, mv4, mv5, po_cpu_rmask)
                    &&& polled_mem_ctl_cpu_write_en(cs5, cs6, mv5, mv6, po_cpu_write_en)
                    &&& polled_mem_ctl_cpu_wmask(cs6, *final(self), mv6, final(mgr)@, po_cpu_wmask)
                },
    {
        self.poll_impl();
        let ghost w0s = *self;
        let ghost w0m = mgr@;
        let ghost mut po_clock: Option<SimEvent> = None;
        match try_recv(&self.clock_receiver) {
            ChannelPoll::Item(event) => {
                proof {
                    po_clock = Some(event);
                }
                self.handle_clock(mgr, event);
            },
            _ => {},
        }
        proof {
            lemma_poll_transition_refl(mgr@);
            lemma_poll_transition_trans(old(mgr)@, w0m, mgr@);
        }
        let ghost w1s = *self;
        let ghost w1m = mgr@;
        let ghost mut po_cpu_addr: Option<SimEvent> = None;
        match try_recv(&self.cpu_addr_receiver) {
            ChannelPoll::Item(event) => {
                proof {
                    po_cpu_addr = Some(event);
                }
                self.handle_cpu_addr(mgr, event);
            },
            _ => {},
        }
        proof {
            lemma_poll_transition_refl(mgr@);
            lemma_poll_transition_trans(old(mgr)@, w1m, mgr@);
        }
        let ghost w2s = *self;
        let ghost w2m = mgr@;
        let ghost mut po_cpu_wdata: Option<SimEvent> = None;
        match try_recv(&self.cpu_wdata_receiver) {
            ChannelPoll::Item(event) => {
                proof {
                    po_cpu_wdata = Some(event);
                }
                self.handle_cpu_wdata(mgr, event);
            },
            _ => {},
        }
        proof {
            lemma_poll_transition_refl(mgr@);
            lemma_poll_transition_trans(old(mgr)@, w2m, mgr@);
        }
        let ghost w3s = *self;
        let ghost w3m = mgr@;
        let ghost mut po_cpu_read_en: Option<SimEvent> = None;
        match try_recv(&self.cpu_read_en_receiver) {
            ChannelPoll::Item(event) => {
                proof {
                    po_cpu_read_en = Some(event);
                }
                self.handle_cpu_read_en(mgr, event);
            },
            _ => {},
        }
        proof {
            lemma_poll_transition_refl(mgr@);
            lemma_poll_transition_trans(old(mgr)@, w3m, mgr@);
        }
        let ghost w4s = *self;
        let ghost w4m = mgr@;
        let ghost mut po_cpu_rmask: Option<SimEvent> = None;
        match try_recv(&self.cpu_rmask_receiver) {
            ChannelPoll::Item(event) => {
                proof {
                    po_cpu_rmask = Some(event);
                }
                self.handle_cpu_rmask(mgr, event);
            },
            _ => {},
        }
        proof {
            lemma_poll_transition_refl(mgr@);
            lemma_poll_transition_trans(old(mgr)@, w4m, mgr@);
        }
        let ghost w5s = *self;
        let ghost w5m = mgr@;
        let ghost mut po_cpu_write_en: Option<SimEvent> = None;
        match try_recv(&self.cpu_write_en_receiver) {
            ChannelPoll::Item(event) => {
                proof {
                    po_cpu_write_en = Some(event);
                }
                self.handle_cpu_write_en(mgr, event);
            },
            _ => {},
        }
        proof {
            lemma_poll_transition_refl(mgr@);
            lemma_poll_transition_trans(old(mgr)@, w5m, mgr@);
        }
        let ghost w6s = *self;
        let ghost w6m = mgr@;
        let ghost mut po_cpu_wmask: Option<SimEvent> = None;
        match try_recv(&self.cpu_wmask_receiver) {
            ChannelPoll::Item(event) => {
                proof {
                    po_cpu_wmask = Some(event);
                }
                self.handle_cpu_wmask(mgr, event);
            },
            _ => {},
        }
        proof {
            lemma_poll_transition_refl(mgr@);
            lemma_poll_transition_trans(old(mgr)@, w6m, mgr@);
        }
        proof {
            assert(polled_mem_ctl_clock(w0s, w1s, w0m, w1m, po_clock));
            assert(polled_mem_ctl_cpu_addr(w1s, w2s, w1m, w2m, po_cpu_addr));
            assert(polled_mem_ctl_cpu_wdata(w2s, w3s, w2m, w3m, po_cpu_wdata));
            assert(polled_mem_ctl_cpu_read_en(w3s, w4s, w3m, w4m, po_cpu_read_en));
            assert(polled_mem_ctl_cpu_rmask(w4s, w5s, w4m, w5m, po_cpu_rmask));
            assert(polled_mem_ctl_cpu_write_en(w5s, w6s, w5m, w6m, po_cpu_write_en));
            assert(polled_mem_ctl_cpu_wmask(w6s, *self, w6m, mgr@, po_cpu_wmask));
        }
    }
}

} // verus!
