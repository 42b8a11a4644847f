//! The instruction register: it latches the fetched instruction word and
//! decodes it combinationally into every field the datapath consumes.

use crate::backend::event::{byte_event, send_byte, send_word, word_event};
use crate::channel::{new_channel, try_recv, try_send, ChannelPoll};
use crate::component::{
    lemma_poll_transition_emit, lemma_poll_transition_refl, lemma_poll_transition_trans,
    poll_transition, Component,
};
use crate::event::{get_inner, Payload, SimEvent};
use crate::isa::{
    b_imm_of, funct3_of, funct7_of, i_imm_of, j_imm_of, opcode_of, rd_of, rs1_of, rs2_of, s_imm_of,
    u_imm_of,
};
use crate::sim_manager::{SimManager, SimManagerView};
use crate::task::task_to;
use crate::types::{wrap_inc, ComponentId, EventId, Input, Output};
use crate::word::{byte8, sign_extend, unknown_byte, unknown_word, word32, Byte, Word};
use vstd::prelude::*;

verus! {

/// The instruction register.
pub struct IR {
    pub data_inner: Word,
    pub component_id: ComponentId,
    pub ack_sender: crossbeam_channel::Sender<EventId>,
    pub clock_sender: Output,
    pub clock_receiver: Input,
    pub load_receiver: Input,
    pub load: Byte,
    pub load_old: Byte,
    pub data_receiver: Input,
    pub data: Word,
    pub data_old: Word,
    pub funct3: Output,
    pub funct7: Output,
    pub opcode: Output,
    pub i_imm_alu_mux2: Output,
    pub i_imm_cmp_mux: Output,
    pub s_imm: Output,
    pub b_imm: Output,
    pub u_imm_alu_mux2: Output,
    pub u_imm_regfile_mux: Output,
    pub j_imm: Output,
    pub rs1: Output,
    pub rs2: Output,
    pub rd: Output,
}

impl IR {
    pub fn new(
        component_id: ComponentId,
        ack_sender: crossbeam_channel::Sender<EventId>,
        load_receiver: Input,
        data_receiver: Input,
        funct3: Output,
        funct7: Output,
        opcode: Output,
        i_imm_alu_mux2: Output,
        i_imm_cmp_mux: Output,
        s_imm: Output,
        b_imm: Output,
        u_imm_alu_mux2: Output,
        u_imm_regfile_mux: Output,
        j_imm: Output,
        rs1: Output,
        rs2: Output,
        rd: Output,
    ) -> (r: IR)
        ensures
            r.component_id == component_id,
            r.data_inner == unknown_word(),
    {
        let clock_channel = new_channel();
        IR {
            data_inner: Word::unknown(),
            component_id,
            ack_sender,
            clock_sender: clock_channel.0,
            clock_receiver: clock_channel.1,
            load_receiver,
            load: Byte::unknown(),
            load_old: Byte::unknown(),
            data_receiver,
            data: Word::unknown(),
            data_old: Word::unknown(),
            funct3,
            funct7,
            opcode,
            i_imm_alu_mux2,
            i_imm_cmp_mux,
            s_imm,
            b_imm,
            u_imm_alu_mux2,
            u_imm_regfile_mux,
            j_imm,
            rs1,
            rs2,
            rd,
        }
    }

    pub fn init_impl(&mut self, mgr: &mut SimManager)
        requires
            old(mgr).wf(),
        ensures
            final(mgr).wf(),
            final(mgr)@ == old(mgr)@,
            *final(self) == *old(self),
    {
    }

    pub fn reset_impl(&mut self)
        ensures
            *final(self) == *old(self),
    {
    }

    pub fn poll_impl(&mut self)
        ensures
            *final(self) == *old(self),
    {
    }

    /// On a tick: latch the input when the load line is driven high.
    pub fn on_clock(&mut self, mgr: &mut SimManager)
        requires
            old(mgr).wf(),
        ensures
            final(mgr).wf(),
            final(mgr)@ == old(mgr)@,
            poll_transition(old(mgr)@, final(mgr)@),
            old(self).load.is_known() && old(self).load.spec_u8() != 0 ==> final(self).data_inner
                == old(self).data,
            !(old(self).load.is_known() && old(self).load.spec_u8() != 0)
                ==> final(self).data_inner == old(self).data_inner,
            final(self).component_id == old(self).component_id,
            *final(self) == (IR { data_inner: final(self).data_inner, ..*old(self) }),
    {
        if self.load.is_something_nonzero() {
            self.data_inner = self.data;
        }
        proof {
            lemma_poll_transition_refl(mgr@);
        }
    }

    /// The destination register index held in the current instruction.
    pub fn get_rd_idx(&self) -> (r: Byte)
        ensures
            self.data_inner.is_known() ==> r == byte8(rd_of(self.data_inner.spec_u32())),
            !self.data_inner.is_known() ==> r == unknown_byte(),
    {
        match self.data_inner.to_u32() {
            Some(inst) => Byte::from(((inst >> 7u32) & 0x1f) as u8),
            None => Byte::unknown(),
        }
    }

    /// Whether the held instruction is one of the two halt markers.
    pub fn can_end(&self) -> (r: bool)
        ensures
            r == (self.data_inner == word32(0xf000_2013u32) || self.data_inner == word32(
                0x0000_0063u32,
            )),
    {
        proof {
            crate::word::lemma_word32_value(0xf000_2013u32);
            crate::word::lemma_word32_value(0x0000_0063u32);
        }
        self.data_inner == Word::from(0xf000_2013u32) || self.data_inner == Word::from(
            0x0000_0063u32,
        )
    }

    /// When an instruction is held, decode and emit every field: the
    /// function fields and register indexes as bytes, the immediates
    /// sign-extended as words.
    pub fn on_comb(&mut self, mgr: &mut SimManager)
        requires
            old(mgr).wf(),
        ensures
            final(mgr).wf(),
            *final(self) == *old(self),
            poll_transition(old(mgr)@, final(mgr)@),
ir_reg_emission(*old(self), old(mgr)@, final(mgr)@),
    {
        proof {
            lemma_poll_transition_refl(mgr@);
        }
        match self.data_inner.to_u32() {
            Some(inst) => {
                let funct3_v = Byte::from(((inst >> 12u32) & 0b111) as u8);
                let funct7_v = Byte::from(((inst >> 25u32) & 0x7f) as u8);
                let opcode_v = Byte::from((inst & 0x7f) as u8);
                let i_imm_v = sign_extend(inst >> 20u32, 11);
                let s_imm_v = sign_extend(
                    (((inst >> 25u32) & 0x7f) << 5u32) | ((inst >> 7u32) & 0x1f),
                    11,
                );
                let b_imm_v = sign_extend(
                    (((inst >> 31u32) & 0b1) << 12u32) | (((inst >> 7u32) & 0b1) << 11u32) | (((
                    inst >> 25u32) & 0x3f) << 5u32) | (((inst >> 8u32) & 0xf) << 1u32),
                    12,
                );
                let u_imm_v = Word::from(((inst >> 12u32) & 0xfffff) << 12u32);
                let j_imm_v = sign_extend(
                    (((inst >> 31u32) & 0b1) << 20u32) | (((inst >> 12u32) & 0xff) << 12u32) | (((
                    inst >> 20u32) & 0b1) << 11u32) | (((inst >> 21u32) & 0x3ff) << 1u32),
                    20,
                );
                let rs1_v = Byte::from(((inst >> 15u32) & 0x1f) as u8);
                let rs2_v = Byte::from(((inst >> 20u32) & 0x1f) as u8);
                let rd_v = Byte::from(((inst >> 7u32) & 0x1f) as u8);
                let ghost v0 = mgr@;
                send_byte(mgr, &self.funct3, funct3_v);
                proof {
                    lemma_poll_transition_emit(v0, mgr@, task_to(self.funct3, byte_event(v0.next_id, v0.cycle, funct3_v)));
                }
                let ghost v1 = mgr@;
                send_byte(mgr, &self.funct7, funct7_v);
                proof {
                    lemma_poll_transition_emit(v1, mgr@, task_to(self.funct7, byte_event(v1.next_id, v1.cycle, funct7_v)));
                    lemma_poll_transition_trans(v0, v1, mgr@);
                }
                let ghost v2 = mgr@;
                send_byte(mgr, &self.opcode, opcode_v);
                proof {
                    lemma_poll_transition_emit(v2, mgr@, task_to(self.opcode, byte_event(v2.next_id, v2.cycle, opcode_v)));
                    lemma_poll_transition_trans(v0, v2, mgr@);
                }
                let ghost v3 = mgr@;
                send_word(mgr, &self.i_imm_alu_mux2, i_imm_v);
                proof {
                    lemma_poll_transition_emit(v3, mgr@, task_to(self.i_imm_alu_mux2, word_event(v3.next_id, v3.cycle, i_imm_v)));
                    lemma_poll_transition_trans(v0, v3, mgr@);
                }
                let ghost v4 = mgr@;
                send_word(mgr, &self.i_imm_cmp_mux, i_imm_v);
                proof {
                    lemma_poll_transition_emit(v4, mgr@, task_to(self.i_imm_cmp_mux, word_event(v4.next_id, v4.cycle, i_imm_v)));
                    lemma_poll_transition_trans(v0, v4, mgr@);
                }
                let ghost v5 = mgr@;
                send_word(mgr, &self.s_imm, s_imm_v);
                proof {
                    lemma_poll_transition_emit(v5, mgr@, task_to(self.s_imm, word_event(v5.next_id, v5.cycle, s_imm_v)));
                    lemma_poll_transition_trans(v0, v5, mgr@);
                }
                let ghost v6 = mgr@;
                send_word(mgr, &self.b_imm, b_imm_v);
                proof {
                    lemma_poll_transition_emit(v6, mgr@, task_to(self.b_imm, word_event(v6.next_id, v6.cycle, b_imm_v)));
                    lemma_poll_transition_trans(v0, v6, mgr@);
                }
                let ghost v7 = mgr@;
                send_word(mgr, &self.u_imm_alu_mux2, u_imm_v);
                proof {
                    lemma_poll_transition_emit(v7, mgr@, task_to(self.u_imm_alu_mux2, word_event(v7.next_id, v7.cycle, u_imm_v)));
                    lemma_poll_transition_trans(v0, v7, mgr@);
                }
                let ghost v8 = mgr@;
                send_word(mgr, &self.u_imm_regfile_mux, u_imm_v);
                proof {
                    lemma_poll_transition_emit(v8, mgr@, task_to(self.u_imm_regfile_mux, word_event(v8.next_id, v8.cycle, u_imm_v)));
                    lemma_poll_transition_trans(v0, v8, mgr@);
                }
                let ghost v9 = mgr@;
                send_word(mgr, &self.j_imm, j_imm_v);
                proof {
                    lemma_poll_transition_emit(v9, mgr@, task_to(self.j_imm, word_event(v9.next_id, v9.cycle, j_imm_v)));
                    lemma_poll_transition_trans(v0, v9, mgr@);
                }
                let ghost v10 = mgr@;
                send_byte(mgr, &self.rs1, rs1_v);
                proof {
                    lemma_poll_transition_emit(v10, mgr@, task_to(self.rs1, byte_event(v10.next_id, v10.cycle, rs1_v)));
                    lemma_poll_transition_trans(v0, v10, mgr@);
                }
                let ghost v11 = mgr@;
                send_byte(mgr, &self.rs2, rs2_v);
                proof {
                    lemma_poll_transition_emit(v11, mgr@, task_to(self.rs2, byte_event(v11.next_id, v11.cycle, rs2_v)));
                    lemma_poll_transition_trans(v0, v11, mgr@);
                }
                let ghost v12 = mgr@;
                send_byte(mgr, &self.rd, rd_v);
                proof {
                    lemma_poll_transition_emit(v12, mgr@, task_to(self.rd, byte_event(v12.next_id, v12.cycle, rd_v)));
                    lemma_poll_transition_trans(v0, v12, mgr@);
                }
            },
            None => {},
        }
    }
    /// Take one event received on the `load` port: decode the payload
    /// into the port slot, fire the combinational callback exactly when
    /// the value changed, sync the previous-value slot, and acknowledge.
    pub fn handle_load(&mut self, mgr: &mut SimManager, event: SimEvent)
        requires
            old(mgr).wf(),
        ensures
            final(mgr).wf(),
            poll_transition(old(mgr)@, final(mgr)@),
            polled_ir_reg_load(*old(self), *final(self), old(mgr)@, final(mgr)@, Some(event)),
    {
        match get_inner(&event) {
            Payload::Byte(v) => {
                self.load = v;
            },
            _ => {},
        }
        if !(self.load == self.load_old) {
            self.on_comb(mgr);
        } else {
            proof {
                lemma_poll_transition_refl(mgr@);
            }
        }
        self.load_old = self.load;
        let _ = try_send(&self.ack_sender, event.event_id);
    }

    /// Take one event received on the `data` port: decode the payload
    /// into the port slot, fire the combinational callback exactly when
    /// the value changed, sync the previous-value slot, and acknowledge.
    pub fn handle_data(&mut self, mgr: &mut SimManager, event: SimEvent)
        requires
            old(mgr).wf(),
        ensures
            final(mgr).wf(),
            poll_transition(old(mgr)@, final(mgr)@),
            polled_ir_reg_data(*old(self), *final(self), old(mgr)@, final(mgr)@, Some(event)),
    {
        match get_inner(&event) {
            Payload::Word(v) => {
                self.data = v;
            },
            _ => {},
        }
        if !(self.data == self.data_old) {
            self.on_comb(mgr);
        } else {
            proof {
                lemma_poll_transition_refl(mgr@);
            }
        }
        self.data_old = self.data;
        let _ = try_send(&self.ack_sender, event.event_id);
    }

    /// Take one clock event: run the clocked callback, then the
    /// combinational callback, then acknowledge.
    pub fn handle_clock(&mut self, mgr: &mut SimManager, event: SimEvent)
        requires
            old(mgr).wf(),
        ensures
            final(mgr).wf(),
            poll_transition(old(mgr)@, final(mgr)@),
            polled_ir_reg_clock(*old(self), *final(self), old(mgr)@, final(mgr)@, Some(event)),
    {
        let ghost m0 = mgr@;
        self.on_clock(mgr);
        let ghost m1 = mgr@;
        self.on_comb(mgr);
        proof {
            lemma_poll_transition_trans(m0, m1, mgr@);
        }
        let _ = try_send(&self.ack_sender, event.event_id);
    }
}

/// The combinational callback's exact effect on the manager.
pub open spec fn ir_reg_emission(c: IR, pre: SimManagerView, post: SimManagerView) -> bool {
    &&& !c.data_inner.is_known() ==> post == pre
    &&& c.data_inner.is_known() ==> {
                let inst = c.data_inner.spec_u32();
                &&& post == pre.with_heap(post.heap).with_next_id(wrap_inc(wrap_inc(wrap_inc(wrap_inc(wrap_inc(wrap_inc(wrap_inc(wrap_inc(wrap_inc(wrap_inc(wrap_inc(wrap_inc(wrap_inc(pre.next_id))))))))))))))
                &&& post.heap.to_multiset() == pre.heap.to_multiset().insert(
                    task_to(c.funct3, byte_event(pre.next_id, pre.cycle, byte8(funct3_of(inst)))),
                ).insert(
                    task_to(c.funct7, byte_event(wrap_inc(pre.next_id), pre.cycle, byte8(funct7_of(inst)))),
                ).insert(
                    task_to(c.opcode, byte_event(wrap_inc(wrap_inc(pre.next_id)), pre.cycle, byte8(opcode_of(inst)))),
                ).insert(
                    task_to(c.i_imm_alu_mux2, word_event(wrap_inc(wrap_inc(wrap_inc(pre.next_id))), pre.cycle, word32(i_imm_of(inst)))),
                ).insert(
                    task_to(c.i_imm_cmp_mux, word_event(wrap_inc(wrap_inc(wrap_inc(wrap_inc(pre.next_id)))), pre.cycle, word32(i_imm_of(inst)))),
                ).insert(
                    task_to(c.s_imm, word_event(wrap_inc(wrap_inc(wrap_inc(wrap_inc(wrap_inc(pre.next_id))))), pre.cycle, word32(s_imm_of(inst)))),
                ).insert(
                    task_to(c.b_imm, word_event(wrap_inc(wrap_inc(wrap_inc(wrap_inc(wrap_inc(wrap_inc(pre.next_id)))))), pre.cycle, word32(b_imm_of(inst)))),
                ).insert(
                    task_to(c.u_imm_alu_mux2, word_event(wrap_inc(wrap_inc(wrap_inc(wrap_inc(wrap_inc(wrap_inc(wrap_inc(pre.next_id))))))), pre.cycle, word32(u_imm_of(inst)))),
                ).insert(
                    task_to(c.u_imm_regfile_mux, word_event(wrap_inc(wrap_inc(wrap_inc(wrap_inc(wrap_inc(wrap_inc(wrap_inc(wrap_inc(pre.next_id)))))))), pre.cycle, word32(u_imm_of(inst)))),
                ).insert(
                    task_to(c.j_imm, word_event(wrap_inc(wrap_inc(wrap_inc(wrap_inc(wrap_inc(wrap_inc(wrap_inc(wrap_inc(wrap_inc(pre.next_id))))))))), pre.cycle, word32(j_imm_of(inst)))),
                ).insert(
                    task_to(c.rs1, byte_event(wrap_inc(wrap_inc(wrap_inc(wrap_inc(wrap_inc(wrap_inc(wrap_inc(wrap_inc(wrap_inc(wrap_inc(pre.next_id)))))))))), pre.cycle, byte8(rs1_of(inst)))),
                ).insert(
                    task_to(c.rs2, byte_event(wrap_inc(wrap_inc(wrap_inc(wrap_inc(wrap_inc(wrap_inc(wrap_inc(wrap_inc(wrap_inc(wrap_inc(wrap_inc(pre.next_id))))))))))), pre.cycle, byte8(rs2_of(inst)))),
                ).insert(
                    task_to(c.rd, byte_event(wrap_inc(wrap_inc(wrap_inc(wrap_inc(wrap_inc(wrap_inc(wrap_inc(wrap_inc(wrap_inc(wrap_inc(wrap_inc(wrap_inc(pre.next_id)))))))))))), pre.cycle, byte8(rd_of(inst)))),
                )
            }
}

/// What taking one event on the `load` port leaves behind: with no
/// event, nothing; with one, the decoded payload in the port slot (any
/// other payload kind leaves the slot as it was), the previous-value slot
/// synced, and the combinational callback's emission exactly when the
/// observed value changed.
pub open spec fn polled_ir_reg_load(
    pre: IR,
    post: IR,
    pre_m: SimManagerView,
    post_m: SimManagerView,
    polled: Option<SimEvent>,
) -> bool {
    match polled {
        None => post == pre && post_m == pre_m,
        Some(e) => {
            &&& post == (IR { load: post.load, load_old: post.load, ..pre })
            &&& post.load == (match e.payload {
                Payload::Byte(v) => v,
                _ => pre.load,
            })
            &&& (post.load != pre.load_old ==> ir_reg_emission(post, pre_m, post_m))
            &&& (post.load == pre.load_old ==> post_m == pre_m)
        },
    }
}

/// What taking one event on the `data` port leaves behind: with no
/// event, nothing; with one, the decoded payload in the port slot (any
/// other payload kind leaves the slot as it was), the previous-value slot
/// synced, and the combinational callback's emission exactly when the
/// observed value changed.
pub open spec fn polled_ir_reg_data(
    pre: IR,
    post: IR,
    pre_m: SimManagerView,
    post_m: SimManagerView,
    polled: Option<SimEvent>,
) -> bool {
    match polled {
        None => post == pre && post_m == pre_m,
        Some(e) => {
            &&& post == (IR { data: post.data, data_old: post.data, ..pre })
            &&& post.data == (match e.payload {
                Payload::Word(v) => v,
                _ => pre.data,
            })
            &&& (post.data != pre.data_old ==> ir_reg_emission(post, pre_m, post_m))
            &&& (post.data == pre.data_old ==> post_m == pre_m)
        },
    }
}

/// What taking one clock event leaves behind: the clocked callback's
/// effect, then the combinational callback's, then the acknowledgement.
pub open spec fn polled_ir_reg_clock(
    pre: IR,
    post: IR,
    pre_m: SimManagerView,
    post_m: SimManagerView,
    polled: Option<SimEvent>,
) -> bool {
    match polled {
        None => post == pre && post_m == pre_m,
        Some(e) => {
            &&& post == (IR { data_inner: (if pre.load.is_known() && pre.load.spec_u8() != 0 {
                pre.data
            } else {
                pre.data_inner
            }), ..pre })
            &&& ir_reg_emission(post, pre_m, post_m)
        },
    }
}

impl Component for IR {
    fn get_component_id(&self) -> ComponentId {
        self.component_id
    }

    fn init(&mut self, mgr: &mut SimManager)
        ensures
            final(mgr)@ == old(mgr)@.with_subs(old(mgr)@.subs.push(old(self).clock_sender)),
    {
        self.init_impl(mgr);
        mgr.register_clock_tick(crate::channel::clone_sender(&self.clock_sender));
    }

    fn reset(&mut self) {
        self.reset_impl();
    }

    fn poll_recv(&mut self, mgr: &mut SimManager)
        ensures
            exists|po_clock: Option<SimEvent>, po_load: Option<SimEvent>, po_data: Option<SimEvent>, cs1: IR, cs2: IR, mv1: SimManagerView, mv2: SimManagerView|
                #![trigger polled_ir_reg_clock(*old(self), cs1, old(mgr)@, mv1, po_clock), polled_ir_reg_load(cs1, cs2, mv1, mv2, po_load), polled_ir_reg_data(cs2, *final(self), mv2, final(mgr)@, po_data)]
                {
                    &&& polled_ir_reg_clock(*old(self), cs1, old(mgr)@, mv1, po_clock)
                    &&& polled_ir_reg_load(cs1, cs2, mv1, mv2, po_load)
                    &&& polled_ir_reg_data(cs2, *final(self), mv2, final(mgr)@, po_data)
                },
    {
        self.poll_impl();
        let ghost w0s = *self;
        let ghost w0m = mgr@;
        let ghost mut po_clock: Option<SimEvent> = None;
        match try_recv(&self.clock_receiver) {
            ChannelPoll::Item(event) => {
                proof {
                    po_clock = Some(event);
                }
                self.handle_clock(mgr, event);
            },
            _ => {},
        }
        proof {
            lemma_poll_transition_refl(mgr@);
            lemma_poll_transition_trans(old(mgr)@, w0m, mgr@);
        }
        let ghost w1s = *self;
        let ghost w1m = mgr@;
        let ghost mut po_load: Option<SimEvent> = None;
        match try_recv(&self.load_receiver) {
            ChannelPoll::Item(event) => {
                proof {
                    po_load = Some(event);
                }
                self.handle_load(mgr, event);
            },
            _ => {},
        }
        proof {
            lemma_poll_transition_refl(mgr@);
            lemma_poll_transition_trans(old(mgr)@, w1m, mgr@);
        }
        let ghost w2s = *self;
        let ghost w2m = mgr@;
        let ghost mut po_data: Option<SimEvent> = None;
        match try_recv(&self.data_receiver) {
            ChannelPoll::Item(event) => {
                proof {
                    po_data = Some(event);
                }
                self.handle_data(mgr, event);
            },
            _ => {},
        }
        proof {
            lemma_poll_transition_refl(mgr@);
            lemma_poll_transition_trans(old(mgr)@, w2m, mgr@);
        }
        proof {
            assert(polled_ir_reg_clock(w0s, w1s, w0m, w1m, po_clock));
            assert(polled_ir_reg_load(w1s, w2s, w1m, w2m, po_load));
            assert(polled_ir_reg_data(w2s, *self, w2m, mgr@, po_data));
        }
    }
}

} // verus!
