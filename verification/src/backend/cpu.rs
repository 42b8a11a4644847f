//! The assembled multi-cycle core: every datapath component wired to its
//! links, partitioned across dispatchers, driven by the manager.

use crate::backend::alu::{Alu, AluMux1, AluMux2};
use crate::backend::cmp::{Cmp, CmpMux};
use crate::backend::control::Control;
use crate::backend::data_out::DataOut;
use crate::backend::ir::IR;
use crate::backend::mar::{Mar, MarMux};
use crate::backend::mdr::Mdr;
use crate::backend::mem_ctl::MemCtl;
use crate::backend::pc::{Pc, PcMux};
use crate::backend::regfile::{RegFile, RegFileMux};
use crate::channel::{clone_sender, new_channel};
use crate::component::AnyComponent;
use crate::error::SimError;
use crate::sim_dispatcher::{init_all, SimDispatcher};
use crate::sim_manager::SimManager;
use crate::types::EventId;
use crate::word::Word;
use vstd::prelude::*;

verus! {

/// A wrapper for all the components of one core, its manager and its
/// dispatchers.
pub struct Core {
    pub sim_manager: SimManager,
    pub dispatchers: Vec<SimDispatcher>,
    pub ack_sender: crossbeam_channel::Sender<EventId>,
}

impl Core {
    /// The core's invariant: its manager is well-formed.
    pub open spec fn wf(&self) -> bool {
        self.sim_manager.wf()
    }

    /// Drive the simulation one clock cycle forward, then settle all
    /// combinational activity at the new cycle: on success the clock moved
    /// exactly one cycle and the new cycle is quiescent; on any return the
    /// clock moved at most one cycle and the subscriber list is untouched.
    pub fn run_cycle(&mut self) -> (r: Result<(), SimError>)
        requires
            old(self).wf(),
        ensures
            final(self).wf(),
            final(self).sim_manager@.subs == old(self).sim_manager@.subs,
            final(self).sim_manager@.cycle == old(self).sim_manager@.cycle
                || final(self).sim_manager@.cycle == crate::types::wrap_inc(
                old(self).sim_manager@.cycle,
            ),
            r is Ok ==> final(self).sim_manager@.cycle == crate::types::wrap_inc(
                old(self).sim_manager@.cycle,
            ) && crate::sim_manager::quiescent(final(self).sim_manager@),
    {
        self.sim_manager.run_cycle(&mut self.dispatchers)?;
        self.sim_manager.run_cycle_end(&mut self.dispatchers)?;
        Ok(())
    }

    /// Whether the instruction register holds a halt marker.
    pub fn ir_can_end(&self) -> (r: bool) {
        let nd = self.dispatchers.len();
        let mut i: usize = 0;
        while i < nd
            invariant
                nd == self.dispatchers@.len(),
                i <= nd,
            decreases nd - i,
        {
            let d = &self.dispatchers[i];
            let nc = d.components.len();
            let mut j: usize = 0;
            while j < nc
                invariant
                    nc == d.components@.len(),
                    j <= nc,
                decreases nc - j,
            {
                match &d.components[j] {
                    AnyComponent::Ir(ir) => {
                        return ir.can_end();
                    },
                    _ => {},
                }
                j += 1;
            }
            i += 1;
        }
        false
    }

    /// The current program-counter value.
    pub fn pc_value(&self) -> (r: Word) {
        let nd = self.dispatchers.len();
        let mut i: usize = 0;
        while i < nd
            invariant
                nd == self.dispatchers@.len(),
                i <= nd,
            decreases nd - i,
        {
            let d = &self.dispatchers[i];
            let nc = d.components.len();
            let mut j: usize = 0;
            while j < nc
                invariant
                    nc == d.components@.len(),
                    j <= nc,
                decreases nc - j,
            {
                match &d.components[j] {
                    AnyComponent::Pc(pc) => {
                        return pc.data_inner;
                    },
                    _ => {},
                }
                j += 1;
            }
            i += 1;
        }
        Word::unknown()
    }

    /// Run cycles until the program counter moves or a halt marker is
    /// reached: one instruction. The subscriber list is untouched.
    pub fn run_instruction(&mut self) -> (r: Result<(), SimError>)
        requires
            old(self).wf(),
        ensures
            final(self).wf(),
            final(self).sim_manager@.subs == old(self).sim_manager@.subs,
    {
        let old_pc = self.pc_value();
        let mut fuel: u64 = crate::sim_manager::DRAIN_FUEL;
        while !self.ir_can_end() && old_pc == self.pc_value()
            invariant
                self.wf(),
                self.sim_manager@.subs == old(self).sim_manager@.subs,
            decreases fuel,
        {
            self.run_cycle()?;
            if fuel == 0 {
                return Err(SimError::Stalled);
            }
            fuel = fuel - 1;
        }
        Ok(())
    }

    /// Run instructions until the halt marker is reached. The subscriber
    /// list is untouched.
    pub fn run_end(&mut self) -> (r: Result<(), SimError>)
        requires
            old(self).wf(),
        ensures
            final(self).wf(),
            final(self).sim_manager@.subs == old(self).sim_manager@.subs,
    {
        let mut fuel: u64 = crate::sim_manager::DRAIN_FUEL;
        while !self.ir_can_end()
            invariant
                self.wf(),
                self.sim_manager@.subs == old(self).sim_manager@.subs,
            decreases fuel,
        {
            self.run_instruction()?;
            if fuel == 0 {
                return Err(SimError::Stalled);
            }
            fuel = fuel - 1;
        }
        Ok(())
    }

    /// Preload a binary image into the memory controller.
    pub fn load_bin(&mut self, data: &Vec<u8>, addr: Word)
        requires
            old(self).wf(),
        ensures
            final(self).wf(),
    {
        let nd = self.dispatchers.len();
        let mut i: usize = 0;
        while i < nd
            invariant
                nd == self.dispatchers@.len(),
                i <= nd,
                self.wf(),
                self.sim_manager == old(self).sim_manager,
            decreases nd - i,
        {
            let nc = self.dispatchers[i].components.len();
            let mut j: usize = 0;
            while j < nc
                invariant
                    nd == self.dispatchers@.len(),
                    i < self.dispatchers@.len(),
                    nc == self.dispatchers@[i as int].components@.len(),
                    j <= nc,
                    self.wf(),
                    self.sim_manager == old(self).sim_manager,
                decreases nc - j,
            {
                let c = &mut self.dispatchers[i].components[j];
                match c {
                    AnyComponent::MemCtl(m) => {
                        m.load_bin(data, addr);
                        return;
                    },
                    _ => {},
                }
                j += 1;
            }
            i += 1;
        }
    }

    /// Build a core: create every link, wire every component, partition
    /// the components over `threads_to_use` dispatchers, run their setup,
    /// and register the core's own do-not-end vote.
    pub fn new(threads_to_use: usize) -> (r: Core)
        requires
            threads_to_use >= 1,
        ensures
            r.wf(),
    {
        let ack_channel = new_channel();
        let mut sim_manager = SimManager::new(ack_channel.1);
        let ack_sender = ack_channel.0;

        let control_alu_aluop = new_channel();
        let control_alumux1_sel = new_channel();
        let control_alumux2_sel = new_channel();
        let control_cmp_op = new_channel();
        let control_mar_load = new_channel();
        let control_mdr_load = new_channel();
        let control_pc_load = new_channel();
        let control_ir_load = new_channel();
        let control_regfile_load = new_channel();
        let control_dataout_load = new_channel();
        let control_pcmux_sel = new_channel();
        let control_regfilemux_sel = new_channel();
        let control_marmux_sel = new_channel();
        let control_cmpmux_sel = new_channel();
        let control_memctl_memread = new_channel();
        let control_memctl_memwrite = new_channel();
        let control_memctl_memrmask = new_channel();
        let control_memctl_memwmask = new_channel();
        let ir_control_funct3 = new_channel();
        let ir_control_funct7 = new_channel();
        let ir_control_opcode = new_channel();
        let ir_regfile_rs1idx = new_channel();
        let ir_regfile_rs2idx = new_channel();
        let ir_regfile_rdidx = new_channel();
        let ir_alumux2_bimm = new_channel();
        let ir_alumux2_simm = new_channel();
        let ir_alumux2_jimm = new_channel();
        let ir_alumux2_iimm = new_channel();
        let ir_cmpmux_iimm = new_channel();
        let ir_alumux2_uimm = new_channel();
        let ir_regfilemux_uimm = new_channel();
        let cmpmux_cmp_b = new_channel();
        let cmp_control_out = new_channel();
        let cmp_regfilemux_out = new_channel();
        let regfilemux_regfile_rddata = new_channel();
        let regfile_alumux1_rs1data = new_channel();
        let regfile_cmp_rs1data = new_channel();
        let regfile_alumux2_rs2data = new_channel();
        let regfile_cmpmux_rs2data = new_channel();
        let regfile_dataout_rs2data = new_channel();
        let marmux_mar_data = new_channel();
        let mar_control_out = new_channel();
        let mar_regfilemux_out = new_channel();
        let mar_dataout_out = new_channel();
        let mar_memctl_out = new_channel();
        let mdr_ir_out = new_channel();
        let mdr_regfilemux_out = new_channel();
        let pcmux_pc_data = new_channel();
        let pc_alumux1_out = new_channel();
        let pc_pcmux_out = new_channel();
        let pc_marmux_out = new_channel();
        let pc_regfilemux_out = new_channel();
        let alumux1_alu_a = new_channel();
        let alumux2_alu_b = new_channel();
        let alu_pcmux_out = new_channel();
        let alu_marmux_out = new_channel();
        let alu_regfilemux_out = new_channel();
        let memctl_mdr_rdata = new_channel();
        let memctl_control_resp = new_channel();
        let dataout_memctl_data = new_channel();

        let mem_ctl = MemCtl::new(
            0,
            clone_sender(&ack_sender),
            mar_memctl_out.1,
            dataout_memctl_data.1,
            control_memctl_memread.1,
            control_memctl_memrmask.1,
            control_memctl_memwrite.1,
            control_memctl_memwmask.1,
            memctl_mdr_rdata.0,
            memctl_control_resp.0,
        );

        let control = Control::new(
            1,
            clone_sender(&ack_sender),
            ir_control_funct3.1,
            ir_control_funct7.1,
            cmp_control_out.1,
            ir_control_opcode.1,
            mar_control_out.1,
            memctl_control_resp.1,
            control_mar_load.0,
            control_mdr_load.0,
            control_pc_load.0,
            control_ir_load.0,
            control_regfile_load.0,
            control_dataout_load.0,
            control_alu_aluop.0,
            control_cmp_op.0,
            control_pcmux_sel.0,
            control_alumux1_sel.0,
            control_alumux2_sel.0,
            control_regfilemux_sel.0,
            control_marmux_sel.0,
            control_cmpmux_sel.0,
            control_memctl_memread.0,
            control_memctl_memwrite.0,
            control_memctl_memwmask.0,
            control_memctl_memrmask.0,
        );

        let ir = IR::new(
            2,
            clone_sender(&ack_sender),
            control_ir_load.1,
            mdr_ir_out.1,
            ir_control_funct3.0,
            ir_control_funct7.0,
            ir_control_opcode.0,
            ir_alumux2_iimm.0,
            ir_cmpmux_iimm.0,
            ir_alumux2_simm.0,
            ir_alumux2_bimm.0,
            ir_alumux2_uimm.0,
            ir_regfilemux_uimm.0,
            ir_alumux2_jimm.0,
            ir_regfile_rs1idx.0,
            ir_regfile_rs2idx.0,
            ir_regfile_rdidx.0,
        );

        let pc_mux = PcMux::new(
            3,
            clone_sender(&ack_sender),
            pc_pcmux_out.1,
            alu_pcmux_out.1,
            control_pcmux_sel.1,
            pcmux_pc_data.0,
        );

        let pc = Pc::new(
            4,
            clone_sender(&ack_sender),
            control_pc_load.1,
            pcmux_pc_data.1,
            pc_alumux1_out.0,
            pc_pcmux_out.0,
            pc_marmux_out.0,
            pc_regfilemux_out.0,
        );

        let mar_mux = MarMux::new(
            5,
            clone_sender(&ack_sender),
            pc_marmux_out.1,
            alu_marmux_out.1,
            control_marmux_sel.1,
            marmux_mar_data.0,
        );

        let mar = Mar::new(
            6,
            clone_sender(&ack_sender),
            control_mar_load.1,
            marmux_mar_data.1,
            mar_control_out.0,
            mar_regfilemux_out.0,
            mar_dataout_out.0,
            mar_memctl_out.0,
        );

        let mdr = Mdr::new(
            7,
            clone_sender(&ack_sender),
            control_mdr_load.1,
            memctl_mdr_rdata.1,
            mdr_ir_out.0,
            mdr_regfilemux_out.0,
        );

        let alu_mux1 = AluMux1::new(
            8,
            clone_sender(&ack_sender),
            regfile_alumux1_rs1data.1,
            pc_alumux1_out.1,
            control_alumux1_sel.1,
            alumux1_alu_a.0,
        );

        let alu_mux2 = AluMux2::new(
            9,
            clone_sender(&ack_sender),
            ir_alumux2_iimm.1,
            ir_alumux2_uimm.1,
            ir_alumux2_bimm.1,
            ir_alumux2_simm.1,
            ir_alumux2_jimm.1,
            regfile_alumux2_rs2data.1,
            control_alumux2_sel.1,
            alumux2_alu_b.0,
        );

        let alu = Alu::new(
            10,
            clone_sender(&ack_sender),
            alumux1_alu_a.1,
            alumux2_alu_b.1,
            control_alu_aluop.1,
            alu_pcmux_out.0,
            alu_marmux_out.0,
            alu_regfilemux_out.0,
        );

        let cmp_mux = CmpMux::new(
            11,
            clone_sender(&ack_sender),
            regfile_cmpmux_rs2data.1,
            ir_cmpmux_iimm.1,
            control_cmpmux_sel.1,
            cmpmux_cmp_b.0,
        );

        let cmp = Cmp::new(
            12,
            clone_sender(&ack_sender),
            regfile_cmp_rs1data.1,
            cmpmux_cmp_b.1,
            control_cmp_op.1,
            cmp_control_out.0,
            cmp_regfilemux_out.0,
        );

        let regfile_mux = RegFileMux::new(
            13,
            clone_sender(&ack_sender),
            alu_regfilemux_out.1,
            cmp_regfilemux_out.1,
            ir_regfilemux_uimm.1,
            mar_regfilemux_out.1,
            mdr_regfilemux_out.1,
            pc_regfilemux_out.1,
            control_regfilemux_sel.1,
            regfilemux_regfile_rddata.0,
        );

        let regfile = RegFile::new(
            14,
            clone_sender(&ack_sender),
            ir_regfile_rs1idx.1,
            ir_regfile_rs2idx.1,
            control_regfile_load.1,
            ir_regfile_rdidx.1,
            regfilemux_regfile_rddata.1,
            regfile_alumux1_rs1data.0,
            regfile_cmp_rs1data.0,
            regfile_alumux2_rs2data.0,
            regfile_cmpmux_rs2data.0,
            regfile_dataout_rs2data.0,
        );

        let data_out = DataOut::new(
            15,
            clone_sender(&ack_sender),
            control_dataout_load.1,
            mar_dataout_out.1,
            regfile_dataout_rs2data.1,
            dataout_memctl_data.0,
        );

        let mut components_vec: Vec<AnyComponent> = Vec::new();
        components_vec.push(AnyComponent::MemCtl(mem_ctl));
        components_vec.push(AnyComponent::Control(control));
        components_vec.push(AnyComponent::Ir(ir));
        components_vec.push(AnyComponent::PcMux(pc_mux));
        components_vec.push(AnyComponent::Pc(pc));
        components_vec.push(AnyComponent::MarMux(mar_mux));
        components_vec.push(AnyComponent::Mar(mar));
        components_vec.push(AnyComponent::Mdr(mdr));
        components_vec.push(AnyComponent::AluMux1(alu_mux1));
        components_vec.push(AnyComponent::AluMux2(alu_mux2));
        components_vec.push(AnyComponent::Alu(alu));
        components_vec.push(AnyComponent::CmpMux(cmp_mux));
        components_vec.push(AnyComponent::Cmp(cmp));
        components_vec.push(AnyComponent::RegFileMux(regfile_mux));
        components_vec.push(AnyComponent::RegFile(regfile));
        components_vec.push(AnyComponent::DataOut(data_out));

        let total = components_vec.len();
        let chunk = if threads_to_use >= total {
            1
        } else {
            (total + threads_to_use - 1) / threads_to_use
        };
        let mut dispatchers: Vec<SimDispatcher> = Vec::new();
        let mut current: Vec<AnyComponent> = Vec::new();
        let mut fuel: usize = total;
        while components_vec.len() > 0
            invariant
                fuel >= components_vec.len(),
            decreases fuel,
        {
            let c = components_vec.remove(0);
            current.push(c);
            if current.len() >= chunk && chunk > 0 {
                dispatchers.push(SimDispatcher::new(current));
                current = Vec::new();
            }
            fuel = fuel - 1;
        }
        if current.len() > 0 {
            dispatchers.push(SimDispatcher::new(current));
        }

        init_all(&mut dispatchers, &mut sim_manager);
        sim_manager.register_do_not_end(0);

        Core { sim_manager, dispatchers, ack_sender }
    }
}

} // verus!
