//! The datapath components driven through the kernel: stimulus in through
//! proxied events, results observed at sinks, all within one cycle.

use crossbeam_channel::unbounded;
use rsim::backend::blackhole::WordBlackhole;
use rsim::backend::regfile::RegFile;
use rsim::backend::alu::Alu;
use rsim::component::AnyComponent;
use rsim::event::{Payload, SimEvent};
use rsim::sim_dispatcher::SimDispatcher;
use rsim::sim_manager::SimManager;
use rsim::word::{Byte, Word};

fn word_payload(mgr: &mut SimManager, w: u32) -> SimEvent {
    SimEvent {
        event_id: mgr.request_new_event_id(),
        scheduled_time: mgr.get_curr_cycle(),
        payload: Payload::Word(Word::from(w)),
    }
}

fn byte_payload(mgr: &mut SimManager, b: u8) -> SimEvent {
    SimEvent {
        event_id: mgr.request_new_event_id(),
        scheduled_time: mgr.get_curr_cycle(),
        payload: Payload::Byte(Byte::from(b)),
    }
}

#[test]
fn alu_test_simple() {
    let ack_channel = unbounded();

    let mut sim_manager = SimManager::new(ack_channel.1);
    let a_link = unbounded();
    let b_link = unbounded();
    let op_link = unbounded();
    let out_pc_mux_link = unbounded();
    let out_mar_mux_link = unbounded();
    let out_regfile_mux_link = unbounded();

    let alu = Alu::new(
        0,
        ack_channel.0.clone(),
        a_link.1.clone(),
        b_link.1.clone(),
        op_link.1.clone(),
        out_pc_mux_link.0.clone(),
        out_mar_mux_link.0.clone(),
        out_regfile_mux_link.0.clone(),
    );

    sim_manager.register_do_not_end(0);

    let out_pc_mux_blackhole =
        WordBlackhole::new(1, out_pc_mux_link.1.clone(), ack_channel.0.clone());
    let out_mar_mux_blackhole =
        WordBlackhole::new(1, out_mar_mux_link.1.clone(), ack_channel.0.clone());
    let out_regfile_mux_blackhole =
        WordBlackhole::new(1, out_regfile_mux_link.1.clone(), ack_channel.0.clone());

    let mut sim_dispatchers = vec![
        SimDispatcher::new(vec![AnyComponent::Alu(alu)]),
        SimDispatcher::new(vec![AnyComponent::Blackhole(out_pc_mux_blackhole)]),
        SimDispatcher::new(vec![AnyComponent::Blackhole(out_mar_mux_blackhole)]),
        SimDispatcher::new(vec![AnyComponent::Blackhole(out_regfile_mux_blackhole)]),
    ];

    // A fixed pseudo-random input stream, sixteen rounds over all eight
    // operations.
    let mut seed: u32 = 0x1234_5678;
    let mut next = move || {
        seed = seed.wrapping_mul(1_664_525).wrapping_add(1_013_904_223);
        seed
    };
    for i in 0..16u8 {
        let a_u32 = next();
        let b_u32 = next();
        let op_u8 = i % 8;

        let ev_a = word_payload(&mut sim_manager, a_u32);
        sim_manager.proxy_event(ev_a, a_link.0.clone()).unwrap();
        let ev_b = word_payload(&mut sim_manager, b_u32);
        sim_manager.proxy_event(ev_b, b_link.0.clone()).unwrap();
        let ev_op = byte_payload(&mut sim_manager, op_u8);
        sim_manager.proxy_event(ev_op, op_link.0.clone()).unwrap();

        let _ = sim_manager.run_cycle_end(&mut sim_dispatchers);
        // Settling combinational activity never moves the clock.
        assert_eq!(sim_manager.get_curr_cycle(), 0);
        let expected_result = match op_u8 {
            0 => Word::from(a_u32.wrapping_add(b_u32)),
            1 => Word::from(a_u32 << (b_u32 & 0x1f)),
            2 => Word::from(((a_u32 as i32) >> ((b_u32 & 0x1f) as i32)) as u32),
            3 => Word::from(a_u32.wrapping_sub(b_u32)),
            4 => Word::from(a_u32 ^ b_u32),
            5 => Word::from(a_u32 >> (b_u32 & 0x1f)),
            6 => Word::from(a_u32 | b_u32),
            7 => Word::from(a_u32 & b_u32),
            _ => Word::unknown(),
        };

        for d in 1..4 {
            match &sim_dispatchers[d].components[0] {
                AnyComponent::Blackhole(b) => assert_eq!(b.get_input(), expected_result),
                _ => panic!("wrong component"),
            }
        }
    }

    sim_manager.register_can_end(0);
}

#[test]
fn regfile_test_simple() {
    let ack_channel = unbounded();

    let mut sim_manager = SimManager::new(ack_channel.1);

    let rs1_idx_link = unbounded();
    let rs2_idx_link = unbounded();
    let rd_wr_link = unbounded();
    let rd_idx_link = unbounded();
    let rd_data_link = unbounded();
    let rs1_data_alu_mux1_link = unbounded();
    let rs1_data_cmp_link = unbounded();
    let rs2_data_alu_mux2_link = unbounded();
    let rs2_data_cmp_mux_link = unbounded();
    let rs2_data_data_out_link = unbounded();

    let reg_file = RegFile::new(
        0,
        ack_channel.0.clone(),
        rs1_idx_link.1,
        rs2_idx_link.1,
        rd_wr_link.1,
        rd_idx_link.1,
        rd_data_link.1,
        rs1_data_alu_mux1_link.0,
        rs1_data_cmp_link.0,
        rs2_data_alu_mux2_link.0,
        rs2_data_cmp_mux_link.0,
        rs2_data_data_out_link.0,
    );

    sim_manager.register_do_not_end(0);

    let rs1_data_alu_mux1_blackhole =
        WordBlackhole::new(1, rs1_data_alu_mux1_link.1, ack_channel.0.clone());
    let rs1_data_cmp_blackhole =
        WordBlackhole::new(1, rs1_data_cmp_link.1, ack_channel.0.clone());
    let rs2_data_alu_mux2_blackhole =
        WordBlackhole::new(2, rs2_data_alu_mux2_link.1, ack_channel.0.clone());
    let rs2_data_cmp_mux_blackhole =
        WordBlackhole::new(2, rs2_data_cmp_mux_link.1, ack_channel.0.clone());
    let rs2_data_data_out_blackhole =
        WordBlackhole::new(2, rs2_data_data_out_link.1, ack_channel.0.clone());

    let mut sim_dispatchers = vec![
        SimDispatcher::new(vec![AnyComponent::RegFile(reg_file)]),
        SimDispatcher::new(vec![
            AnyComponent::Blackhole(rs1_data_alu_mux1_blackhole),
            AnyComponent::Blackhole(rs1_data_cmp_blackhole),
        ]),
        SimDispatcher::new(vec![
            AnyComponent::Blackhole(rs2_data_alu_mux2_blackhole),
            AnyComponent::Blackhole(rs2_data_cmp_mux_blackhole),
            AnyComponent::Blackhole(rs2_data_data_out_blackhole),
        ]),
    ];
    rsim::sim_dispatcher::init_all(&mut sim_dispatchers, &mut sim_manager);

    assert!(sim_manager.run_cycle(&mut sim_dispatchers).is_ok());

    // Test the initial contents: the setup pass reset the bank, leaving
    // register zero at zero and the rest undriven.
    let read_reg = |dispatchers: &Vec<SimDispatcher>, idx: u8| -> Word {
        match &dispatchers[0].components[0] {
            AnyComponent::RegFile(rf) => rf.registers.read(Byte::from(idx)),
            _ => panic!("wrong component"),
        }
    };
    assert_eq!(read_reg(&sim_dispatchers, 0), Word::zeros());
    for i in 1..32u8 {
        assert_eq!(read_reg(&sim_dispatchers, i), Word::unknown());
    }

    // Test writes: every register takes the value written on a clock edge
    // (register zero stays zero, and zero is what is written there).
    for i in 0..32u32 {
        let ev_wr = byte_payload(&mut sim_manager, i as u8);
        sim_manager.proxy_event(ev_wr, rd_wr_link.0.clone()).unwrap();
        let ev_idx = byte_payload(&mut sim_manager, i as u8);
        sim_manager.proxy_event(ev_idx, rd_idx_link.0.clone()).unwrap();
        let ev_data = word_payload(&mut sim_manager, i);
        sim_manager.proxy_event(ev_data, rd_data_link.0.clone()).unwrap();

        assert!(sim_manager.run_cycle(&mut sim_dispatchers).is_ok());
        assert_eq!(read_reg(&sim_dispatchers, i as u8), Word::from(i));
    }

    // Test reads: both read ports fan the addressed registers out to
    // every consumer, without crossing a clock edge.
    let curr_cycle = sim_manager.get_curr_cycle();
    for i in 0..16u8 {
        let rs1_idx = i * 2;
        let rs2_idx = i * 2 + 1;
        let rs1_data = Word::from((i as u32) * 2);
        let rs2_data = Word::from((i as u32) * 2 + 1);
        let ev1 = byte_payload(&mut sim_manager, rs1_idx);
        sim_manager.proxy_event(ev1, rs1_idx_link.0.clone()).unwrap();
        let ev2 = byte_payload(&mut sim_manager, rs2_idx);
        sim_manager.proxy_event(ev2, rs2_idx_link.0.clone()).unwrap();

        let _ = sim_manager.run_cycle_end(&mut sim_dispatchers);
        assert_eq!(sim_manager.get_curr_cycle(), curr_cycle);
        let expect = |dispatchers: &Vec<SimDispatcher>, d: usize, c: usize, w: Word| {
            match &dispatchers[d].components[c] {
                AnyComponent::Blackhole(b) => assert_eq!(b.get_input(), w),
                _ => panic!("wrong component"),
            }
        };
        expect(&sim_dispatchers, 1, 0, rs1_data);
        expect(&sim_dispatchers, 1, 1, rs1_data);
        expect(&sim_dispatchers, 2, 0, rs2_data);
        expect(&sim_dispatchers, 2, 1, rs2_data);
        expect(&sim_dispatchers, 2, 2, rs2_data);
    }

    // Test writes after reads.
    for i in 0..32u32 {
        let ev_wr = byte_payload(&mut sim_manager, i as u8);
        sim_manager.proxy_event(ev_wr, rd_wr_link.0.clone()).unwrap();
        let ev_idx = byte_payload(&mut sim_manager, i as u8);
        sim_manager.proxy_event(ev_idx, rd_idx_link.0.clone()).unwrap();
        let ev_data = word_payload(&mut sim_manager, i * 2);
        sim_manager.proxy_event(ev_data, rd_data_link.0.clone()).unwrap();

        assert!(sim_manager.run_cycle(&mut sim_dispatchers).is_ok());
        assert_eq!(read_reg(&sim_dispatchers, i as u8), Word::from(i * 2));
    }

    sim_manager.register_can_end(0);
}
