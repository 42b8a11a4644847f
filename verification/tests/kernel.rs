//! Kernel-level behaviour: runs, cycle accounting, acknowledgement
//! tracking, fault detection and termination.

use crossbeam_channel::unbounded;
use rsim::component::AnyComponent;
use rsim::error::SimError;
use rsim::event::{Payload, SimEvent};
use rsim::sim_dispatcher::SimDispatcher;
use rsim::sim_manager::SimManager;
use rsim::simple_component::simple_link::SimpleLink;
use rsim::simple_component::simple_receiver::SimpleReceiver;
use rsim::simple_component::simple_sender::SimpleSender;
use rsim::task::Task;
use rsim::word::Word;

#[test]
fn null_run() {
    let ack_channel = unbounded();
    let mut mgr = SimManager::new(ack_channel.1);
    let mut dispatchers: Vec<SimDispatcher> = Vec::new();
    let r = mgr.run(&mut dispatchers);
    assert!(r.is_ok());
    assert_eq!(mgr.get_curr_cycle(), 0);
    assert_eq!(mgr.get_event_processed(), 0);
    drop(ack_channel.0);
}

#[test]
fn event_ids_strictly_increase() {
    let ack_channel = unbounded();
    let mut mgr = SimManager::new(ack_channel.1);
    let mut last = mgr.request_new_event_id();
    for _ in 0..100 {
        let next = mgr.request_new_event_id();
        assert!(next > last);
        last = next;
    }
}

#[test]
fn time_fault_detected() {
    let ack_channel = unbounded();
    let mut mgr = SimManager::new(ack_channel.1);
    let mut dispatchers: Vec<SimDispatcher> = Vec::new();
    // Advance one cycle so that there is a past to forge into.
    assert!(mgr.run_cycle(&mut dispatchers).is_ok());
    assert_eq!(mgr.get_curr_cycle(), 1);
    let dest = unbounded();
    let forged = SimEvent {
        event_id: mgr.request_new_event_id(),
        scheduled_time: 0,
        payload: Payload::Packet(0, false),
    };
    mgr.enq_event(Task::new(forged, dest.0));
    let r = mgr.run_cycle_end(&mut dispatchers);
    assert_eq!(r, Err(SimError::TimeFault));
    drop(dest.1);
}

#[test]
fn phantom_ack_detected() {
    let ack_channel = unbounded();
    let mut mgr = SimManager::new(ack_channel.1);
    ack_channel.0.send(12345).unwrap();
    let r = mgr.recv_ack();
    assert_eq!(r, Err(SimError::PhantomAck));
}

#[test]
fn proxy_into_closed_channel_fails() {
    let ack_channel = unbounded();
    let mut mgr = SimManager::new(ack_channel.1);
    let dest = unbounded::<SimEvent>();
    drop(dest.1);
    let ev = SimEvent {
        event_id: mgr.request_new_event_id(),
        scheduled_time: 0,
        payload: Payload::Packet(0, false),
    };
    let r = mgr.proxy_event(ev, dest.0);
    assert_eq!(r, Err(SimError::ChannelClosed));
}

#[test]
fn undrained_release_stalls() {
    let ack_channel = unbounded();
    let mut mgr = SimManager::new(ack_channel.1);
    let mut dispatchers: Vec<SimDispatcher> = Vec::new();
    mgr.register_do_not_end(7);
    // Inject into a channel that no component polls: the event can never
    // be acknowledged, and the drain reports that instead of spinning.
    let dest = unbounded();
    let ev = SimEvent {
        event_id: mgr.request_new_event_id(),
        scheduled_time: 0,
        payload: Payload::Packet(1, false),
    };
    assert!(mgr.proxy_event(ev, dest.0).is_ok());
    let r = mgr.run_cycle_end(&mut dispatchers);
    assert_eq!(r, Err(SimError::Stalled));
    drop(dest.1);
}

#[test]
fn one_clock_event_per_subscriber_per_cycle() {
    let ack_channel = unbounded();
    let mut mgr = SimManager::new(ack_channel.1);
    let out = unbounded();
    let sender = SimpleSender::new(1, 0, out.0, ack_channel.0.clone());
    let mut dispatchers = vec![SimDispatcher::new(vec![AnyComponent::Sender(sender)])];
    rsim::sim_dispatcher::init_all(&mut dispatchers, &mut mgr);
    let r = mgr.run(&mut dispatchers);
    assert!(r.is_ok());
    // The only traffic was the clock: exactly one tick event was
    // delivered and acknowledged for the one cycle that ran.
    assert_eq!(mgr.get_curr_cycle(), 1);
    assert_eq!(mgr.get_event_processed(), 1);
    drop(out.1);
}

#[test]
fn future_scheduling_waits_ten_cycles() {
    let ack_channel = unbounded();
    let mut mgr = SimManager::new(ack_channel.1);
    mgr.register_do_not_end(9);
    let link = unbounded();
    let blackhole = rsim::backend::blackhole::WordBlackhole::new(
        0,
        link.1,
        ack_channel.0.clone(),
    );
    let mut dispatchers = vec![SimDispatcher::new(vec![AnyComponent::Blackhole(blackhole)])];
    let ev = SimEvent {
        event_id: mgr.request_new_event_id(),
        scheduled_time: 10,
        payload: Payload::Word(Word::from(0xabcd_1234u32)),
    };
    mgr.enq_event(Task::new(ev, link.0));
    for expected_cycle in 1..=9u128 {
        assert!(mgr.run_cycle(&mut dispatchers).is_ok());
        assert_eq!(mgr.get_curr_cycle(), expected_cycle);
        // The event stays on the heap until its cycle comes.
        assert_eq!(mgr.pending_events(), 1);
        assert_eq!(mgr.next_pending_time(), Some(10));
        assert_eq!(mgr.get_event_processed(), 0);
    }
    assert!(mgr.run_cycle(&mut dispatchers).is_ok());
    assert_eq!(mgr.get_curr_cycle(), 10);
    assert_eq!(mgr.pending_events(), 0);
    assert_eq!(mgr.get_event_processed(), 1);
    match &dispatchers[0].components[0] {
        AnyComponent::Blackhole(b) => assert_eq!(b.get_input(), Word::from(0xabcd_1234u32)),
        _ => panic!("wrong component"),
    }
}

#[test]
fn no_change_suppression() {
    let ack_channel = unbounded();
    let mut mgr = SimManager::new(ack_channel.1);
    mgr.register_do_not_end(99);
    let input_link = unbounded();
    let output_link = unbounded();
    let link = SimpleLink::new(0, input_link.1, output_link.0, ack_channel.0.clone());
    let receiver = SimpleReceiver::new(2, output_link.1, ack_channel.0.clone());
    let mut dispatchers = vec![
        SimDispatcher::new(vec![AnyComponent::Link(link)]),
        SimDispatcher::new(vec![AnyComponent::Receiver(receiver)]),
    ];
    rsim::sim_dispatcher::init_all(&mut dispatchers, &mut mgr);
    // First arrival changes the link's input: it forwards, so the
    // stimulus and the forwarded event are both acknowledged.
    let ev = SimEvent {
        event_id: mgr.request_new_event_id(),
        scheduled_time: mgr.get_curr_cycle(),
        payload: Payload::Packet(5, false),
    };
    assert!(mgr.proxy_event(ev, input_link.0.clone()).is_ok());
    assert!(mgr.run_cycle_end(&mut dispatchers).is_ok());
    assert_eq!(mgr.get_event_processed(), 2);
    // The same payload again: the value did not change, so the link's
    // combinational callback must not fire; only the stimulus is acked.
    let ev2 = SimEvent {
        event_id: mgr.request_new_event_id(),
        scheduled_time: mgr.get_curr_cycle(),
        payload: Payload::Packet(5, false),
    };
    assert!(mgr.proxy_event(ev2, input_link.0.clone()).is_ok());
    assert!(mgr.run_cycle_end(&mut dispatchers).is_ok());
    assert_eq!(mgr.get_event_processed(), 3);
}

#[test]
fn simple_test() {
    let ack_channel = unbounded();

    let mut sim_manager = SimManager::new(ack_channel.1);

    let input_link_pair = unbounded();
    let output_link_pair = unbounded();

    let link = SimpleLink::new(
        0,
        input_link_pair.1,
        output_link_pair.0,
        ack_channel.0.clone(),
    );

    let sender = SimpleSender::new(1, 100, input_link_pair.0, ack_channel.0.clone());

    let receiver = SimpleReceiver::new(2, output_link_pair.1, ack_channel.0.clone());

    let mut sim_dispatchers = vec![
        SimDispatcher::new(vec![AnyComponent::Sender(sender)]),
        SimDispatcher::new(vec![AnyComponent::Link(link)]),
        SimDispatcher::new(vec![AnyComponent::Receiver(receiver)]),
    ];

    rsim::sim_dispatcher::init_all(&mut sim_dispatchers, &mut sim_manager);

    let r = sim_manager.run(&mut sim_dispatchers);
    assert!(r.is_ok());

    let event_processed = sim_manager.get_event_processed();
    println!("Finished processing {} events", event_processed);
    // One event per hop per packet plus one clock event per cycle.
    assert!(event_processed >= 300);
    // The receiver saw the end of the stream: the last packet.
    match &sim_dispatchers[2].components[0] {
        AnyComponent::Receiver(rcv) => {
            assert_eq!(rcv.input, (99, true));
        },
        _ => panic!("wrong component"),
    }
}

#[test]
fn heap_orders_by_time_then_id() {
    let ack_channel = unbounded();
    let mut mgr = SimManager::new(ack_channel.1);
    mgr.register_do_not_end(3);
    let link = unbounded();
    let blackhole = rsim::backend::blackhole::WordBlackhole::new(
        0,
        link.1,
        ack_channel.0.clone(),
    );
    let mut dispatchers = vec![SimDispatcher::new(vec![AnyComponent::Blackhole(blackhole)])];
    // Enqueue out of order: times 3, 1, 2. The earliest must be released
    // first.
    for t in [3u128, 1, 2] {
        let ev = SimEvent {
            event_id: mgr.request_new_event_id(),
            scheduled_time: t,
            payload: Payload::Word(Word::from(t as u32)),
        };
        mgr.enq_event(Task::new(ev, link.0.clone()));
    }
    assert_eq!(mgr.next_pending_time(), Some(1));
    // Two events at the same cycle: the one with the smaller identifier
    // leaves first, so the sink's last value comes from the larger one.
    let id_hi = mgr.request_new_event_id();
    let id_lo = id_hi + 1;
    let first = SimEvent {
        event_id: id_lo + 1,
        scheduled_time: 1,
        payload: Payload::Word(Word::from(0xbbbb_bbbbu32)),
    };
    let second = SimEvent {
        event_id: id_lo,
        scheduled_time: 1,
        payload: Payload::Word(Word::from(0xaaaa_aaaau32)),
    };
    mgr.enq_event(Task::new(first, link.0.clone()));
    mgr.enq_event(Task::new(second, link.0.clone()));
    assert!(mgr.run_cycle(&mut dispatchers).is_ok());
    assert_eq!(mgr.get_curr_cycle(), 1);
    match &dispatchers[0].components[0] {
        AnyComponent::Blackhole(b) => {
            // Released in identifier order, the event with the larger
            // identifier arrives last.
            assert_eq!(b.get_input(), Word::from(0xbbbb_bbbbu32));
        },
        _ => panic!("wrong component"),
    }
}
