use std::sync::mpsc;

use rboy::model::MODEL_STEP_COST;
use rboy::{
    apply_events, construct_cpu, publish_ends_run, run_cpu, run_one_budget, EngineOp, GBEvent,
    KeypadKey, ModelEngine, PublishOutcome, SerialMode, CYCLE_BUDGET, FRAME_SIZE,
};

fn fresh_engine() -> ModelEngine {
    ModelEngine::new(false, SerialMode::Silent, None)
}

fn advance_cycle_total(engine: &ModelEngine) -> u64 {
    engine
        .history_log()
        .iter()
        .map(|op| match op {
            EngineOp::Advance(c) => *c as u64,
            _ => 0,
        })
        .sum()
}

#[test]
fn the_cycle_budget_rounds_the_nominal_rate_per_tick() {
    // 4194304 cycles per second over a 16 ms tick, rounded to the nearest
    // whole cycle.
    assert_eq!(CYCLE_BUDGET, 67109);
    assert_eq!(FRAME_SIZE, 160 * 144 * 3);
}

#[test]
fn events_are_applied_to_the_engine_in_enqueued_order() {
    let mut engine = fresh_engine();
    let mut limit_speed = true;
    let events = vec![
        GBEvent::KeyDown(KeypadKey::A),
        GBEvent::KeyUp(KeypadKey::B),
        GBEvent::SpeedDown,
        GBEvent::KeyDown(KeypadKey::Start),
        GBEvent::SpeedUp,
    ];
    let stopped = apply_events(&mut engine, &mut limit_speed, &events);
    assert!(!stopped);
    assert_eq!(
        engine.history_log().as_slice(),
        &[
            EngineOp::Key(KeypadKey::A, true),
            EngineOp::Key(KeypadKey::B, false),
            EngineOp::Resync,
            EngineOp::Key(KeypadKey::Start, true),
        ]
    );
    assert!(!limit_speed, "the last speed toggle wins");
    assert!(engine.key_is_pressed(KeypadKey::A));
    assert!(!engine.key_is_pressed(KeypadKey::B));
    assert!(engine.key_is_pressed(KeypadKey::Start));
}

#[test]
fn a_stop_event_ends_application_immediately() {
    let mut engine = fresh_engine();
    let mut limit_speed = true;
    let events = vec![
        GBEvent::KeyDown(KeypadKey::Left),
        GBEvent::Stop,
        GBEvent::KeyDown(KeypadKey::Right),
        GBEvent::SpeedUp,
    ];
    let stopped = apply_events(&mut engine, &mut limit_speed, &events);
    assert!(stopped);
    assert_eq!(engine.history_log().as_slice(), &[EngineOp::Key(KeypadKey::Left, true)]);
    assert!(limit_speed, "events after the stop are never applied");
}

#[test]
fn leaving_fast_forward_resyncs_audio_exactly_once() {
    let mut engine = fresh_engine();
    let mut limit_speed = true;
    let events = vec![GBEvent::SpeedUp, GBEvent::SpeedDown];
    let stopped = apply_events(&mut engine, &mut limit_speed, &events);
    assert!(!stopped);
    assert!(limit_speed);
    let resyncs = engine
        .history_log()
        .iter()
        .filter(|op| matches!(op, EngineOp::Resync))
        .count();
    assert_eq!(resyncs, 1);
}

#[test]
fn pacing_stays_within_one_engine_step_of_the_nominal_total() {
    let mut engine = fresh_engine();
    let (frame_tx, frame_rx) = mpsc::sync_channel::<Vec<u8>>(1);
    let mut carry: u64 = 0;
    let rounds: u64 = 5;
    for _ in 0..rounds {
        let alive = run_one_budget(&mut engine, &mut carry, &frame_tx);
        assert!(alive);
        assert!(carry < MODEL_STEP_COST as u64, "carry stays below one engine step");
    }
    let total = advance_cycle_total(&engine);
    assert_eq!(total, rounds * CYCLE_BUDGET + carry);
    assert!(total >= rounds * CYCLE_BUDGET);
    assert!(total < rounds * CYCLE_BUDGET + MODEL_STEP_COST as u64);
    drop(frame_rx);
}

#[test]
fn frame_publishing_never_blocks_and_buffers_one_slot() {
    let mut engine = fresh_engine();
    let (frame_tx, frame_rx) = mpsc::sync_channel::<Vec<u8>>(1);
    let mut carry: u64 = 0;
    // Four budgets render three frames; an undrained consumer keeps one
    // slot occupied, the rest are dropped, and every round still returns.
    for _ in 0..4 {
        let alive = run_one_budget(&mut engine, &mut carry, &frame_tx);
        assert!(alive);
    }
    let first = frame_rx.try_recv().expect("exactly one frame is buffered");
    assert_eq!(first.len(), FRAME_SIZE);
    assert!(frame_rx.try_recv().is_err(), "overflowing frames are dropped, not queued");
}

#[test]
fn only_a_vanished_consumer_ends_the_run_on_publish() {
    assert!(!publish_ends_run(&PublishOutcome::Delivered));
    assert!(!publish_ends_run(&PublishOutcome::SlotFull), "a full slot drops the frame, no more");
    assert!(publish_ends_run(&PublishOutcome::Disconnected));
}

#[test]
fn a_prepaid_budget_round_makes_no_engine_step() {
    let mut engine = fresh_engine();
    let (frame_tx, _frame_rx) = mpsc::sync_channel::<Vec<u8>>(1);
    let mut carry: u64 = CYCLE_BUDGET + 5;
    assert!(run_one_budget(&mut engine, &mut carry, &frame_tx));
    assert_eq!(carry, 5);
    assert!(engine.history_log().is_empty());
}

#[test]
fn a_vanished_frame_consumer_ends_the_run() {
    let mut engine = fresh_engine();
    let (frame_tx, frame_rx) = mpsc::sync_channel::<Vec<u8>>(1);
    drop(frame_rx);
    let mut carry: u64 = 0;
    // The first budget finishes before any frame is due...
    assert!(run_one_budget(&mut engine, &mut carry, &frame_tx));
    // ...and the round that first publishes one observes the disconnect.
    assert!(!run_one_budget(&mut engine, &mut carry, &frame_tx));
}

#[test]
fn a_session_runs_polls_one_frame_and_ends_at_disconnect() {
    let mut rom = vec![0u8; rboy::model::ROM_HEADER_LEN];
    let sum = rboy::model::compute_header_checksum(&rom);
    rom[rboy::model::CHECKSUM_ADDR] = sum;
    let engine = construct_cpu(rom, None, true, false, false, false)
        .expect("a valid ROM constructs an engine");

    let (frame_tx, frame_rx) = mpsc::sync_channel::<Vec<u8>>(1);
    let (event_tx, event_rx) = mpsc::channel::<GBEvent>();
    let (tick_tx, tick_rx) = mpsc::sync_channel::<()>(1);

    // The first drained batch turns fast-forward on, so the loop never
    // waits on the silent ticker; the stop request sits just past the batch
    // bound and is applied in the second round, after a frame was rendered
    // and published.
    event_tx.send(GBEvent::KeyDown(KeypadKey::A)).unwrap();
    for _ in 1..rboy::scheduler::DRAIN_BATCH_MAX {
        event_tx.send(GBEvent::SpeedUp).unwrap();
    }
    event_tx.send(GBEvent::Stop).unwrap();

    run_cpu(engine, frame_tx, event_rx, tick_rx);

    let frame = frame_rx.recv().expect("one frame was published");
    assert_eq!(frame.len(), FRAME_SIZE);
    assert!(frame_rx.recv().is_err(), "after termination the stream ends");
    assert!(event_tx.send(GBEvent::SpeedUp).is_err(), "the event consumer is gone");
    drop(tick_tx);
}

#[test]
fn a_stop_event_terminates_the_scheduler() {
    let engine = Box::new(fresh_engine());
    let (frame_tx, frame_rx) = mpsc::sync_channel::<Vec<u8>>(1);
    let (event_tx, event_rx) = mpsc::channel::<GBEvent>();
    let (tick_tx, tick_rx) = mpsc::sync_channel::<()>(1);

    event_tx.send(GBEvent::Stop).unwrap();
    run_cpu(engine, frame_tx, event_rx, tick_rx);

    assert!(frame_rx.recv().is_err(), "the frame producer is released on stop");
    assert!(event_tx.send(GBEvent::SpeedUp).is_err(), "the event consumer is gone");
    drop(tick_tx);
}
