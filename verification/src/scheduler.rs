//! The pacing loop that drives the engine in real time.
//!
//! Wall-clock ticks are converted into a fixed cycle budget; the engine is
//! advanced until the budget is met, carrying the fractional-cycle remainder
//! to the next tick so the long-run average speed matches the nominal clock
//! rate exactly. Rendered frames are published without ever blocking, queued
//! control events are applied in order between budgets, and the loop ends
//! only on a stop request or when a pipeline endpoint disconnects.

use vstd::prelude::*;

use std::sync::mpsc::Receiver;
use std::sync::mpsc::SyncSender;

use crate::channels::{try_recv_event, try_send_frame, wait_tick, PolledEvent, PublishOutcome};
use crate::engine::{advance_total, all_advances, Engine, EngineOp};
use crate::events::GBEvent;
use crate::CYCLE_BUDGET;

verus! {

/// The engine operations one control event gives rise to.
pub open spec fn event_ops(e: GBEvent) -> Seq<EngineOp> {
    match e {
        GBEvent::KeyDown(key) => seq![EngineOp::Key(key, true)],
        GBEvent::KeyUp(key) => seq![EngineOp::Key(key, false)],
        GBEvent::SpeedUp => seq![],
        GBEvent::SpeedDown => seq![EngineOp::Resync],
        GBEvent::Stop => seq![],
    }
}

/// The engine operations a sequence of events gives rise to, in order.
pub open spec fn ops_of_events(evs: Seq<GBEvent>) -> Seq<EngineOp>
    decreases evs.len(),
{
    if evs.len() == 0 {
        Seq::empty()
    } else {
        ops_of_events(evs.drop_last()) + event_ops(evs.last())
    }
}

/// The pacing flag after a sequence of events: the last speed toggle wins.
pub open spec fn limit_after(evs: Seq<GBEvent>, init: bool) -> bool
    decreases evs.len(),
{
    if evs.len() == 0 {
        init
    } else {
        match evs.last() {
            GBEvent::SpeedUp => false,
            GBEvent::SpeedDown => true,
            _ => limit_after(evs.drop_last(), init),
        }
    }
}

/// True when no event in the sequence is a stop request.
pub open spec fn stop_free(evs: Seq<GBEvent>) -> bool {
    forall|i: int| 0 <= i < evs.len() ==> !((#[trigger] evs[i]) is Stop)
}

/// Applies a batch of control events to the engine, in the order given,
/// stopping at the first stop request.
///
/// Key transitions reach the engine's input state; a speed toggle flips the
/// pacing flag, and leaving fast-forward additionally resynchronizes the
/// engine's audio so stale samples are not burst out. The contract pins the
/// order exactly: the engine's history grows by the operations of the
/// applied events, in the sequence they were given.
pub fn apply_events<E: Engine>(cpu: &mut E, limit_speed: &mut bool, events: &Vec<GBEvent>) -> (stopped: bool)
    requires
        old(cpu).wf(),
    ensures
        final(cpu).wf(),
        final(cpu).step_bound() == old(cpu).step_bound(),
        !stopped ==> {
            &&& stop_free(events@)
            &&& final(cpu).history() == old(cpu).history() + ops_of_events(events@)
            &&& *final(limit_speed) == limit_after(events@, *old(limit_speed))
        },
        stopped ==> exists|i: int|
            {
                &&& 0 <= i < events@.len()
                &&& (#[trigger] events@[i]) is Stop
                &&& stop_free(events@.take(i))
                &&& final(cpu).history() == old(cpu).history() + ops_of_events(events@.take(i))
                &&& *final(limit_speed) == limit_after(events@.take(i), *old(limit_speed))
            },
{
    let ghost h0 = cpu.history();
    let ghost l0 = *limit_speed;
    let mut i: usize = 0;
    while i < events.len()
        invariant
            cpu.wf(),
            cpu.step_bound() == old(cpu).step_bound(),
            h0 == old(cpu).history(),
            l0 == *old(limit_speed),
            i <= events@.len(),
            stop_free(events@.take(i as int)),
            cpu.history() == h0 + ops_of_events(events@.take(i as int)),
            *limit_speed == limit_after(events@.take(i as int), l0),
        decreases events@.len() - i,
    {
        let ghost taken = events@.take(i as int);
        let ev = events[i];
        proof {
            assert(events@.take(i + 1).drop_last() =~= taken);
            assert(events@.take(i + 1).last() == ev);
        }
        match ev {
            GBEvent::KeyUp(key) => {
                cpu.apply_key(key, false);
                proof {
                    assert((h0 + ops_of_events(taken)).push(EngineOp::Key(key, false)) =~= h0
                        + (ops_of_events(taken) + seq![EngineOp::Key(key, false)]));
                }
            },
            GBEvent::KeyDown(key) => {
                cpu.apply_key(key, true);
                proof {
                    assert((h0 + ops_of_events(taken)).push(EngineOp::Key(key, true)) =~= h0
                        + (ops_of_events(taken) + seq![EngineOp::Key(key, true)]));
                }
            },
            GBEvent::SpeedUp => {
                *limit_speed = false;
                proof {
                    assert(ops_of_events(events@.take(i + 1)) =~= ops_of_events(taken));
                }
            },
            GBEvent::SpeedDown => {
                *limit_speed = true;
                cpu.resync_audio();
                proof {
                    assert((h0 + ops_of_events(taken)).push(EngineOp::Resync) =~= h0
                        + (ops_of_events(taken) + seq![EngineOp::Resync]));
                }
            },
            GBEvent::Stop => {
                proof {
                    assert(0 <= i < events@.len() && (events@[i as int]) is Stop
                        && stop_free(events@.take(i as int))
                        && cpu.history() == old(cpu).history() + ops_of_events(events@.take(i as int))
                        && *limit_speed == limit_after(events@.take(i as int), *old(limit_speed)));
                }
                return true;
            },
        }
        proof {
            assert(stop_free(events@.take(i + 1)));
        }
        i = i + 1;
    }
    proof {
        assert(events@.take(events@.len() as int) =~= events@);
    }
    false
}

/// Most events one drain takes in one round. The drain stops once the queue
/// is empty; the batch bound only keeps one round's work provably finite,
/// and anything beyond it is taken next round, still in order.
pub const DRAIN_BATCH_MAX: usize = 65536;

/// Receives the currently queued control events without blocking, in queue
/// order and at most a batch at a time, and reports whether every producer
/// endpoint is gone.
fn collect_pending(receiver: &Receiver<GBEvent>) -> (r: (Vec<GBEvent>, bool)) {
    let mut events: Vec<GBEvent> = Vec::new();
    let mut n: usize = 0;
    while n < DRAIN_BATCH_MAX
        invariant
            n <= DRAIN_BATCH_MAX,
        decreases DRAIN_BATCH_MAX - n,
    {
        match try_recv_event(receiver) {
            PolledEvent::Received(ev) => events.push(ev),
            PolledEvent::Empty => {
                return (events, false);
            },
            PolledEvent::Disconnected => {
                return (events, true);
            },
        }
        n = n + 1;
    }
    (events, false)
}

/// Drains all currently queued control events and applies them to the
/// engine, in order, without blocking; returns false when the loop must
/// end, because a stop request arrived or the event producers are gone.
///
/// Whatever the queue held, the engine's history grows by the operations of
/// some event sequence applied in order, and the pacing flag follows that
/// same sequence.
pub fn drain_events<E: Engine>(cpu: &mut E, limit_speed: &mut bool, receiver: &Receiver<GBEvent>) -> (keep_running: bool)
    requires
        old(cpu).wf(),
    ensures
        final(cpu).wf(),
        final(cpu).step_bound() == old(cpu).step_bound(),
        exists|evs: Seq<GBEvent>|
            final(cpu).history() == old(cpu).history() + #[trigger] ops_of_events(evs)
                && *final(limit_speed) == limit_after(evs, *old(limit_speed)),
{
    let (events, disconnected) = collect_pending(receiver);
    let stopped = apply_events(cpu, limit_speed, &events);
    proof {
        if stopped {
            let i = choose|i: int|
                {
                    &&& 0 <= i < events@.len()
                    &&& (#[trigger] events@[i]) is Stop
                    &&& stop_free(events@.take(i))
                    &&& cpu.history() == old(cpu).history() + ops_of_events(events@.take(i))
                    &&& *limit_speed == limit_after(events@.take(i), *old(limit_speed))
                };
            assert(cpu.history() == old(cpu).history() + ops_of_events(events@.take(i)));
        } else {
            assert(cpu.history() == old(cpu).history() + ops_of_events(events@));
        }
    }
    !stopped && !disconnected
}

/// The one publish outcome that ends the run: a vanished consumer. A
/// still-occupied slot merely drops this frame — latest wins, no retry, no
/// termination — and a delivered frame continues likewise.
pub fn publish_ends_run(outcome: &PublishOutcome) -> (r: bool)
    ensures
        r == (outcome is Disconnected),
{
    matches!(outcome, PublishOutcome::Disconnected)
}

/// Advances the engine until the accumulated cycle count reaches the
/// budget of one tick, publishing any frame that becomes ready along the
/// way, then pays the budget down and keeps the remainder as carry.
///
/// A publish never blocks: a still-occupied slot drops the frame
/// (`publish_ends_run`), and only a vanished consumer ends the run (alive
/// == false). The contract accounts for every cycle: the cycles newly
/// recorded in the engine's history equal the budget plus the change in
/// carry, and at normal entry (carry below budget) the carry handed on
/// stays below one engine step. A round whose entry carry already covers
/// the budget owes no engine step and no publish: it always survives, and
/// the accounting then pins the carry to exactly the budget paid down.
pub fn run_one_budget<E: Engine>(cpu: &mut E, acc: &mut u64, sender: &SyncSender<Vec<u8>>) -> (alive: bool)
    requires
        old(cpu).wf(),
        *old(acc) < 0x1_0000_0000,
    ensures
        final(cpu).wf(),
        final(cpu).step_bound() == old(cpu).step_bound(),
        old(cpu).history().is_prefix_of(final(cpu).history()),
        all_advances(final(cpu).history().skip(old(cpu).history().len() as int)),
        alive ==> *old(acc) + advance_total(
            final(cpu).history().skip(old(cpu).history().len() as int),
        ) == *final(acc) + CYCLE_BUDGET,
        !alive ==> *old(acc) + advance_total(
            final(cpu).history().skip(old(cpu).history().len() as int),
        ) == *final(acc),
        alive ==> *final(acc) < 0x1_0000_0000,
        (alive && *old(acc) < CYCLE_BUDGET) ==> (*final(acc) as int) < old(cpu).step_bound() as int,
        *old(acc) >= CYCLE_BUDGET ==> alive,
{
    let ghost h0 = cpu.history();
    let ghost bound = cpu.step_bound();
    let ghost t0 = *acc;
    let mut t: u64 = *acc;
    while t < CYCLE_BUDGET
        invariant
            cpu.wf(),
            cpu.step_bound() == bound,
            bound == old(cpu).step_bound(),
            h0 == old(cpu).history(),
            t0 == *old(acc),
            t0 < 0x1_0000_0000,
            h0.is_prefix_of(cpu.history()),
            all_advances(cpu.history().skip(h0.len() as int)),
            t0 + advance_total(cpu.history().skip(h0.len() as int)) == t,
            t == t0 || (t as int) < CYCLE_BUDGET as int + bound as int,
            t0 >= CYCLE_BUDGET ==> t == t0,
        decreases vstd::math::max(0, CYCLE_BUDGET as int - t as int),
    {
        let ghost prev = cpu.history();
        let ghost delta_old = prev.skip(h0.len() as int);
        let c = cpu.advance_cycles();
        proof {
            let op = EngineOp::Advance(c);
            assert(cpu.history().skip(h0.len() as int) =~= delta_old.push(op));
            assert(delta_old.push(op).drop_last() =~= delta_old);
            assert(h0 =~= cpu.history().take(h0.len() as int));
        }
        t = t + (c as u64);
        if cpu.frame_ready() {
            let frame = cpu.snapshot_frame();
            let outcome = try_send_frame(sender, frame);
            if publish_ends_run(&outcome) {
                *acc = t;
                return false;
            }
        }
    }
    *acc = t - CYCLE_BUDGET;
    true
}

/// The scheduler: owns the engine, the frame producer, the event consumer
/// and the wall-clock tick source, and runs until termination.
///
/// Each round runs one cycle budget, drains and applies the queued control
/// events, and then — unless fast-forward is active — blocks until the next
/// wall-clock tick. Excess ticks are not queued by the single-slot tick
/// channel, so a late round is never followed by a burst. The loop exits
/// only when a stop event arrives, the event producers are gone, or the
/// frame consumer is gone; the caller observes the exit through its own
/// pipeline endpoints disconnecting, and every resource passed in is
/// released here.
pub fn run_cpu<E: Engine>(
    cpu: Box<E>,
    sender: SyncSender<Vec<u8>>,
    receiver: Receiver<GBEvent>,
    tick_source: Receiver<()>,
)
    requires
        (*cpu).wf(),
{
    let mut cpu = cpu;
    let mut limit_speed: bool = true;
    let mut ticks: u64 = 0;
    // One round per tick: the round counter's bound lies beyond any
    // physical session and only makes the loop's progress provable.
    let mut rounds: u64 = 0;
    while rounds < u64::MAX
        invariant
            (*cpu).wf(),
            ticks < 0x1_0000_0000,
        decreases u64::MAX - rounds,
    {
        let alive = run_one_budget(&mut *cpu, &mut ticks, &sender);
        if !alive {
            return ;
        }
        let keep_running = drain_events(&mut *cpu, &mut limit_speed, &receiver);
        if !keep_running {
            return ;
        }
        if limit_speed {
            let _ = wait_tick(&tick_source);
        }
        rounds = rounds + 1;
    }
}

/// Cycle total of a sequence of per-round executed-cycle counts.
pub open spec fn total_cycles(executed: Seq<int>) -> int
    decreases executed.len(),
{
    if executed.len() == 0 {
        0
    } else {
        total_cycles(executed.drop_last()) + executed.last()
    }
}

/// Law (bounded-error pacing): take a run of budget rounds where round `i`
/// starts with cycle carry `carries[i]`, executes `executed[i]` cycles and
/// hands carry `carries[i + 1]` on — the relation `run_one_budget` ensures
/// of every surviving round. If the run starts with no carry and every
/// later carry stays below the engine's step bound — as `run_one_budget`
/// ensures, each round's overshoot being less than one engine step — then
/// the cycles executed across the whole run equal the number of rounds
/// times `CYCLE_BUDGET` plus the final carry, and so lie within one engine
/// step above the nominal total.
pub proof fn lemma_pacing_accuracy(executed: Seq<int>, carries: Seq<int>, bound: int)
    requires
        carries.len() == executed.len() + 1,
        carries[0] == 0,
        bound >= 1,
        forall|i: int| 0 <= i < executed.len() ==> carries[i] + executed[i] == #[trigger] carries[
            i + 1
        ] + CYCLE_BUDGET,
        forall|i: int| 1 <= i <= executed.len() ==> 0 <= #[trigger] carries[i] < bound,
    ensures
        total_cycles(executed) == executed.len() * (CYCLE_BUDGET as int) + carries[
            executed.len() as int
        ],
        executed.len() * (CYCLE_BUDGET as int) <= total_cycles(executed) < executed.len() * (
        CYCLE_BUDGET as int) + bound,
    decreases executed.len(),
{
    if executed.len() == 0 {
    } else {
        let n = executed.len() as int;
        let ex0 = executed.drop_last();
        let ca0 = carries.drop_last();
        assert forall|i: int| 0 <= i < ex0.len() implies ca0[i] + ex0[i] == #[trigger] ca0[i + 1]
            + CYCLE_BUDGET by {
            assert(carries[i] + executed[i] == carries[i + 1] + CYCLE_BUDGET);
        }
        assert forall|i: int| 1 <= i <= ex0.len() implies 0 <= #[trigger] ca0[i] < bound by {
            assert(0 <= carries[i] < bound);
        }
        lemma_pacing_accuracy(ex0, ca0, bound);
        assert(carries[n - 1] + executed[n - 1] == carries[n] + CYCLE_BUDGET);
        assert(total_cycles(executed) == total_cycles(ex0) + executed.last());
        assert(n * (CYCLE_BUDGET as int) == (n - 1) * (CYCLE_BUDGET as int) + CYCLE_BUDGET as int)
            by (nonlinear_arith);
    }
}

} // verus!
