//! What the supervisor does over whole ticks and runs of ticks.
use vstd::prelude::*;

use crate::supervisor::{
    broadcast_warning, exit_message, health_of, quit_command, save_command, server_launch, step,
    ActionView, ConfigView, EffectView, Event, Health, Phase, EXIT_SUCCESS, LAUNCH_DELAY_SECS,
    TICK_SECS,
};

verus! {

/// The phase reached and the actions taken when the supervisor, in `phase`,
/// is handed `events` one after another.
pub open spec fn run(phase: Phase, events: Seq<Event>, cfg: ConfigView) -> (Phase, Seq<ActionView>)
    decreases events.len(),
{
    if events.len() == 0 {
        (phase, Seq::empty())
    } else {
        let first = step(phase, events[0], cfg);
        let rest = run(first.0, events.drop_first(), cfg);
        (rest.0, seq![first.1] + rest.1)
    }
}

/// The events of a tick, not cancelled, that finds the server absent.
pub open spec fn absent_tick() -> Seq<Event> {
    seq![Event::TickStarted { cancelled: false }, Event::Scanned { present: false }]
}

/// The events of a tick, not cancelled, that finds the server running and
/// reads `available_mb` of available memory (`None`: the query failed).
pub open spec fn present_tick(available_mb: Option<u64>) -> Seq<Event> {
    seq![
        Event::TickStarted { cancelled: false },
        Event::Scanned { present: true },
        Event::Measured { available_mb },
    ]
}

/// Consecutive ticks that each find the server running, with these readings.
pub open spec fn present_ticks(readings: Seq<Option<u64>>) -> Seq<Event>
    decreases readings.len(),
{
    if readings.len() == 0 {
        Seq::empty()
    } else {
        present_tick(readings[0]) + present_ticks(readings.drop_first())
    }
}

/// The action starts no program and ends nothing: at most it sleeps.
pub open spec fn no_outside_effect(action: ActionView) -> bool {
    match action {
        ActionView::Perform(effects) => forall|i: int|
            0 <= i < effects.len() ==> #[trigger] effects[i] is Sleep,
        ActionView::Exit { .. } => false,
        _ => true,
    }
}

/// Running two event sequences one after the other is running their
/// concatenation.
pub proof fn lemma_run_append(phase: Phase, a: Seq<Event>, b: Seq<Event>, cfg: ConfigView)
    ensures
        run(phase, a + b, cfg) == (
            run(run(phase, a, cfg).0, b, cfg).0,
            run(phase, a, cfg).1 + run(run(phase, a, cfg).0, b, cfg).1,
        ),
    decreases a.len(),
{
    if a.len() == 0 {
        assert(a + b =~= b);
        assert(run(phase, a, cfg).1 + run(phase, b, cfg).1 =~= run(phase, b, cfg).1);
    } else {
        let first = step(phase, a[0], cfg);
        assert((a + b).drop_first() =~= a.drop_first() + b);
        lemma_run_append(first.0, a.drop_first(), b, cfg);
        let ra = run(first.0, a.drop_first(), cfg);
        let rb = run(ra.0, b, cfg);
        assert(seq![first.1] + (ra.1 + rb.1) =~= (seq![first.1] + ra.1) + rb.1);
    }
}

/// Handing over a single event is one step.
pub proof fn lemma_run_single(phase: Phase, e: Event, cfg: ConfigView)
    ensures
        run(phase, seq![e], cfg) == (step(phase, e, cfg).0, seq![step(phase, e, cfg).1]),
{
    let first = step(phase, e, cfg);
    assert(seq![e].drop_first() =~= Seq::<Event>::empty());
    assert(seq![e][0] == e);
    assert(run(first.0, Seq::<Event>::empty(), cfg) == (first.0, Seq::<ActionView>::empty()));
    assert(seq![first.1] + Seq::<ActionView>::empty() =~= seq![first.1]);
}

/// Handing over two events is two steps.
pub proof fn lemma_run_pair(phase: Phase, e0: Event, e1: Event, cfg: ConfigView)
    ensures
        run(phase, seq![e0] + seq![e1], cfg) == (
            step(step(phase, e0, cfg).0, e1, cfg).0,
            seq![step(phase, e0, cfg).1, step(step(phase, e0, cfg).0, e1, cfg).1],
        ),
{
    let s0 = step(phase, e0, cfg);
    lemma_run_single(phase, e0, cfg);
    lemma_run_single(s0.0, e1, cfg);
    lemma_run_append(phase, seq![e0], seq![e1], cfg);
    assert(seq![s0.1] + seq![step(s0.0, e1, cfg).1] =~= seq![s0.1, step(s0.0, e1, cfg).1]);
}

/// A tick that finds the server absent waits the launch delay, starts the
/// server exactly once, at the configured path with its three fixed flags,
/// sleeps the tick's second, and ends ready for the next tick.
pub proof fn absent_tick_launches_once(cfg: ConfigView)
    ensures
        run(Phase::AwaitTick, absent_tick(), cfg) == (
            Phase::AwaitTick,
            seq![
                ActionView::ScanProcesses,
                ActionView::Perform(
                    seq![
                        EffectView::Sleep(LAUNCH_DELAY_SECS),
                        EffectView::Launch(server_launch(cfg.server_path)),
                        EffectView::Sleep(TICK_SECS),
                    ],
                ),
            ],
        ),
        LAUNCH_DELAY_SECS >= 3,
        server_launch(cfg.server_path).program == cfg.server_path,
        server_launch(cfg.server_path).args.len() == 3,
{
    lemma_run_pair(
        Phase::AwaitTick,
        Event::TickStarted { cancelled: false },
        Event::Scanned { present: false },
        cfg,
    );
    assert(absent_tick() =~= seq![Event::TickStarted { cancelled: false }] + seq![
        Event::Scanned { present: false },
    ]);
}

/// Handing over three events is three steps.
pub proof fn lemma_run_triple(phase: Phase, e0: Event, e1: Event, e2: Event, cfg: ConfigView)
    ensures
        ({
            let s0 = step(phase, e0, cfg);
            let s1 = step(s0.0, e1, cfg);
            let s2 = step(s1.0, e2, cfg);
            run(phase, seq![e0, e1, e2], cfg) == (s2.0, seq![s0.1, s1.1, s2.1])
        }),
{
    let s0 = step(phase, e0, cfg);
    let s1 = step(s0.0, e1, cfg);
    let s2 = step(s1.0, e2, cfg);
    lemma_run_pair(phase, e0, e1, cfg);
    lemma_run_single(s1.0, e2, cfg);
    lemma_run_append(phase, seq![e0] + seq![e1], seq![e2], cfg);
    assert(seq![e0] + seq![e1] + seq![e2] =~= seq![e0, e1, e2]);
    assert(seq![s0.1, s1.1] + seq![s2.1] =~= seq![s0.1, s1.1, s2.1]);
}

/// A tick that finds the server running with available memory below the
/// threshold warns three times through detached workers, all with the same
/// message, then asks the server to save and after that to quit, sleeps the
/// tick's second, and ends ready for the next tick. Nothing is launched.
pub proof fn low_memory_tick_restarts(cfg: ConfigView, available_mb: u64)
    requires
        available_mb < cfg.threshold,
    ensures
        run(Phase::AwaitTick, present_tick(Some(available_mb)), cfg) == (
            Phase::AwaitTick,
            seq![
                ActionView::ScanProcesses,
                ActionView::MeasureMemory,
                ActionView::Perform(
                    seq![
                        EffectView::Detach(broadcast_warning()),
                        EffectView::Detach(broadcast_warning()),
                        EffectView::Detach(broadcast_warning()),
                        EffectView::Spawn(save_command()),
                        EffectView::Spawn(quit_command()),
                        EffectView::Sleep(TICK_SECS),
                    ],
                ),
            ],
        ),
{
    lemma_run_triple(
        Phase::AwaitTick,
        Event::TickStarted { cancelled: false },
        Event::Scanned { present: true },
        Event::Measured { available_mb: Some(available_mb) },
        cfg,
    );
    assert(health_of(true, Some(available_mb), cfg.threshold) == Health::PresentLow);
}

/// A tick that finds the server running with enough memory, or that could
/// not measure it, only sleeps the tick's second: it broadcasts, saves, quits
/// and launches nothing.
pub proof fn healthy_tick_is_quiet(cfg: ConfigView, available_mb: Option<u64>)
    requires
        available_mb matches Some(mb) ==> mb >= cfg.threshold,
    ensures
        run(Phase::AwaitTick, present_tick(available_mb), cfg) == (
            Phase::AwaitTick,
            seq![
                ActionView::ScanProcesses,
                ActionView::MeasureMemory,
                ActionView::Perform(seq![EffectView::Sleep(TICK_SECS)]),
            ],
        ),
{
    lemma_run_triple(
        Phase::AwaitTick,
        Event::TickStarted { cancelled: false },
        Event::Scanned { present: true },
        Event::Measured { available_mb },
        cfg,
    );
    assert(health_of(true, available_mb, cfg.threshold) == Health::PresentHealthy);
}

/// Once the loop has stopped, every later event is ignored.
pub proof fn stopped_ignores_all(events: Seq<Event>, cfg: ConfigView)
    ensures
        run(Phase::Stopped, events, cfg) == (
            Phase::Stopped,
            Seq::new(events.len(), |i: int| ActionView::Ignore),
        ),
    decreases events.len(),
{
    if events.len() == 0 {
        assert(Seq::new(0, |i: int| ActionView::Ignore) =~= Seq::<ActionView>::empty());
    } else {
        stopped_ignores_all(events.drop_first(), cfg);
        assert(seq![ActionView::Ignore] + Seq::new(
            events.drop_first().len(),
            |i: int| ActionView::Ignore,
        ) =~= Seq::new(events.len(), |i: int| ActionView::Ignore));
    }
}

/// A tick that begins with the cancellation flag set prints the final
/// message and ends the process with success status; whatever happens
/// afterwards, the supervisor takes no further action.
pub proof fn cancelled_tick_stops(cfg: ConfigView, later: Seq<Event>)
    ensures
        run(Phase::AwaitTick, seq![Event::TickStarted { cancelled: true }] + later, cfg) == (
            Phase::Stopped,
            seq![ActionView::Exit { message: exit_message(), code: EXIT_SUCCESS }] + Seq::new(
                later.len(),
                |i: int| ActionView::Ignore,
            ),
        ),
        EXIT_SUCCESS == 0,
        exit_message() == "Exiting..."@,
{
    let first = Event::TickStarted { cancelled: true };
    lemma_run_single(Phase::AwaitTick, first, cfg);
    stopped_ignores_all(later, cfg);
    lemma_run_append(Phase::AwaitTick, seq![first], later, cfg);
}

/// Any number of ticks that find the server running and healthy (enough
/// memory, or a failed measurement) start no program and end nothing; the
/// loop is back at the start of a tick after each of them.
pub proof fn healthy_ticks_are_idempotent(cfg: ConfigView, readings: Seq<Option<u64>>)
    requires
        forall|i: int|
            0 <= i < readings.len() ==> (#[trigger] readings[i] matches Some(mb) ==> mb
                >= cfg.threshold),
    ensures
        run(Phase::AwaitTick, present_ticks(readings), cfg).0 == Phase::AwaitTick,
        run(Phase::AwaitTick, present_ticks(readings), cfg).1.len() == 3 * readings.len(),
        forall|i: int|
            0 <= i < run(Phase::AwaitTick, present_ticks(readings), cfg).1.len()
                ==> #[trigger] no_outside_effect(
                run(Phase::AwaitTick, present_ticks(readings), cfg).1[i],
            ),
    decreases readings.len(),
{
    if readings.len() == 0 {
    } else {
        let rest = readings.drop_first();
        assert forall|i: int| 0 <= i < rest.len() implies (#[trigger] rest[i] matches Some(mb)
            ==> mb >= cfg.threshold) by {
            assert(rest[i] == readings[i + 1]);
        }
        healthy_ticks_are_idempotent(cfg, rest);
        healthy_tick_is_quiet(cfg, readings[0]);
        lemma_run_append(Phase::AwaitTick, present_tick(readings[0]), present_ticks(rest), cfg);
        let head = run(Phase::AwaitTick, present_tick(readings[0]), cfg).1;
        let tail = run(Phase::AwaitTick, present_ticks(rest), cfg).1;
        assert(no_outside_effect(head[2]));
        assert forall|i: int| 0 <= i < (head + tail).len() implies #[trigger] no_outside_effect(
            (head + tail)[i],
        ) by {
            if i < 3 {
                assert((head + tail)[i] == head[i]);
            } else {
                assert((head + tail)[i] == tail[i - 3]);
            }
        }
    }
}

} // verus!
