use damon::supervisor::{
    broadcast_invocation, classify, launch_invocation, plan_tick, quit_invocation,
    save_invocation, Action, Config, Effect, Event, Health, Invocation, Phase, Supervisor,
    EXIT_SUCCESS, LAUNCH_DELAY_SECS, TICK_SECS,
};

fn config(threshold: u64) -> Config {
    Config {
        server_path: "C:\\pal\\PalServer.exe".to_string(),
        server_cli_process_name: "PalServer-Win64".to_string(),
        memory_thresholds: threshold,
    }
}

fn inv(program: &str, args: &[&str]) -> Invocation {
    Invocation { program: program.to_string(), args: args.iter().map(|a| a.to_string()).collect() }
}

fn warning() -> Invocation {
    inv("bin/palworld_rcon", &["bcast", "server_will_restart_in_60_seconds."])
}

fn start_tick(s: &mut Supervisor) {
    assert_eq!(s.phase(), Phase::AwaitTick);
    assert_eq!(s.handle(Event::TickStarted { cancelled: false }), Action::ScanProcesses);
    assert_eq!(s.phase(), Phase::AwaitScan);
}

#[test]
fn classify_each_state() {
    assert_eq!(classify(false, None, 500), Health::Absent);
    assert_eq!(classify(false, Some(10), 500), Health::Absent);
    assert_eq!(classify(true, Some(499), 500), Health::PresentLow);
    assert_eq!(classify(true, Some(500), 500), Health::PresentHealthy);
    assert_eq!(classify(true, Some(8000), 500), Health::PresentHealthy);
    assert_eq!(classify(true, None, 500), Health::PresentHealthy);
    assert_eq!(classify(true, Some(0), 0), Health::PresentHealthy);
}

#[test]
fn invocations_name_the_fixed_commands() {
    assert_eq!(
        launch_invocation("D:\\srv\\PalServer.exe"),
        inv("D:\\srv\\PalServer.exe", &["-useperfthreads", "-NoAsyncLoadingThread", "-UseMultithreadForDS"])
    );
    assert_eq!(broadcast_invocation(), warning());
    assert_eq!(save_invocation(), inv("bin/palworld_rcon", &["save"]));
    assert_eq!(quit_invocation(), inv("bin/palworld_rcon", &["q"]));
}

#[test]
fn absent_server_is_launched_once_after_delay() {
    let mut s = Supervisor::new(config(1000));
    start_tick(&mut s);
    let action = s.handle(Event::Scanned { present: false });
    assert_eq!(
        action,
        Action::Perform(vec![
            Effect::Sleep(3),
            Effect::Launch(inv(
                "C:\\pal\\PalServer.exe",
                &["-useperfthreads", "-NoAsyncLoadingThread", "-UseMultithreadForDS"]
            )),
            Effect::Sleep(1),
        ])
    );
    assert_eq!(LAUNCH_DELAY_SECS, 3);
    assert_eq!(s.phase(), Phase::AwaitTick);
}

#[test]
fn low_memory_triggers_restart_sequence() {
    let mut s = Supervisor::new(config(1000));
    start_tick(&mut s);
    assert_eq!(s.handle(Event::Scanned { present: true }), Action::MeasureMemory);
    assert_eq!(s.phase(), Phase::AwaitMemory);
    let action = s.handle(Event::Measured { available_mb: Some(999) });
    assert_eq!(
        action,
        Action::Perform(vec![
            Effect::Detach(warning()),
            Effect::Detach(warning()),
            Effect::Detach(warning()),
            Effect::Spawn(inv("bin/palworld_rcon", &["save"])),
            Effect::Spawn(inv("bin/palworld_rcon", &["q"])),
            Effect::Sleep(1),
        ])
    );
    assert_eq!(s.phase(), Phase::AwaitTick);
}

#[test]
fn low_memory_fires_again_on_next_tick() {
    let mut s = Supervisor::new(config(1000));
    for _ in 0..2 {
        start_tick(&mut s);
        assert_eq!(s.handle(Event::Scanned { present: true }), Action::MeasureMemory);
        match s.handle(Event::Measured { available_mb: Some(10) }) {
            Action::Perform(effects) => assert_eq!(effects.len(), 6),
            other => panic!("unexpected action {:?}", other),
        }
    }
}

#[test]
fn memory_at_threshold_is_healthy() {
    let mut s = Supervisor::new(config(1000));
    start_tick(&mut s);
    assert_eq!(s.handle(Event::Scanned { present: true }), Action::MeasureMemory);
    assert_eq!(
        s.handle(Event::Measured { available_mb: Some(1000) }),
        Action::Perform(vec![Effect::Sleep(TICK_SECS)])
    );
}

#[test]
fn failed_measurement_is_healthy() {
    let mut s = Supervisor::new(config(1000));
    start_tick(&mut s);
    assert_eq!(s.handle(Event::Scanned { present: true }), Action::MeasureMemory);
    assert_eq!(
        s.handle(Event::Measured { available_mb: None }),
        Action::Perform(vec![Effect::Sleep(1)])
    );
}

#[test]
fn healthy_ticks_repeat_without_side_effects() {
    let mut s = Supervisor::new(config(1000));
    for reading in [Some(4000), None, Some(1000), Some(u64::MAX)] {
        start_tick(&mut s);
        assert_eq!(s.handle(Event::Scanned { present: true }), Action::MeasureMemory);
        assert_eq!(
            s.handle(Event::Measured { available_mb: reading }),
            Action::Perform(vec![Effect::Sleep(1)])
        );
        assert_eq!(s.phase(), Phase::AwaitTick);
    }
}

#[test]
fn cancellation_exits_with_success() {
    let mut s = Supervisor::new(config(1000));
    let action = s.handle(Event::TickStarted { cancelled: true });
    assert_eq!(action, Action::Exit { message: "Exiting...".to_string(), code: 0 });
    assert_eq!(EXIT_SUCCESS, 0);
    assert_eq!(s.phase(), Phase::Stopped);
    assert_eq!(s.handle(Event::TickStarted { cancelled: false }), Action::Ignore);
    assert_eq!(s.handle(Event::Scanned { present: false }), Action::Ignore);
    assert_eq!(s.handle(Event::Measured { available_mb: Some(0) }), Action::Ignore);
    assert_eq!(s.phase(), Phase::Stopped);
}

#[test]
fn cancellation_after_some_ticks() {
    let mut s = Supervisor::new(config(1000));
    start_tick(&mut s);
    s.handle(Event::Scanned { present: false });
    assert_eq!(
        s.handle(Event::TickStarted { cancelled: true }),
        Action::Exit { message: "Exiting...".to_string(), code: 0 }
    );
}

#[test]
fn events_out_of_order_are_ignored() {
    let mut s = Supervisor::new(config(1000));
    assert_eq!(s.handle(Event::Scanned { present: true }), Action::Ignore);
    assert_eq!(s.handle(Event::Measured { available_mb: Some(1) }), Action::Ignore);
    assert_eq!(s.phase(), Phase::AwaitTick);
    start_tick(&mut s);
    assert_eq!(s.handle(Event::TickStarted { cancelled: true }), Action::Ignore);
    assert_eq!(s.phase(), Phase::AwaitScan);
}

#[test]
fn plan_tick_for_each_state() {
    let c = config(200);
    assert_eq!(plan_tick(Health::PresentHealthy, &c), vec![Effect::Sleep(1)]);
    assert_eq!(plan_tick(Health::Absent, &c).len(), 3);
    assert_eq!(plan_tick(Health::PresentLow, &c).len(), 6);
}

#[test]
fn supervisor_keeps_its_config() {
    let mut s = Supervisor::new(config(321));
    start_tick(&mut s);
    s.handle(Event::Scanned { present: false });
    assert_eq!(s.config(), &config(321));
}
