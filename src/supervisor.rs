//! The supervisor's poll loop as a state machine.
//!
//! The loop itself, with its sleeps, operating-system queries and child
//! processes, is driven from outside: the driver hands each observation to
//! [`Supervisor::handle`] as an [`Event`] and carries out the [`Action`] it
//! gets back. Every decision of the loop is made here.
use vstd::prelude::*;

verus! {

/// Seconds the loop sleeps after each tick.
pub const TICK_SECS: u64 = 1;

/// Seconds the loop waits, on finding the server absent, before launching it.
pub const LAUNCH_DELAY_SECS: u64 = 3;

/// Exit status of a shutdown through the cancellation flag.
pub const EXIT_SUCCESS: i32 = 0;

/// What the supervisor is configured with, read once at startup.
#[derive(Clone, Debug, PartialEq, Eq)]
pub struct Config {
    /// Path of the server executable that is launched when it is absent.
    pub server_path: String,
    /// Fragment that the server's image path contains (case-sensitive).
    pub server_cli_process_name: String,
    /// Available memory, in megabytes, below which the server is restarted.
    pub memory_thresholds: u64,
}

pub struct ConfigView {
    pub server_path: Seq<char>,
    pub process_name: Seq<char>,
    pub threshold: u64,
}

impl View for Config {
    type V = ConfigView;

    open spec fn view(&self) -> ConfigView {
        ConfigView {
            server_path: self.server_path@,
            process_name: self.server_cli_process_name@,
            threshold: self.memory_thresholds,
        }
    }
}

/// One run of an external program with its arguments; the child is never
/// waited for.
#[derive(Clone, Debug, PartialEq, Eq)]
pub struct Invocation {
    pub program: String,
    pub args: Vec<String>,
}

pub struct InvocationView {
    pub program: Seq<char>,
    pub args: Seq<Seq<char>>,
}

impl View for Invocation {
    type V = InvocationView;

    open spec fn view(&self) -> InvocationView {
        InvocationView { program: self.program@, args: self.args@.map_values(|a: String| a@) }
    }
}

/// One thing the driver does, in order, while carrying out a tick's decision.
#[derive(Clone, Debug, PartialEq, Eq)]
pub enum Effect {
    /// Block the loop for this many seconds.
    Sleep(u64),
    /// Start the server; a failure is reported and the loop goes on.
    Launch(Invocation),
    /// Start the program, its output discarded, from a worker thread of its
    /// own that is not joined.
    Detach(Invocation),
    /// Start the program, its output discarded, from the loop's thread; a
    /// failure is reported and the sequence goes on.
    Spawn(Invocation),
}

pub enum EffectView {
    Sleep(u64),
    Launch(InvocationView),
    Detach(InvocationView),
    Spawn(InvocationView),
}

impl View for Effect {
    type V = EffectView;

    open spec fn view(&self) -> EffectView {
        match self {
            Effect::Sleep(s) => EffectView::Sleep(*s),
            Effect::Launch(i) => EffectView::Launch(i@),
            Effect::Detach(i) => EffectView::Detach(i@),
            Effect::Spawn(i) => EffectView::Spawn(i@),
        }
    }
}

/// Where the loop stands.
#[derive(Clone, Copy, PartialEq, Eq, Structural, Debug)]
pub enum Phase {
    /// At the start of a tick, about to read the cancellation flag.
    AwaitTick,
    /// Waiting for the outcome of the process scan.
    AwaitScan,
    /// Waiting for the available-memory reading.
    AwaitMemory,
    /// The loop has ended; nothing more happens.
    Stopped,
}

/// What the driver observed.
#[derive(Clone, Copy, PartialEq, Eq, Structural, Debug)]
pub enum Event {
    /// A tick begins; `cancelled` is the current value of the cancellation flag.
    TickStarted { cancelled: bool },
    /// The process scan finished; `present` tells whether the server runs.
    Scanned { present: bool },
    /// The memory query finished, with the available megabytes, or `None`
    /// when the query failed.
    Measured { available_mb: Option<u64> },
}

/// What the driver is to do next.
#[derive(Clone, Debug, PartialEq, Eq)]
pub enum Action {
    /// Print `message` and end the process with status `code`.
    Exit { message: String, code: i32 },
    /// Scan the running processes and report `Event::Scanned`.
    ScanProcesses,
    /// Query the available memory and report `Event::Measured`.
    MeasureMemory,
    /// Carry out these effects in order, then start the next tick.
    Perform(Vec<Effect>),
    /// The event did not fit the phase (or the loop has ended): do nothing.
    Ignore,
}

pub enum ActionView {
    Exit { message: Seq<char>, code: i32 },
    ScanProcesses,
    MeasureMemory,
    Perform(Seq<EffectView>),
    Ignore,
}

impl View for Action {
    type V = ActionView;

    open spec fn view(&self) -> ActionView {
        match self {
            Action::Exit { message, code } => ActionView::Exit { message: message@, code: *code },
            Action::ScanProcesses => ActionView::ScanProcesses,
            Action::MeasureMemory => ActionView::MeasureMemory,
            Action::Perform(effects) => ActionView::Perform(
                effects@.map_values(|e: Effect| e@),
            ),
            Action::Ignore => ActionView::Ignore,
        }
    }
}

/// The state of the server as one tick sees it.
#[derive(Clone, Copy, PartialEq, Eq, Structural, Debug)]
pub enum Health {
    /// The server is not running.
    Absent,
    /// The server runs and memory is sufficient, or could not be measured.
    PresentHealthy,
    /// The server runs and available memory is below the threshold.
    PresentLow,
}

pub open spec fn health_of(present: bool, available_mb: Option<u64>, threshold: u64) -> Health {
    if !present {
        Health::Absent
    } else {
        match available_mb {
            Some(mb) => if mb < threshold {
                Health::PresentLow
            } else {
                Health::PresentHealthy
            },
            None => Health::PresentHealthy,
        }
    }
}

/// The external control program that takes the server's commands.
pub open spec fn control_program() -> Seq<char> {
    "bin/palworld_rcon"@
}

/// The warning broadcast to the server's players before a restart.
pub open spec fn warning_message() -> Seq<char> {
    "server_will_restart_in_60_seconds."@
}

/// The message printed when the loop ends.
pub open spec fn exit_message() -> Seq<char> {
    "Exiting..."@
}

/// Starting the server: its path with the three fixed flags.
pub open spec fn server_launch(path: Seq<char>) -> InvocationView {
    InvocationView {
        program: path,
        args: seq!["-useperfthreads"@, "-NoAsyncLoadingThread"@, "-UseMultithreadForDS"@],
    }
}

/// One broadcast of the restart warning through the control program.
pub open spec fn broadcast_warning() -> InvocationView {
    InvocationView { program: control_program(), args: seq!["bcast"@, warning_message()] }
}

/// Asking the server, through the control program, to save.
pub open spec fn save_command() -> InvocationView {
    InvocationView { program: control_program(), args: seq!["save"@] }
}

/// Asking the server, through the control program, to quit.
pub open spec fn quit_command() -> InvocationView {
    InvocationView { program: control_program(), args: seq!["q"@] }
}

/// The effects of a tick that found the server in the given state.
pub open spec fn tick_effects(health: Health, cfg: ConfigView) -> Seq<EffectView> {
    match health {
        Health::Absent => seq![
            EffectView::Sleep(LAUNCH_DELAY_SECS),
            EffectView::Launch(server_launch(cfg.server_path)),
            EffectView::Sleep(TICK_SECS),
        ],
        Health::PresentLow => seq![
            EffectView::Detach(broadcast_warning()),
            EffectView::Detach(broadcast_warning()),
            EffectView::Detach(broadcast_warning()),
            EffectView::Spawn(save_command()),
            EffectView::Spawn(quit_command()),
            EffectView::Sleep(TICK_SECS),
        ],
        Health::PresentHealthy => seq![EffectView::Sleep(TICK_SECS)],
    }
}

/// One transition of the loop: the next phase and what the driver does.
pub open spec fn step(phase: Phase, event: Event, cfg: ConfigView) -> (Phase, ActionView) {
    match (phase, event) {
        (Phase::AwaitTick, Event::TickStarted { cancelled }) => if cancelled {
            (Phase::Stopped, ActionView::Exit { message: exit_message(), code: EXIT_SUCCESS })
        } else {
            (Phase::AwaitScan, ActionView::ScanProcesses)
        },
        (Phase::AwaitScan, Event::Scanned { present }) => if present {
            (Phase::AwaitMemory, ActionView::MeasureMemory)
        } else {
            (
                Phase::AwaitTick,
                ActionView::Perform(tick_effects(health_of(false, None, cfg.threshold), cfg)),
            )
        },
        (Phase::AwaitMemory, Event::Measured { available_mb }) => (
            Phase::AwaitTick,
            ActionView::Perform(tick_effects(health_of(true, available_mb, cfg.threshold), cfg)),
        ),
        _ => (phase, ActionView::Ignore),
    }
}

/// Classifies the server's state from one tick's observations. A failed
/// memory query counts as healthy, so that a measuring fault never causes a
/// restart.
pub fn classify(present: bool, available_mb: Option<u64>, threshold: u64) -> (r: Health)
    ensures
        r == health_of(present, available_mb, threshold),
{
    if !present {
        Health::Absent
    } else {
        match available_mb {
            Some(mb) => if mb < threshold {
                Health::PresentLow
            } else {
                Health::PresentHealthy
            },
            None => Health::PresentHealthy,
        }
    }
}

fn control_invocation(args: Vec<String>) -> (r: Invocation)
    ensures
        r@.program == control_program(),
        r.args == args,
{
    Invocation { program: String::from_str("bin/palworld_rcon"), args }
}

/// The invocation that starts the server at `path` with its three fixed flags.
pub fn launch_invocation(path: &str) -> (r: Invocation)
    ensures
        r@ == server_launch(path@),
{
    let mut args: Vec<String> = Vec::new();
    args.push(String::from_str("-useperfthreads"));
    args.push(String::from_str("-NoAsyncLoadingThread"));
    args.push(String::from_str("-UseMultithreadForDS"));
    let r = Invocation { program: String::from_str(path), args };
    assert(r@.args =~= seq!["-useperfthreads"@, "-NoAsyncLoadingThread"@, "-UseMultithreadForDS"@]);
    r
}

/// One broadcast of the restart warning.
pub fn broadcast_invocation() -> (r: Invocation)
    ensures
        r@ == broadcast_warning(),
{
    let mut args: Vec<String> = Vec::new();
    args.push(String::from_str("bcast"));
    args.push(String::from_str("server_will_restart_in_60_seconds."));
    let r = control_invocation(args);
    assert(r@.args =~= seq!["bcast"@, warning_message()]);
    r
}

/// The command that makes the server save.
pub fn save_invocation() -> (r: Invocation)
    ensures
        r@ == save_command(),
{
    let mut args: Vec<String> = Vec::new();
    args.push(String::from_str("save"));
    let r = control_invocation(args);
    assert(r@.args =~= seq!["save"@]);
    r
}

/// The command that makes the server quit.
pub fn quit_invocation() -> (r: Invocation)
    ensures
        r@ == quit_command(),
{
    let mut args: Vec<String> = Vec::new();
    args.push(String::from_str("q"));
    let r = control_invocation(args);
    assert(r@.args =~= seq!["q"@]);
    r
}

/// The effects of a tick that found the server in state `health`: relaunch
/// after a delay when absent, warn and shut it down when memory is low,
/// nothing but the tick's sleep when healthy.
pub fn plan_tick(health: Health, config: &Config) -> (r: Vec<Effect>)
    ensures
        r@.map_values(|e: Effect| e@) == tick_effects(health, config@),
{
    let mut effects: Vec<Effect> = Vec::new();
    match health {
        Health::Absent => {
            effects.push(Effect::Sleep(LAUNCH_DELAY_SECS));
            effects.push(Effect::Launch(launch_invocation(config.server_path.as_str())));
        },
        Health::PresentLow => {
            effects.push(Effect::Detach(broadcast_invocation()));
            effects.push(Effect::Detach(broadcast_invocation()));
            effects.push(Effect::Detach(broadcast_invocation()));
            effects.push(Effect::Spawn(save_invocation()));
            effects.push(Effect::Spawn(quit_invocation()));
        },
        Health::PresentHealthy => {},
    }
    effects.push(Effect::Sleep(TICK_SECS));
    assert(effects@.map_values(|e: Effect| e@) =~= tick_effects(health, config@));
    effects
}

/// The supervisor: its configuration and the phase of its loop.
pub struct Supervisor {
    config: Config,
    phase: Phase,
}

impl Supervisor {
    pub closed spec fn config_view(&self) -> ConfigView {
        self.config@
    }

    pub closed spec fn phase_view(&self) -> Phase {
        self.phase
    }

    /// A supervisor at the start of its first tick.
    pub fn new(config: Config) -> (r: Supervisor)
        ensures
            r.config_view() == config@,
            r.phase_view() == Phase::AwaitTick,
    {
        Supervisor { config, phase: Phase::AwaitTick }
    }

    /// The configuration the supervisor was made with.
    pub fn config(&self) -> (r: &Config)
        ensures
            r@ == self.config_view(),
    {
        &self.config
    }

    /// The phase the loop is in.
    pub fn phase(&self) -> (r: Phase)
        ensures
            r == self.phase_view(),
    {
        self.phase
    }

    /// Takes one observation of the driver and decides what to do next.
    pub fn handle(&mut self, event: Event) -> (r: Action)
        ensures
            (final(self).phase_view(), r@) == step(old(self).phase_view(), event, old(self).config_view()),
            final(self).config_view() == old(self).config_view(),
    {
        match (self.phase, event) {
            (Phase::AwaitTick, Event::TickStarted { cancelled }) => {
                if cancelled {
                    self.phase = Phase::Stopped;
                    Action::Exit { message: String::from_str("Exiting..."), code: EXIT_SUCCESS }
                } else {
                    self.phase = Phase::AwaitScan;
                    Action::ScanProcesses
                }
            },
            (Phase::AwaitScan, Event::Scanned { present }) => {
                if present {
                    self.phase = Phase::AwaitMemory;
                    Action::MeasureMemory
                } else {
                    self.phase = Phase::AwaitTick;
                    let health = classify(false, None, self.config.memory_thresholds);
                    Action::Perform(plan_tick(health, &self.config))
                }
            },
            (Phase::AwaitMemory, Event::Measured { available_mb }) => {
                self.phase = Phase::AwaitTick;
                let health = classify(true, available_mb, self.config.memory_thresholds);
                Action::Perform(plan_tick(health, &self.config))
            },
            _ => Action::Ignore,
        }
    }
}

} // verus!
