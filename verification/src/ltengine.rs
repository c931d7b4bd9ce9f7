//! The local LTEngine server: where it listens, how it is launched, the
//! steps of bringing it up, and when it has been idle long enough to stop.
//! The program around the library carries out each step that
//! [`next_start_step`] asks for: starting, polling and stopping the process.
use vstd::prelude::*;
use crate::text::{decimal, decimal_string, push_str};

verus! {

broadcast use vstd::string::group_string_axioms;

#[verifier::external_type_specification]
#[verifier::external_body]
pub struct ExChild(tokio::process::Child);

/// A local LTEngine server: how to start it, and the process when it runs.
pub struct LTEngine {
    /// The running process, if any.
    pub child: Option<tokio::process::Child>,
    /// When the engine was last asked for something.
    pub last_used: std::time::Instant,
    pub port: u16,
    pub model: String,
    pub binary_path: String,
}

impl LTEngine {
    /// An engine that is not running yet.
    pub fn new(port: u16, model: String, binary_path: String) -> (r: Self)
        ensures
            r.child is None,
            r.port == port,
            r.model == model,
            r.binary_path == binary_path,
    {
        LTEngine { child: None, last_used: crate::app::now(), port, model, binary_path }
    }

    /// The address the engine answers on.
    pub fn base_url(&self) -> (r: String)
        ensures
            r@ == base_url_of(self.port),
    {
        local_base_url(self.port)
    }

    /// Records that the engine was just used.
    pub fn touch(&mut self)
        ensures
            *final(self) == (LTEngine { last_used: final(self).last_used, ..*old(self) }),
    {
        self.last_used = crate::app::now();
    }

    /// Whether the engine, idle for `idle_nanos`, is due to be stopped.
    pub fn idle_expired(&self, idle_nanos: u128) -> (r: bool)
        ensures
            r == (self.child is Some && idle_nanos > IDLE_TIMEOUT_NANOS),
    {
        idle_expired(self.child.is_some(), idle_nanos)
    }
}

/// The port LTEngine listens on by default.
pub const DEFAULT_PORT: u16 = 5050;

/// How long, in nanoseconds, the engine may sit idle before it is stopped:
/// five minutes.
pub const IDLE_TIMEOUT_NANOS: u128 = 300_000_000_000;

/// How long, in seconds, to wait for a freshly started engine to answer.
pub const STARTUP_TIMEOUT_SECS: u64 = 120;

/// How long, in milliseconds, to wait between health checks while starting.
pub const POLL_INTERVAL_MILLIS: u64 = 500;

/// The address of an engine listening on `port`.
pub open spec fn base_url_of(port: u16) -> Seq<char> {
    "http://localhost:"@ + decimal(port as nat)
}

pub fn local_base_url(port: u16) -> (r: String)
    ensures
        r@ == base_url_of(port),
{
    let mut r = "http://localhost:".to_string();
    let digits = decimal_string(port as u64);
    push_str(&mut r, digits.as_str());
    r
}

/// Where translations are posted.
pub fn translate_url(port: u16) -> (r: String)
    ensures
        r@ == base_url_of(port) + "/translate"@,
{
    let mut r = local_base_url(port);
    push_str(&mut r, "/translate");
    r
}

/// What the health check asks for.
pub fn health_url(port: u16) -> (r: String)
    ensures
        r@ == base_url_of(port) + "/languages"@,
{
    let mut r = local_base_url(port);
    push_str(&mut r, "/languages");
    r
}

/// The arguments the engine is started with: the model and the port.
pub fn launch_args(model: &str, port: u16) -> (r: Vec<String>)
    ensures
        r@.len() == 4,
        r@[0]@ == "-m"@,
        r@[1]@ == model@,
        r@[2]@ == "-p"@,
        r@[3]@ == decimal(port as nat),
{
    let mut r: Vec<String> = Vec::new();
    r.push("-m".to_string());
    r.push(model.to_string());
    r.push("-p".to_string());
    r.push(decimal_string(port as u64));
    r
}

/// Whether a running engine that has been idle for `idle_nanos` is due to be
/// stopped: only one that runs, and only after more than five minutes.
pub fn idle_expired(running: bool, idle_nanos: u128) -> (r: bool)
    ensures
        r == (running && idle_nanos > IDLE_TIMEOUT_NANOS),
{
    running && idle_nanos > IDLE_TIMEOUT_NANOS
}

/// The error for an engine binary that could not be started.
pub fn start_failed_message(binary_path: &str, error: &str) -> (r: String)
    ensures
        r@ == "Failed to start ltengine at '"@ + binary_path@ + "' (is it installed and in PATH?): "@ + error@,
{
    let mut r = "Failed to start ltengine at '".to_string();
    push_str(&mut r, binary_path);
    push_str(&mut r, "' (is it installed and in PATH?): ");
    push_str(&mut r, error);
    r
}

/// The error for an engine that exited while starting.
pub fn exited_message(model: &str) -> (r: String)
    ensures
        r@ == "ltengine exited unexpectedly – check that the model '"@ + model@ + "' is valid"@,
{
    let mut r = "ltengine exited unexpectedly – check that the model '".to_string();
    push_str(&mut r, model);
    push_str(&mut r, "' is valid");
    r
}

/// The error for an engine that never answered.
pub fn startup_timeout_message() -> (r: String)
    ensures
        r@ == "ltengine did not become healthy within "@ + decimal(STARTUP_TIMEOUT_SECS as nat) + " seconds"@,
{
    let mut r = "ltengine did not become healthy within ".to_string();
    let secs = decimal_string(STARTUP_TIMEOUT_SECS);
    push_str(&mut r, secs.as_str());
    push_str(&mut r, " seconds");
    r
}

/// How long, in milliseconds, a started engine has to answer.
pub const STARTUP_TIMEOUT_MILLIS: u64 = STARTUP_TIMEOUT_SECS * 1000;

/// Where bringing the engine up stands, each phase waiting for one answer.
#[derive(Clone, Copy, PartialEq, Eq, Debug, Structural)]
pub enum StartPhase {
    /// Asked whether the process runs.
    Begin,
    /// Found it running; asked whether it answers.
    FirstHealth,
    /// Asked to start the process.
    Spawning,
    /// Asked to start the clock of the wait.
    ClockStarting,
    /// Asked how long the wait has gone on.
    Clock,
    /// Waiting; asked whether the process still runs.
    Running,
    /// Waiting; asked whether it answers.
    Health,
    /// Waiting; asked to pause before the next try.
    Asleep,
    /// Gave up waiting; asked to stop the process.
    Stopping,
    /// Finished.
    Done,
}

/// What the program reports back.
pub enum StartEvent {
    /// Whether the process runs.
    Running(bool),
    /// Whether the health check passed.
    Healthy(bool),
    /// The process was started, or could not be, with the system's message.
    Spawned(Result<(), String>),
    /// The clock of the wait was started.
    ClockStarted,
    /// Milliseconds since the clock of the wait was started.
    Clock(u64),
    /// The pause is over.
    Slept,
    /// The process was stopped.
    Stopped,
}

/// What the program does next.
pub enum StartAction {
    CheckRunning,
    CheckHealth,
    Spawn,
    StartClock,
    ReadClock,
    /// Pause for this many milliseconds.
    Sleep(u64),
    Stop,
    /// The engine runs and answers.
    Ready,
    /// Bringing the engine up failed with this message.
    Fail(String),
}

/// An action as a kind and its message: 0 check running, 1 check health,
/// 2 spawn, 3 start the clock, 4 read the clock, 5 sleep, 6 stop, 7 ready,
/// 8 fail.
pub open spec fn action_view(a: StartAction) -> (int, Seq<char>) {
    match a {
        StartAction::CheckRunning => (0, Seq::empty()),
        StartAction::CheckHealth => (1, Seq::empty()),
        StartAction::Spawn => (2, Seq::empty()),
        StartAction::StartClock => (3, Seq::empty()),
        StartAction::ReadClock => (4, Seq::empty()),
        StartAction::Sleep(ms) => (5, decimal(ms as nat)),
        StartAction::Stop => (6, Seq::empty()),
        StartAction::Ready => (7, Seq::empty()),
        StartAction::Fail(m) => (8, m@),
    }
}

/// The question a phase waits on, asked again when an event does not
/// answer it. The finished phase is not stepped.
pub open spec fn question(p: StartPhase) -> (int, Seq<char>) {
    match p {
        StartPhase::Begin => (0, Seq::empty()),
        StartPhase::FirstHealth => (1, Seq::empty()),
        StartPhase::Spawning => (2, Seq::empty()),
        StartPhase::ClockStarting => (3, Seq::empty()),
        StartPhase::Clock => (4, Seq::empty()),
        StartPhase::Running => (0, Seq::empty()),
        StartPhase::Health => (1, Seq::empty()),
        StartPhase::Asleep => (5, decimal(POLL_INTERVAL_MILLIS as nat)),
        StartPhase::Stopping => (6, Seq::empty()),
        StartPhase::Done => (7, Seq::empty()),
    }
}

pub open spec fn exited_text(model: Seq<char>) -> Seq<char> {
    "ltengine exited unexpectedly – check that the model '"@ + model + "' is valid"@
}

pub open spec fn start_failed_text(binary_path: Seq<char>, error: Seq<char>) -> Seq<char> {
    "Failed to start ltengine at '"@ + binary_path + "' (is it installed and in PATH?): "@ + error
}

pub open spec fn timeout_text() -> Seq<char> {
    "ltengine did not become healthy within "@ + decimal(STARTUP_TIMEOUT_SECS as nat) + " seconds"@
}

/// Bringing the engine up: a running engine that answers is ready; one that
/// does not run is started; then, until the timeout, the program checks
/// that it still runs and whether it answers, pausing between tries. An
/// engine that exits fails the start, and one that never answers is
/// stopped when the time is up.
pub open spec fn start_step(
    p: StartPhase,
    e: StartEvent,
    model: Seq<char>,
    binary_path: Seq<char>,
) -> (StartPhase, (int, Seq<char>)) {
    match (p, e) {
        (StartPhase::Begin, StartEvent::Running(true)) => (StartPhase::FirstHealth, (1, Seq::empty())),
        (StartPhase::Begin, StartEvent::Running(false)) => (StartPhase::Spawning, (2, Seq::empty())),
        (StartPhase::FirstHealth, StartEvent::Healthy(true)) => (StartPhase::Done, (7, Seq::empty())),
        (StartPhase::FirstHealth, StartEvent::Healthy(false)) => (StartPhase::ClockStarting, (3, Seq::empty())),
        (StartPhase::Spawning, StartEvent::Spawned(Ok(()))) => (StartPhase::ClockStarting, (3, Seq::empty())),
        (StartPhase::Spawning, StartEvent::Spawned(Err(m))) => (
            StartPhase::Done,
            (8, start_failed_text(binary_path, m@)),
        ),
        (StartPhase::ClockStarting, StartEvent::ClockStarted) => (StartPhase::Clock, (4, Seq::empty())),
        (StartPhase::Clock, StartEvent::Clock(ms)) => if ms < STARTUP_TIMEOUT_MILLIS {
            (StartPhase::Running, (0, Seq::empty()))
        } else {
            (StartPhase::Stopping, (6, Seq::empty()))
        },
        (StartPhase::Running, StartEvent::Running(false)) => (StartPhase::Done, (8, exited_text(model))),
        (StartPhase::Running, StartEvent::Running(true)) => (StartPhase::Health, (1, Seq::empty())),
        (StartPhase::Health, StartEvent::Healthy(true)) => (StartPhase::Done, (7, Seq::empty())),
        (StartPhase::Health, StartEvent::Healthy(false)) => (
            StartPhase::Asleep,
            (5, decimal(POLL_INTERVAL_MILLIS as nat)),
        ),
        (StartPhase::Asleep, StartEvent::Slept) => (StartPhase::Clock, (4, Seq::empty())),
        (StartPhase::Stopping, StartEvent::Stopped) => (StartPhase::Done, (8, timeout_text())),
        _ => (p, question(p)),
    }
}

fn ask_again(p: StartPhase) -> (r: StartAction)
    ensures
        action_view(r) == question(p),
{
    match p {
        StartPhase::Begin => StartAction::CheckRunning,
        StartPhase::FirstHealth => StartAction::CheckHealth,
        StartPhase::Spawning => StartAction::Spawn,
        StartPhase::ClockStarting => StartAction::StartClock,
        StartPhase::Clock => StartAction::ReadClock,
        StartPhase::Running => StartAction::CheckRunning,
        StartPhase::Health => StartAction::CheckHealth,
        StartPhase::Asleep => StartAction::Sleep(POLL_INTERVAL_MILLIS),
        StartPhase::Stopping => StartAction::Stop,
        StartPhase::Done => StartAction::Ready,
    }
}

/// Where bringing the engine up begins: by asking whether it runs.
pub fn start_begin() -> (r: (StartPhase, StartAction))
    ensures
        r.0 == StartPhase::Begin,
        action_view(r.1) == question(StartPhase::Begin),
{
    (StartPhase::Begin, StartAction::CheckRunning)
}

/// The next phase and action of bringing `engine` up, as [`start_step`]
/// describes it, until it is done.
pub fn next_start_step(engine: &LTEngine, phase: StartPhase, event: StartEvent) -> (r: (
    StartPhase,
    StartAction,
))
    requires
        phase != StartPhase::Done,
    ensures
        (r.0, action_view(r.1)) == start_step(phase, event, engine.model@, engine.binary_path@),
{
    match (phase, event) {
        (StartPhase::Begin, StartEvent::Running(true)) => (StartPhase::FirstHealth, StartAction::CheckHealth),
        (StartPhase::Begin, StartEvent::Running(false)) => (StartPhase::Spawning, StartAction::Spawn),
        (StartPhase::FirstHealth, StartEvent::Healthy(true)) => (StartPhase::Done, StartAction::Ready),
        (StartPhase::FirstHealth, StartEvent::Healthy(false)) => (StartPhase::ClockStarting, StartAction::StartClock),
        (StartPhase::Spawning, StartEvent::Spawned(Ok(()))) => (StartPhase::ClockStarting, StartAction::StartClock),
        (StartPhase::Spawning, StartEvent::Spawned(Err(m))) => (
            StartPhase::Done,
            StartAction::Fail(start_failed_message(engine.binary_path.as_str(), m.as_str())),
        ),
        (StartPhase::ClockStarting, StartEvent::ClockStarted) => (StartPhase::Clock, StartAction::ReadClock),
        (StartPhase::Clock, StartEvent::Clock(ms)) => if ms < STARTUP_TIMEOUT_MILLIS {
            (StartPhase::Running, StartAction::CheckRunning)
        } else {
            (StartPhase::Stopping, StartAction::Stop)
        },
        (StartPhase::Running, StartEvent::Running(false)) => (
            StartPhase::Done,
            StartAction::Fail(exited_message(engine.model.as_str())),
        ),
        (StartPhase::Running, StartEvent::Running(true)) => (StartPhase::Health, StartAction::CheckHealth),
        (StartPhase::Health, StartEvent::Healthy(true)) => (StartPhase::Done, StartAction::Ready),
        (StartPhase::Health, StartEvent::Healthy(false)) => (
            StartPhase::Asleep,
            StartAction::Sleep(POLL_INTERVAL_MILLIS),
        ),
        (StartPhase::Asleep, StartEvent::Slept) => (StartPhase::Clock, StartAction::ReadClock),
        (StartPhase::Stopping, StartEvent::Stopped) => (StartPhase::Done, StartAction::Fail(startup_timeout_message())),
        _ => (phase, ask_again(phase)),
    }
}

/// The engine is only ever reported ready right after it passed a health
/// check, and a failure after the timeout comes only once the process was
/// stopped.
pub proof fn law_ready_only_when_healthy(
    p: StartPhase,
    e: StartEvent,
    model: Seq<char>,
    binary_path: Seq<char>,
)
    requires
        p != StartPhase::Done,
    ensures
        start_step(p, e, model, binary_path).1.0 == 7 ==> e matches StartEvent::Healthy(true),
        start_step(p, e, model, binary_path).1 == (8int, timeout_text()) ==> p == StartPhase::Stopping
            && e is Stopped,
{
    assert(timeout_text() != exited_text(model) && timeout_text().len() > 0) by {
        reveal_strlit("ltengine did not become healthy within ");
        reveal_strlit("ltengine exited unexpectedly – check that the model '");
        assert(timeout_text()[9] == 'd');
        assert(exited_text(model)[9] == 'e');
    }
    if let StartEvent::Spawned(Err(m)) = e {
        assert(timeout_text() != start_failed_text(binary_path, m@)) by {
            reveal_strlit("ltengine did not become healthy within ");
            reveal_strlit("Failed to start ltengine at '");
            assert(timeout_text()[0] == 'l');
            assert(start_failed_text(binary_path, m@)[0] == 'F');
        }
    }
}

} // verus!
