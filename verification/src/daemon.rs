//! Starting and stopping a signal-cli daemon.
//!
//! The functions here decide; running processes, asking for the time and
//! waiting is up to the caller.

use vstd::prelude::*;
use vstd::string::*;
use vstd::utf8::{decode_utf8, valid_utf8};

use crate::text::{decimal, decimal_text, decode_lossy, is_trimmed, lossy_text, trim};

verus! {

// ---------------------------------------------------------------------------
// Stopping
// ---------------------------------------------------------------------------

/// The signals that are sent.
#[derive(Clone, Copy, Debug, PartialEq, Eq, Structural)]
pub enum Signal {
    Terminate,
    Kill,
}

/// A step of stopping the daemon.
#[derive(Clone, Copy, Debug, PartialEq, Eq, Structural)]
pub enum KillStep {
    /// Send a signal. A negative target is a process group.
    Send { target: i32, signal: Signal },
    /// Wait.
    Sleep { secs: u64 },
    /// Kill the child process itself.
    KillChild,
}

/// The steps that stop the process group of `pid`.
pub open spec fn group_kill_steps(pid: i32) -> Seq<KillStep> {
    seq![
        KillStep::Send { target: (-pid) as i32, signal: Signal::Terminate },
        KillStep::Sleep { secs: 2 },
        KillStep::Send { target: (-pid) as i32, signal: Signal::Kill },
    ]
}

/// How to kill an entire process group: ask it to terminate, give it time to
/// exit, then kill what is still alive.
pub fn kill_process_group(pid: i32) -> (r: Vec<KillStep>)
    requires
        pid != i32::MIN,
    ensures
        r@ == group_kill_steps(pid),
        r@.len() == 3,
        r@[0] matches KillStep::Send { target, signal } && target + pid == 0 && signal
            == Signal::Terminate,
        r@[1] == (KillStep::Sleep { secs: 2 }),
        r@[2] matches KillStep::Send { target, signal } && target + pid == 0 && signal
            == Signal::Kill,
{
    let target: i32 = -pid;
    let mut steps: Vec<KillStep> = Vec::new();
    steps.push(KillStep::Send { target, signal: Signal::Terminate });
    steps.push(KillStep::Sleep { secs: 2 });
    steps.push(KillStep::Send { target, signal: Signal::Kill });
    steps
}

/// A daemon that was started here, in a process group of its own.
pub struct ManagedDaemon {
    pub pid: i32,
    pub base_url: String,
}

impl ManagedDaemon {
    /// The daemon that was started.
    pub fn new(started: Started) -> (r: ManagedDaemon)
        ensures
            started.is_daemon(r),
    {
        ManagedDaemon { pid: started.pid as i32, base_url: started.plan.base_url }
    }

    /// How to stop the daemon: its process group first, then, for good measure,
    /// the child process itself.
    pub fn shutdown(&self) -> (r: Vec<KillStep>)
        requires
            self.pid != i32::MIN,
        ensures
            r@ == group_kill_steps(self.pid).push(KillStep::KillChild),
            r@.len() == 4,
            r@[0] matches KillStep::Send { target, signal } && target + self.pid == 0 && signal
                == Signal::Terminate,
            r@[1] == (KillStep::Sleep { secs: 2 }),
            r@[2] matches KillStep::Send { target, signal } && target + self.pid == 0 && signal
                == Signal::Kill,
            r@[3] is KillChild,
    {
        let mut steps = kill_process_group(self.pid);
        steps.push(KillStep::KillChild);
        steps
    }
}

// ---------------------------------------------------------------------------
// Starting
// ---------------------------------------------------------------------------

/// How long the daemon may take to start, in nanoseconds.
pub const START_LIMIT_NANOS: u128 = 30_000_000_000;

/// How long to wait between two health checks, in milliseconds.
pub const POLL_INTERVAL_MILLIS: u64 = 250;

/// How long a health check may take, in seconds.
pub const HEALTH_TIMEOUT_SECS: u64 = 2;

/// The error text if signal-cli is not installed.
pub const NOT_FOUND_ERROR: &'static str =
    "signal-cli not found on $PATH. Install it or use --signal-cli <url> to connect to an existing daemon";

/// The error text if the daemon takes too long to start.
pub const START_TIMEOUT_ERROR: &'static str =
    "signal-cli daemon failed to start within 30 seconds";

/// `path` is what `stdout` tells: its text without leading and trailing white
/// space. Where the bytes are valid UTF-8 the text is what they encode.
pub open spec fn is_path_in(path: Seq<char>, stdout: Seq<u8>) -> bool {
    &&& is_trimmed(lossy_text(stdout), path)
    &&& valid_utf8(stdout) ==> is_trimmed(decode_utf8(stdout), path)
}

/// The path of signal-cli, given how `which signal-cli` ended and what it wrote.
pub fn find_signal_cli(success: bool, stdout: &Vec<u8>) -> (r: Result<String, String>)
    ensures
        match r {
            Ok(path) => success && is_path_in(path@, stdout@),
            Err(e) => !success && e@ == NOT_FOUND_ERROR@,
        },
{
    if success {
        let text = decode_lossy(stdout);
        Ok(trim(text.as_str()).to_owned())
    } else {
        Err(NOT_FOUND_ERROR.to_owned())
    }
}

/// How to start the daemon.
pub struct Launch {
    /// The program.
    pub bin: String,
    /// The address that the daemon is to listen on.
    pub addr: String,
    /// The arguments of the program.
    pub args: Vec<String>,
    /// The URL of the daemon.
    pub base_url: String,
    /// The URL that tells whether the daemon is ready.
    pub health_url: String,
}

/// The local address with the given port.
pub open spec fn local_addr(port: u16) -> Seq<char> {
    "127.0.0.1:"@ + decimal(port as nat)
}

/// The arguments that start a daemon on the given address.
pub open spec fn daemon_args(addr: Seq<char>) -> Seq<Seq<char>> {
    seq![
        "daemon"@,
        "--http"@,
        addr,
        "--no-receive-stdout"@,
        "--receive-mode"@,
        "on-start"@,
    ]
}

impl Launch {
    /// The plan starts the program on the given port.
    pub open spec fn is_for(self, bin: Seq<char>, port: u16) -> bool {
        &&& self.bin@ == bin
        &&& self.addr@ == local_addr(port)
        &&& self.args@.map_values(|a: String| a@) == daemon_args(local_addr(port))
        &&& self.base_url@ == "http://"@ + local_addr(port)
        &&& self.health_url@ == "http://"@ + local_addr(port) + "/api/v1/check"@
    }

    /// Plans to start the program on the given port.
    pub fn new(bin: String, port: u16) -> (r: Launch)
        ensures
            r.is_for(bin@, port),
    {
        let addr = "127.0.0.1:".to_owned().concat(decimal_text(port as u64).as_str());
        let base_url = "http://".to_owned().concat(addr.as_str());
        let health_url = base_url.clone().concat("/api/v1/check");
        let mut args: Vec<String> = Vec::new();
        args.push("daemon".to_owned());
        args.push("--http".to_owned());
        args.push(addr.clone());
        args.push("--no-receive-stdout".to_owned());
        args.push("--receive-mode".to_owned());
        args.push("on-start".to_owned());
        assert(args@.map_values(|a: String| a@) =~= daemon_args(local_addr(port)));
        Launch { bin, addr, args, base_url, health_url }
    }
}

/// A daemon that was started and is not known to be ready.
pub struct Started {
    /// How it was started.
    pub plan: Launch,
    /// The process that it was started as.
    pub pid: u32,
}

impl Started {
    /// `daemon` is this one: it has the process, and the URL of the plan.
    pub open spec fn is_daemon(self, daemon: ManagedDaemon) -> bool {
        &&& daemon.pid == self.pid as i32
        &&& daemon.base_url@ == self.plan.base_url@
    }
}

/// How far the start has come, and what happened then.
pub enum SpawnEvent {
    /// `which signal-cli` ended.
    Searched { success: bool, stdout: Vec<u8> },
    /// A free port was found for the program.
    PortFound { bin: String, port: u16 },
    /// The program was started.
    Launched(Started),
    /// So much time has passed since then.
    Clock { started: Started, elapsed_nanos: u128 },
    /// The child process is still running, or ended with this status.
    Child { started: Started, exited: Option<String> },
    /// The health check was answered with this HTTP status, or not at all.
    Health { started: Started, status: Option<u16> },
    /// The wait between two health checks is over.
    Slept(Started),
}

/// What has to be done next to start the daemon, and how far the start has come.
pub enum SpawnAction {
    /// Find a free port for the program.
    FindPort { bin: String },
    /// Start the program.
    Launch(Launch),
    /// Ask for the time that has passed.
    CheckClock(Started),
    /// Ask whether the child process has ended.
    CheckChild(Started),
    /// Ask at the URL whether the daemon is ready.
    CheckHealth { started: Started, url: String },
    /// Wait.
    Sleep { started: Started, millis: u64 },
    /// The daemon is ready.
    Ready(ManagedDaemon),
    /// The daemon could not be started.
    Fail(String),
}

/// Whether an HTTP status means success.
pub open spec fn is_success(status: Option<u16>) -> bool {
    status matches Some(code) && 200 <= code < 300
}

/// `action` is what follows `event`.
pub open spec fn follows(event: SpawnEvent, action: SpawnAction) -> bool {
    match event {
        SpawnEvent::Searched { success, stdout } => if success {
            action matches SpawnAction::FindPort { bin } && is_path_in(bin@, stdout@)
        } else {
            action matches SpawnAction::Fail(e) && e@ == NOT_FOUND_ERROR@
        },
        SpawnEvent::PortFound { bin, port } => {
            action matches SpawnAction::Launch(plan) && plan.is_for(bin@, port)
        },
        SpawnEvent::Launched(started) => action == SpawnAction::CheckClock(started),
        SpawnEvent::Clock { started, elapsed_nanos } => if elapsed_nanos > START_LIMIT_NANOS {
            action matches SpawnAction::Fail(e) && e@ == START_TIMEOUT_ERROR@
        } else {
            action == SpawnAction::CheckChild(started)
        },
        SpawnEvent::Child { started, exited } => match exited {
            Some(status) => {
                action matches SpawnAction::Fail(e) && e@ == "signal-cli exited with "@ + status@
            },
            None => {
                action matches SpawnAction::CheckHealth { started: s, url } && s == started && url@
                    == started.plan.health_url@
            },
        },
        SpawnEvent::Health { started, status } => if is_success(status) {
            action matches SpawnAction::Ready(daemon) && started.is_daemon(daemon)
        } else {
            action == (SpawnAction::Sleep { started, millis: POLL_INTERVAL_MILLIS })
        },
        SpawnEvent::Slept(started) => action == SpawnAction::CheckClock(started),
    }
}

/// One step of starting the daemon: find the program, find a port, start it, and
/// ask again and again whether it is ready, until it is, or has ended, or has
/// taken too long.
pub fn spawn(event: SpawnEvent) -> (r: SpawnAction)
    ensures
        follows(event, r),
{
    match event {
        SpawnEvent::Searched { success, stdout } => match find_signal_cli(success, &stdout) {
            Ok(bin) => SpawnAction::FindPort { bin },
            Err(e) => SpawnAction::Fail(e),
        },
        SpawnEvent::PortFound { bin, port } => SpawnAction::Launch(Launch::new(bin, port)),
        SpawnEvent::Launched(started) => SpawnAction::CheckClock(started),
        SpawnEvent::Clock { started, elapsed_nanos } => if elapsed_nanos > START_LIMIT_NANOS {
            SpawnAction::Fail(START_TIMEOUT_ERROR.to_owned())
        } else {
            SpawnAction::CheckChild(started)
        },
        SpawnEvent::Child { started, exited } => match exited {
            Some(status) => SpawnAction::Fail(
                "signal-cli exited with ".to_owned().concat(status.as_str()),
            ),
            None => {
                let url = started.plan.health_url.clone();
                SpawnAction::CheckHealth { started, url }
            },
        },
        SpawnEvent::Health { started, status } => {
            let ready = match status {
                Some(code) => 200 <= code && code < 300,
                None => false,
            };
            if ready {
                SpawnAction::Ready(ManagedDaemon::new(started))
            } else {
                SpawnAction::Sleep { started, millis: POLL_INTERVAL_MILLIS }
            }
        },
        SpawnEvent::Slept(started) => SpawnAction::CheckClock(started),
    }
}

// ---------------------------------------------------------------------------
// Runs
// ---------------------------------------------------------------------------

/// `event` is what doing `action` can lead to. How far the start has come is
/// handed back as it was handed out.
pub open spec fn answers(action: SpawnAction, event: SpawnEvent) -> bool {
    match action {
        SpawnAction::FindPort { bin } => event matches SpawnEvent::PortFound { bin: b, .. } && b
            == bin,
        SpawnAction::Launch(plan) => event matches SpawnEvent::Launched(s) && s.plan == plan,
        SpawnAction::CheckClock(started) => event matches SpawnEvent::Clock { started: s, .. } && s
            == started,
        SpawnAction::CheckChild(started) => event matches SpawnEvent::Child { started: s, .. } && s
            == started,
        SpawnAction::CheckHealth { started, .. } => event matches SpawnEvent::Health {
            started: s,
            ..
        } && s == started,
        SpawnAction::Sleep { started, .. } => event == SpawnEvent::Slept(started),
        SpawnAction::Ready(_) | SpawnAction::Fail(_) => false,
    }
}

/// A run of [`spawn`] from the beginning: each action follows its event, and
/// each event answers the action before it.
pub open spec fn is_run(events: Seq<SpawnEvent>, actions: Seq<SpawnAction>) -> bool {
    &&& events.len() == actions.len()
    &&& events.len() > 0 ==> events[0] is Searched
    &&& forall|i: int| 0 <= i < events.len() ==> follows(#[trigger] events[i], actions[i])
    &&& forall|i: int| 0 < i < events.len() ==> answers(actions[i - 1], #[trigger] events[i])
}

/// A run ends when the daemon is ready or could not be started, and not before.
pub proof fn run_goes_on(events: Seq<SpawnEvent>, actions: Seq<SpawnAction>, i: int)
    requires
        is_run(events, actions),
        0 <= i < events.len() - 1,
    ensures
        !(actions[i] is Ready),
        !(actions[i] is Fail),
{
    assert(answers(actions[i], events[i + 1]));
}

/// The program that is started is the one that was found, on the port that was
/// found.
pub proof fn launches_what_was_found(events: Seq<SpawnEvent>, actions: Seq<SpawnAction>)
    requires
        is_run(events, actions),
        events.len() >= 2,
    ensures
        ({
            &&& events[0] matches SpawnEvent::Searched { success, stdout }
            &&& events[1] matches SpawnEvent::PortFound { bin, port }
            &&& actions[1] matches SpawnAction::Launch(plan)
            &&& success
            &&& is_path_in(bin@, stdout@)
            &&& plan.is_for(bin@, port)
        }),
{
    assert(follows(events[0], actions[0]));
    assert(answers(actions[0], events[1]));
    assert(follows(events[1], actions[1]));
}

/// The daemon that an event is about, once it was started.
pub open spec fn started_in(event: SpawnEvent) -> Option<Started> {
    match event {
        SpawnEvent::Searched { .. } | SpawnEvent::PortFound { .. } => None,
        SpawnEvent::Launched(started) => Some(started),
        SpawnEvent::Clock { started, .. } => Some(started),
        SpawnEvent::Child { started, .. } => Some(started),
        SpawnEvent::Health { started, .. } => Some(started),
        SpawnEvent::Slept(started) => Some(started),
    }
}

/// From its start on, a run is about the daemon that was started by its plan.
pub proof fn run_is_about_one_daemon(events: Seq<SpawnEvent>, actions: Seq<SpawnAction>, i: int)
    requires
        is_run(events, actions),
        2 <= i < events.len(),
    ensures
        started_in(events[i]) is Some,
        started_in(events[i]) == started_in(events[2]),
        actions[1] == SpawnAction::Launch(started_in(events[i])->0.plan),
    decreases i,
{
    launches_what_was_found(events, actions);
    assert(answers(actions[1], events[2]));
    if i > 2 {
        run_is_about_one_daemon(events, actions, i - 1);
        assert(follows(events[i - 1], actions[i - 1]));
        assert(answers(actions[i - 1], events[i]));
    }
}

/// The daemon counts as ready only after a health check that succeeded, before
/// which the child process was still running, before which the time limit was
/// not exceeded.
pub proof fn ready_is_earned(events: Seq<SpawnEvent>, actions: Seq<SpawnAction>, k: int)
    requires
        is_run(events, actions),
        0 <= k < events.len(),
        actions[k] is Ready,
    ensures
        k >= 5,
        events[k] matches SpawnEvent::Health { status, .. } && is_success(status),
        events[k - 1] matches SpawnEvent::Child { exited, .. } && exited is None,
        events[k - 2] matches SpawnEvent::Clock { elapsed_nanos, .. } && elapsed_nanos
            <= START_LIMIT_NANOS,
{
    assert(follows(events[k], actions[k]));
    assert(answers(actions[k - 1], events[k]));
    assert(follows(events[k - 1], actions[k - 1]));
    assert(answers(actions[k - 2], events[k - 1]));
    assert(follows(events[k - 2], actions[k - 2]));
    assert(answers(actions[k - 3], events[k - 2]));
    launches_what_was_found(events, actions);
    assert(answers(actions[1], events[2]));
}

/// The daemon that a run yields is the one that was started by its plan: it was
/// asked at the health URL of that plan, and has the URL of that plan and the
/// process that was started.
pub proof fn ready_daemon_is_the_started_one(
    events: Seq<SpawnEvent>,
    actions: Seq<SpawnAction>,
    k: int,
)
    requires
        is_run(events, actions),
        0 <= k < events.len(),
        actions[k] is Ready,
    ensures
        ({
            &&& actions[1] matches SpawnAction::Launch(plan)
            &&& events[2] matches SpawnEvent::Launched(started)
            &&& actions[k - 1] matches SpawnAction::CheckHealth { url, .. }
            &&& actions[k] matches SpawnAction::Ready(daemon)
            &&& started.plan == plan
            &&& url@ == plan.health_url@
            &&& daemon.base_url@ == plan.base_url@
            &&& daemon.pid == started.pid as i32
        }),
{
    ready_is_earned(events, actions, k);
    run_is_about_one_daemon(events, actions, k);
    run_is_about_one_daemon(events, actions, k - 1);
    launches_what_was_found(events, actions);
    assert(answers(actions[1], events[2]));
    assert(follows(events[k], actions[k]));
    assert(follows(events[k - 1], actions[k - 1]));
}

/// Between two health checks there is a wait, and the time limit and the child
/// process are checked again.
pub proof fn health_checks_are_spaced(
    events: Seq<SpawnEvent>,
    actions: Seq<SpawnAction>,
    i: int,
    j: int,
)
    requires
        is_run(events, actions),
        0 <= i < j < events.len(),
        events[i] is Health,
        events[j] is Health,
    ensures
        j >= i + 4,
        actions[i] matches SpawnAction::Sleep { millis, .. } && millis == POLL_INTERVAL_MILLIS,
        events[i + 1] is Slept,
        events[i + 2] is Clock,
        events[i + 3] is Child,
{
    assert(follows(events[i], actions[i]));
    assert(answers(actions[i], events[i + 1]));
    assert(follows(events[i + 1], actions[i + 1]));
    assert(answers(actions[i + 1], events[i + 2]));
    assert(follows(events[i + 2], actions[i + 2]));
    assert(answers(actions[i + 2], events[i + 3]));
}

} // verus!
