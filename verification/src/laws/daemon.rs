//! What holds of starting and stopping a daemon.

use vstd::prelude::*;
use vstd::utf8::{decode_utf8, valid_utf8};

use crate::daemon::{
    answers, find_signal_cli, follows, is_run, kill_process_group, spawn, KillStep, Launch,
    ManagedDaemon, Signal, SpawnAction, SpawnEvent, Started, HEALTH_TIMEOUT_SECS,
};
use crate::text::{decimal_text, lossy_text, trim, trimmed_is_unique};

verus! {

// ---------------------------------------------------------------------------
// Stopping
// ---------------------------------------------------------------------------

/// The signals go to the group of exactly the given process: first the request
/// to terminate and, two seconds later, the kill.
pub proof fn signals_go_to_the_group(pid: i32, r: Vec<KillStep>)
    requires
        pid != i32::MIN,
        call_ensures(kill_process_group, (pid,), r),
    ensures
        r@.len() == 3,
        r@[0] matches KillStep::Send { target, signal } && target + pid == 0 && signal
            == Signal::Terminate,
        r@[1] matches KillStep::Sleep { secs } && secs == 2,
        r@[2] matches KillStep::Send { target, signal } && target + pid == 0 && signal
            == Signal::Kill,
{
}

/// Two processes are stopped by signals to two groups.
pub proof fn processes_are_stopped_apart(p: i32, q: i32, r: Vec<KillStep>, t: Vec<KillStep>)
    requires
        p != i32::MIN,
        q != i32::MIN,
        p != q,
        call_ensures(kill_process_group, (p,), r),
        call_ensures(kill_process_group, (q,), t),
    ensures
        forall|i: int, j: int|
            0 <= i < r@.len() && 0 <= j < t@.len() && #[trigger] r@[i] is Send
                && #[trigger] t@[j] is Send ==> r@[i]->target != t@[j]->target,
{
}

/// A daemon is stopped by stopping its process group, and then by killing the
/// child process itself.
pub proof fn shutdown_stops_the_group_then_the_child(
    d: ManagedDaemon,
    group: Vec<KillStep>,
    r: Vec<KillStep>,
)
    requires
        d.pid != i32::MIN,
        call_ensures(kill_process_group, (d.pid,), group),
        call_ensures(ManagedDaemon::shutdown, (&d,), r),
    ensures
        r@.len() == group@.len() + 1,
        forall|i: int| 0 <= i < group@.len() ==> r@[i] == #[trigger] group@[i],
        r@.last() is KillChild,
        forall|i: int|
            0 <= i < r@.len() && #[trigger] r@[i] is Send ==> r@[i]->target + d.pid == 0,
{
}

/// A daemon keeps the URL of its plan and the number of its process, as a number
/// of 32 bits with a sign.
pub proof fn daemon_is_the_started_process(s: Started, r: ManagedDaemon)
    requires
        call_ensures(ManagedDaemon::new, (s,), r),
    ensures
        r.base_url@ == s.plan.base_url@,
        s.pid <= i32::MAX ==> r.pid == s.pid,
        s.pid > i32::MAX ==> r.pid == s.pid - 0x1_0000_0000,
{
    let pid = s.pid;
    assert(pid > 0x7fff_ffff ==> pid as i32 == pid - 0x1_0000_0000) by (bit_vector);
}

// ---------------------------------------------------------------------------
// Starting
// ---------------------------------------------------------------------------

/// If the search succeeds the program is what it wrote, decoded and trimmed.
pub proof fn program_is_what_the_search_wrote(
    stdout: Vec<u8>,
    text: &str,
    path: &str,
    r: Result<String, String>,
)
    requires
        call_ensures(find_signal_cli, (true, &stdout), r),
        valid_utf8(stdout@),
        text@ == decode_utf8(stdout@),
        call_ensures(trim, (text,), path),
    ensures
        r matches Ok(p) && p@ == path@,
{
    if let Ok(p) = r {
        trimmed_is_unique(text@, p@, path@);
    }
}

/// What is not valid UTF-8 is decoded with replacements before it is trimmed.
pub proof fn program_is_the_decoded_output(
    stdout: Vec<u8>,
    text: &str,
    path: &str,
    r: Result<String, String>,
)
    requires
        call_ensures(find_signal_cli, (true, &stdout), r),
        text@ == lossy_text(stdout@),
        call_ensures(trim, (text,), path),
    ensures
        r matches Ok(p) && p@ == path@,
{
    if let Ok(p) = r {
        trimmed_is_unique(text@, p@, path@);
    }
}

/// There is a program if and only if the search succeeds.
pub proof fn search_decides(success: bool, stdout: Vec<u8>, r: Result<String, String>)
    requires
        call_ensures(find_signal_cli, (success, &stdout), r),
    ensures
        r is Ok <==> success,
        r matches Err(e) ==> e@
            == "signal-cli not found on $PATH. Install it or use --signal-cli <url> to connect to an existing daemon"@,
{
}

/// The plan is about one local address: the program is told to listen there, and
/// both URLs lead there.
pub proof fn plan_is_about_one_address(bin: String, port: u16, number: String, r: Launch)
    requires
        call_ensures(Launch::new, (bin, port), r),
        call_ensures(decimal_text, (port as u64,), number),
    ensures
        r.bin@ == bin@,
        r.addr@ == "127.0.0.1:"@ + number@,
        r.base_url@ == "http://"@ + r.addr@,
        r.health_url@ == r.base_url@ + "/api/v1/check"@,
        r.args@.len() == 6,
        r.args@[0]@ == "daemon"@,
        r.args@[1]@ == "--http"@,
        r.args@[2]@ == r.addr@,
        r.args@[3]@ == "--no-receive-stdout"@,
        r.args@[4]@ == "--receive-mode"@,
        r.args@[5]@ == "on-start"@,
{
    let texts = r.args@.map_values(|a: String| a@);
    assert(texts.len() == r.args@.len());
    assert(texts[0] == r.args@[0]@ && texts[1] == r.args@[1]@ && texts[2] == r.args@[2]@);
    assert(texts[3] == r.args@[3]@ && texts[4] == r.args@[4]@ && texts[5] == r.args@[5]@);
}

/// The start begins with what the search found.
pub proof fn start_takes_what_was_found(
    success: bool,
    stdout: Vec<u8>,
    found: Result<String, String>,
    r: SpawnAction,
)
    requires
        call_ensures(find_signal_cli, (success, &stdout), found),
        call_ensures(spawn, (SpawnEvent::Searched { success, stdout },), r),
    ensures
        found matches Ok(path) ==> (r matches SpawnAction::FindPort { bin } && bin@ == path@),
        found matches Err(e) ==> (r matches SpawnAction::Fail(t) && t@ == e@),
{
    if let Ok(path) = found {
        if let SpawnAction::FindPort { bin } = r {
            trimmed_is_unique(lossy_text(stdout@), bin@, path@);
        }
    }
}

/// The program is launched on the port that was found.
pub proof fn start_launches_the_plan(bin: String, port: u16, plan: Launch, r: SpawnAction)
    requires
        call_ensures(Launch::new, (bin, port), plan),
        call_ensures(spawn, (SpawnEvent::PortFound { bin, port },), r),
    ensures
        r matches SpawnAction::Launch(p) && p.bin@ == plan.bin@ && p.addr@ == plan.addr@
            && p.base_url@ == plan.base_url@ && p.health_url@ == plan.health_url@
            && p.args@.len() == plan.args@.len() && forall|i: int|
            0 <= i < plan.args@.len() ==> (#[trigger] p.args@[i])@ == plan.args@[i]@,
{
    if let SpawnAction::Launch(p) = r {
        let texts = plan.args@.map_values(|a: String| a@);
        let others = p.args@.map_values(|a: String| a@);
        assert(texts.len() == plan.args@.len() && others.len() == p.args@.len());
        assert forall|i: int| 0 <= i < plan.args@.len() implies (#[trigger] p.args@[i])@
            == plan.args@[i]@ by {
            assert(texts[i] == plan.args@[i]@ && others[i] == p.args@[i]@);
        }
    }
}

/// A daemon that was launched, or waited for, is looked at again.
pub proof fn each_round_starts_with_the_clock(s: Started, a: SpawnAction, b: SpawnAction)
    requires
        call_ensures(spawn, (SpawnEvent::Launched(s),), a),
        call_ensures(spawn, (SpawnEvent::Slept(s),), b),
    ensures
        a matches SpawnAction::CheckClock(t) && t == s,
        b matches SpawnAction::CheckClock(t) && t == s,
{
}

/// The start goes on for thirty seconds, to the nanosecond, and no longer.
pub proof fn start_has_thirty_seconds(s: Started, nanos: u128, r: SpawnAction)
    requires
        call_ensures(spawn, (SpawnEvent::Clock { started: s, elapsed_nanos: nanos },), r),
    ensures
        nanos <= 30_000_000_000 ==> (r matches SpawnAction::CheckChild(t) && t == s),
        nanos > 30_000_000_000 ==> (r matches SpawnAction::Fail(e) && e@
            == "signal-cli daemon failed to start within 30 seconds"@),
{
}

/// Time only ever turns going on into giving up.
pub proof fn giving_up_is_final(
    s: Started,
    earlier: u128,
    later: u128,
    a: SpawnAction,
    b: SpawnAction,
)
    requires
        earlier <= later,
        call_ensures(spawn, (SpawnEvent::Clock { started: s, elapsed_nanos: earlier },), a),
        call_ensures(spawn, (SpawnEvent::Clock { started: s, elapsed_nanos: later },), b),
    ensures
        a is Fail ==> b is Fail,
        b is CheckChild ==> a is CheckChild,
{
}

/// A child that still runs is asked for its health, at the URL of its plan; one
/// that has ended is reported with its status.
pub proof fn running_child_is_asked(s: Started, exited: Option<String>, r: SpawnAction)
    requires
        call_ensures(spawn, (SpawnEvent::Child { started: s, exited },), r),
    ensures
        exited is None ==> (r matches SpawnAction::CheckHealth { started, url } && started == s
            && url@ == s.plan.health_url@),
        exited matches Some(status) ==> (r matches SpawnAction::Fail(e) && e@
            == "signal-cli exited with "@ + status@),
{
}

/// A daemon that answers with a status from 200 to 299 is ready; any other
/// answer, or none within two seconds, is followed by a wait of 250 milliseconds.
pub proof fn success_is_readiness(s: Started, status: Option<u16>, r: SpawnAction)
    requires
        call_ensures(spawn, (SpawnEvent::Health { started: s, status },), r),
    ensures
        status matches Some(code) && 200 <= code <= 299 ==> (r matches SpawnAction::Ready(d)
            && d.base_url@ == s.plan.base_url@ && (s.pid <= i32::MAX ==> d.pid == s.pid) && (s.pid
            > i32::MAX ==> d.pid == s.pid - 0x1_0000_0000)),
        !(status matches Some(code) && 200 <= code <= 299) ==> (r matches SpawnAction::Sleep {
            started,
            millis,
        } && started == s && millis == 250),
        HEALTH_TIMEOUT_SECS == 2,
{
    let pid = s.pid;
    assert(pid > 0x7fff_ffff ==> pid as i32 == pid - 0x1_0000_0000) by (bit_vector);
}

/// Calls of [`spawn`], each on what its predecessor led to, make a run.
pub proof fn calls_make_a_run(events: Seq<SpawnEvent>, actions: Seq<SpawnAction>)
    requires
        events.len() == actions.len(),
        events.len() > 0 ==> events[0] is Searched,
        forall|i: int|
            0 <= i < events.len() ==> call_ensures(spawn, (#[trigger] events[i],), actions[i]),
        forall|i: int| 0 < i < events.len() ==> answers(actions[i - 1], #[trigger] events[i]),
    ensures
        is_run(events, actions),
{
    assert forall|i: int| 0 <= i < events.len() implies follows(#[trigger] events[i], actions[i]) by {
        assert(call_ensures(spawn, (events[i],), actions[i]));
    }
}

/// A run fails only because the program was not found, because the child ended,
/// or because more than thirty seconds have passed.
pub proof fn failure_has_a_cause(events: Seq<SpawnEvent>, actions: Seq<SpawnAction>, k: int)
    requires
        is_run(events, actions),
        0 <= k < events.len(),
        actions[k] is Fail,
    ensures
        ({
            ||| events[k] matches SpawnEvent::Searched { success, .. } && !success && k == 0
            ||| events[k] matches SpawnEvent::Child { exited, .. } && exited is Some
            ||| events[k] matches SpawnEvent::Clock { elapsed_nanos, .. } && elapsed_nanos
                > 30_000_000_000
        }),
{
    assert(follows(events[k], actions[k]));
    if k > 0 {
        assert(answers(actions[k - 1], events[k]));
    }
}

/// A run that fails for lack of time has seen more than thirty seconds pass, and
/// says so.
pub proof fn timeout_is_reported(events: Seq<SpawnEvent>, actions: Seq<SpawnAction>, k: int)
    requires
        is_run(events, actions),
        0 <= k < events.len(),
        events[k] is Clock,
    ensures
        actions[k] is Fail <==> events[k]->elapsed_nanos > 30_000_000_000,
        actions[k] matches SpawnAction::Fail(e) ==> e@
            == "signal-cli daemon failed to start within 30 seconds"@,
{
    assert(follows(events[k], actions[k]));
}

} // verus!
