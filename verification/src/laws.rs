//! What holds of the service as a whole, whatever happens in which order.
//!
//! The modules below state what holds of each function, and between functions:
//! `call_ensures(f, args, r)` stands for a call of `f` with `args` that returned
//! `r`, and what follows is said of the arguments and the result themselves. Of a
//! `&mut` argument `x`, `old(x)` is what it was before the call and `final(x)` what
//! it is afterwards.

pub mod calls;
pub mod cli;
pub mod daemon;
pub mod json;
pub mod replies;
pub mod state;
pub mod text;

use vstd::prelude::*;

use crate::http::Status;
use crate::json::{find_member, starts_like_json, DocumentView, ValueView};
use crate::jsonrpc::{
    dispatched, handover_outcome, outcome_of, outcome_of_wait, response_id, writer_action,
    Handover, PendingSender, ReaderActionView, Wait, WriterAction, WriterEvent,
};
use crate::routes::devices::{first_outcome, LinkWait};
use crate::state::{
    call_finished, call_forgotten, call_opened, call_refused, counted, disconnected,
    error_counted, error_status, is_initial, line_dispatched, AppView, Metrics, DAEMON_DEAD_ERROR,
    RPC_TIMEOUT_ERROR,
};

verus! {

// ---------------------------------------------------------------------------
// Histories
// ---------------------------------------------------------------------------

/// Something that happens to the state of the service.
pub enum Step {
    /// A call was refused because the daemon is dead.
    Refused,
    /// A call was started.
    Opened { sender: PendingSender },
    /// A call with a single response ended.
    Finished { id: u64, timed_out: bool, failed: bool },
    /// The entry of a call was removed.
    Forgotten { id: u64 },
    /// A line of the daemon was dispatched.
    Line { line: Seq<char>, parsed: Result<DocumentView, Seq<char>> },
    /// The connection to the daemon was lost.
    Disconnected,
}

/// Whether the step can happen: calls are started while the daemon is alive, and
/// refused while it is not; and what ends is a single-response call that was
/// started and has not ended yet.
pub open spec fn can_happen(s: AppView, unfinished: Set<u64>, step: Step) -> bool {
    match step {
        Step::Refused => !s.daemon_alive,
        Step::Opened { .. } => s.daemon_alive,
        Step::Finished { id, .. } => unfinished.contains(id),
        _ => true,
    }
}

/// The state after a step.
pub open spec fn after(s: AppView, step: Step) -> AppView {
    match step {
        Step::Refused => call_refused(s),
        Step::Opened { sender } => call_opened(s, sender),
        Step::Finished { id, timed_out, failed } => call_finished(s, id, timed_out, failed),
        Step::Forgotten { id } => call_forgotten(s, id),
        Step::Line { line, parsed } => line_dispatched(s, line, parsed),
        Step::Disconnected => disconnected(s),
    }
}

/// The state after some steps.
pub open spec fn after_all(s: AppView, steps: Seq<Step>) -> AppView
    decreases steps.len(),
{
    if steps.len() == 0 {
        s
    } else {
        after(after_all(s, steps.drop_last()), steps.last())
    }
}

/// The IDs of the single-response calls that were started and have not ended.
pub open spec fn unfinished(s: AppView, steps: Seq<Step>) -> Set<u64>
    decreases steps.len(),
{
    if steps.len() == 0 {
        Set::empty()
    } else {
        let before = unfinished(s, steps.drop_last());
        match steps.last() {
            Step::Opened { sender: PendingSender::Once(_) } => before.insert(
                after_all(s, steps.drop_last()).next_id,
            ),
            Step::Finished { id, .. } => before.remove(id),
            _ => before,
        }
    }
}

/// The steps can happen one after the other.
pub open spec fn is_history(s: AppView, steps: Seq<Step>) -> bool
    decreases steps.len(),
{
    steps.len() > 0 ==> {
        &&& is_history(s, steps.drop_last())
        &&& can_happen(
            after_all(s, steps.drop_last()),
            unfinished(s, steps.drop_last()),
            steps.last(),
        )
    }
}

/// How many of the steps are of a kind.
pub open spec fn count(steps: Seq<Step>, kind: spec_fn(Step) -> bool) -> nat
    decreases steps.len(),
{
    if steps.len() == 0 {
        0
    } else {
        count(steps.drop_last(), kind) + if kind(steps.last()) {
            1nat
        } else {
            0nat
        }
    }
}

/// A call was started.
pub open spec fn is_opening(step: Step) -> bool {
    step is Opened
}

/// A call was started or refused.
pub open spec fn is_call(step: Step) -> bool {
    step is Opened || step is Refused
}

/// A notification of the daemon was dispatched.
pub open spec fn is_notification(step: Step) -> bool {
    step matches Step::Line { parsed: Ok(message), .. } && response_id(message) is None
}

/// Every pending request has an ID that was given out.
pub open spec fn ids_given_out(s: AppView) -> bool {
    forall|id: u64| #[trigger] s.pending.contains_key(id) ==> 1 <= id < s.next_id
}

/// RPC IDs are given out in order, starting at one, as long as they last; only
/// IDs that were given out are waited for; and the next call takes the place of
/// no other.
pub proof fn ids_are_consecutive(s: AppView, steps: Seq<Step>)
    requires
        is_initial(s),
        is_history(s, steps),
        count(steps, |x: Step| is_opening(x)) < u64::MAX,
    ensures
        after_all(s, steps).next_id == 1 + count(steps, |x: Step| is_opening(x)),
        ids_given_out(after_all(s, steps)),
        !after_all(s, steps).pending.contains_key(after_all(s, steps).next_id),
    decreases steps.len(),
{
    if steps.len() > 0 {
        ids_are_consecutive(s, steps.drop_last());
    }
}

/// Every call is counted, once, whether it was started or refused.
pub proof fn calls_are_counted(s: AppView, steps: Seq<Step>)
    requires
        is_initial(s),
        is_history(s, steps),
        count(steps, |x: Step| is_call(x)) <= u64::MAX,
    ensures
        after_all(s, steps).metrics.rpc_calls == count(steps, |x: Step| is_call(x)),
    decreases steps.len(),
{
    if steps.len() > 0 {
        calls_are_counted(s, steps.drop_last());
    }
}

/// A call was refused, or a single-response call ended in an error.
pub open spec fn is_failure(step: Step) -> bool {
    match step {
        Step::Refused => true,
        Step::Finished { failed, .. } => failed,
        _ => false,
    }
}

/// Every refusal of a call and every failure of a single-response call is
/// counted, once, and nothing else is.
pub proof fn failures_are_counted(s: AppView, steps: Seq<Step>)
    requires
        is_initial(s),
        is_history(s, steps),
        count(steps, |x: Step| is_failure(x)) <= u64::MAX,
    ensures
        after_all(s, steps).metrics.rpc_errors == count(steps, |x: Step| is_failure(x)),
    decreases steps.len(),
{
    if steps.len() > 0 {
        failures_are_counted(s, steps.drop_last());
    }
}

/// A call fails at most once: the failures and the calls that have not ended are
/// no more than the calls.
proof fn failures_are_of_calls(s: AppView, steps: Seq<Step>)
    requires
        is_history(s, steps),
    ensures
        unfinished(s, steps).finite(),
        count(steps, |x: Step| is_failure(x)) + unfinished(s, steps).len() <= count(
            steps,
            |x: Step| is_call(x),
        ),
    decreases steps.len(),
{
    if steps.len() > 0 {
        failures_are_of_calls(s, steps.drop_last());
    }
}

/// There are never more errors than calls.
pub proof fn errors_never_exceed_calls(s: AppView, steps: Seq<Step>)
    requires
        is_initial(s),
        is_history(s, steps),
        count(steps, |x: Step| is_call(x)) <= u64::MAX,
    ensures
        after_all(s, steps).metrics.rpc_errors <= after_all(s, steps).metrics.rpc_calls,
{
    failures_are_of_calls(s, steps);
    calls_are_counted(s, steps);
    failures_are_counted(s, steps);
}

/// Every notification is counted, once, and nothing else is taken for one.
pub proof fn notifications_are_counted(s: AppView, steps: Seq<Step>)
    requires
        is_initial(s),
        is_history(s, steps),
        count(steps, |x: Step| is_notification(x)) <= u64::MAX,
    ensures
        after_all(s, steps).metrics.messages_received == count(
            steps,
            |x: Step| is_notification(x),
        ),
    decreases steps.len(),
{
    if steps.len() > 0 {
        notifications_are_counted(s, steps.drop_last());
    }
}

/// A daemon that was lost never counts as alive again.
pub proof fn dead_stays_dead(s: AppView, steps: Seq<Step>)
    requires
        !s.daemon_alive || exists|i: int| 0 <= i < steps.len() && steps[i] is Disconnected,
    ensures
        !after_all(s, steps).daemon_alive,
    decreases steps.len(),
{
    if steps.len() > 0 && !(steps.last() is Disconnected) {
        if s.daemon_alive {
            let i = choose|i: int| 0 <= i < steps.len() && steps[i] is Disconnected;
            assert(steps.drop_last()[i] is Disconnected);
        }
        dead_stays_dead(s, steps.drop_last());
    }
}

/// Nothing that happens changes the webhooks or the timeout of calls.
pub proof fn settings_stay(s: AppView, steps: Seq<Step>)
    ensures
        after_all(s, steps).webhooks == s.webhooks,
        after_all(s, steps).rpc_timeout_secs == s.rpc_timeout_secs,
    decreases steps.len(),
{
    if steps.len() > 0 {
        settings_stay(s, steps.drop_last());
    }
}

/// The step is about the call with the given ID: it starts that call, gives it
/// up, or is a response to it.
pub open spec fn concerns(s: AppView, step: Step, id: u64) -> bool {
    match step {
        Step::Opened { .. } => s.next_id == id,
        Step::Finished { id: other, timed_out, .. } => timed_out && other == id,
        Step::Forgotten { id: other } => other == id,
        Step::Line { parsed: Ok(message), .. } => response_id(message) == Some(id),
        _ => false,
    }
}

/// None of the steps is about the call with the given ID.
pub open spec fn leaves_alone(s: AppView, steps: Seq<Step>, id: u64) -> bool
    decreases steps.len(),
{
    steps.len() > 0 ==> {
        &&& leaves_alone(s, steps.drop_last(), id)
        &&& !concerns(after_all(s, steps.drop_last()), steps.last(), id)
    }
}

/// What waits for a response keeps waiting, whatever happens to other calls.
pub proof fn calls_do_not_interfere(s: AppView, steps: Seq<Step>, id: u64)
    requires
        leaves_alone(s, steps, id),
    ensures
        after_all(s, steps).pending.get(id) == s.pending.get(id),
    decreases steps.len(),
{
    if steps.len() > 0 {
        calls_do_not_interfere(s, steps.drop_last(), id);
    }
}

/// The response to a call goes to the channel of that call, with whatever
/// happened to other calls in between.
pub proof fn response_finds_its_call(
    s: AppView,
    sender: PendingSender,
    steps: Seq<Step>,
    line: Seq<char>,
    message: DocumentView,
)
    requires
        leaves_alone(call_opened(s, sender), steps, s.next_id),
        response_id(message) == Some(s.next_id),
    ensures
        ({
            let t = after_all(call_opened(s, sender), steps);
            dispatched(t.pending, t.metrics, line, Ok(message)).2
                == ReaderActionView::Deliver(sender, message)
        }),
{
    let opened = call_opened(s, sender);
    calls_do_not_interfere(opened, steps, s.next_id);
    assert(opened.pending.get(s.next_id) == Some(sender));
}

// ---------------------------------------------------------------------------
// Dispatching
// ---------------------------------------------------------------------------

/// A response is delivered only to what was registered for its ID, and leaves
/// every other entry as it is. It is no notification.
pub proof fn response_reaches_its_call_only(
    pending: Map<u64, PendingSender>,
    metrics: Metrics,
    line: Seq<char>,
    message: DocumentView,
    id: u64,
)
    requires
        response_id(message) == Some(id),
    ensures
        ({
            let (p, m, action) = dispatched(pending, metrics, line, Ok(message));
            &&& m == metrics
            &&& p.remove(id) == pending.remove(id)
            &&& action == match pending.get(id) {
                Some(sender) => ReaderActionView::Deliver(sender, message),
                None => ReaderActionView::Stale,
            }
        }),
{
    let (p, m, action) = dispatched(pending, metrics, line, Ok(message));
    assert(p.remove(id) =~= pending.remove(id));
}

/// A single-response call gets one response: the next one with its ID is stale.
pub proof fn single_response_is_single(
    pending: Map<u64, PendingSender>,
    metrics: Metrics,
    id: u64,
    channel: u64,
    first_line: Seq<char>,
    first: DocumentView,
    second_line: Seq<char>,
    second: DocumentView,
)
    requires
        pending.get(id) == Some(PendingSender::Once(channel)),
        response_id(first) == Some(id),
        response_id(second) == Some(id),
    ensures
        ({
            let (p1, m1, a1) = dispatched(pending, metrics, first_line, Ok(first));
            let (p2, m2, a2) = dispatched(p1, m1, second_line, Ok(second));
            &&& a1 == ReaderActionView::Deliver(PendingSender::Once(channel), first)
            &&& a2 == ReaderActionView::Stale
            &&& p1 == pending.remove(id)
            &&& p2 == p1
        }),
{
}

/// A multi-response call gets every response until it is cleaned up, and none
/// after that.
pub proof fn multi_response_lasts_until_cleanup(
    s: AppView,
    id: u64,
    channel: u64,
    line: Seq<char>,
    message: DocumentView,
)
    requires
        s.pending.get(id) == Some(PendingSender::Multi(channel)),
        response_id(message) == Some(id),
    ensures
        line_dispatched(s, line, Ok(message)) == s,
        dispatched(s.pending, s.metrics, line, Ok(message)).2 == ReaderActionView::Deliver(
            PendingSender::Multi(channel),
            message,
        ),
        ({
            let t = call_forgotten(s, id);
            &&& line_dispatched(t, line, Ok(message)) == t
            &&& dispatched(t.pending, t.metrics, line, Ok(message)).2 == ReaderActionView::Stale
        }),
{
}

/// A notification goes to all listeners as it came, and to no call.
pub proof fn notification_is_broadcast(
    pending: Map<u64, PendingSender>,
    metrics: Metrics,
    line: Seq<char>,
    message: DocumentView,
)
    requires
        response_id(message) is None,
    ensures
        dispatched(pending, metrics, line, Ok(message)) == (
            pending,
            Metrics { messages_received: counted(metrics.messages_received), ..metrics },
            ReaderActionView::Broadcast(line),
        ),
{
}

/// A line that is not JSON changes nothing.
pub proof fn bad_json_changes_nothing(s: AppView, line: Seq<char>, error: Seq<char>)
    ensures
        line_dispatched(s, line, Err(error)) == s,
        dispatched(s.pending, s.metrics, line, Err(error)).2 == ReaderActionView::BadJson(error),
{
}

// ---------------------------------------------------------------------------
// Calls from start to end
// ---------------------------------------------------------------------------

/// A call that is answered leaves nothing behind but its count: one call, and
/// one error if and only if the response is one.
pub proof fn answered_call_leaves_its_count(
    s: AppView,
    channel: u64,
    line: Seq<char>,
    message: DocumentView,
)
    requires
        !s.pending.contains_key(s.next_id),
        response_id(message) == Some(s.next_id),
    ensures
        ({
            let opened = call_opened(s, PendingSender::Once(channel));
            let answered = line_dispatched(opened, line, Ok(message));
            let failed = outcome_of(message) is Err;
            call_finished(answered, s.next_id, false, failed) == (AppView {
                next_id: counted(s.next_id),
                metrics: error_counted(
                    Metrics { rpc_calls: counted(s.metrics.rpc_calls), ..s.metrics },
                    failed,
                ),
                ..s
            })
        }),
{
    let opened = call_opened(s, PendingSender::Once(channel));
    let answered = line_dispatched(opened, line, Ok(message));
    assert(opened.pending.get(s.next_id) == Some(PendingSender::Once(channel)));
    assert(answered.pending =~= s.pending);
}

/// A call that takes too long leaves nothing behind but its count, one call and
/// one error, and a response that comes too late is stale. The status of its
/// error is that of a gateway timeout.
pub proof fn timed_out_call_leaves_its_count(
    s: AppView,
    channel: u64,
    line: Seq<char>,
    message: DocumentView,
)
    requires
        !s.pending.contains_key(s.next_id),
        response_id(message) == Some(s.next_id),
    ensures
        ({
            let opened = call_opened(s, PendingSender::Once(channel));
            let finished = call_finished(opened, s.next_id, true, true);
            &&& finished == (AppView {
                next_id: counted(s.next_id),
                metrics: error_counted(
                    Metrics { rpc_calls: counted(s.metrics.rpc_calls), ..s.metrics },
                    true,
                ),
                ..s
            })
            &&& dispatched(finished.pending, finished.metrics, line, Ok(message)).2
                == ReaderActionView::Stale
        }),
        outcome_of_wait(Wait::TimedOut) matches Err(e) && error_status(e)
            == Status::GatewayTimeout,
{
    let opened = call_opened(s, PendingSender::Once(channel));
    assert(call_finished(opened, s.next_id, true, true).pending =~= s.pending);
}

/// A call that is refused takes no ID and waits for nothing. The status of its
/// error is that the service is unavailable.
pub proof fn refused_call_leaves_its_count(s: AppView)
    ensures
        call_refused(s).pending == s.pending,
        call_refused(s).next_id == s.next_id,
        call_refused(s).metrics.rpc_calls == counted(s.metrics.rpc_calls),
        call_refused(s).metrics.rpc_errors == counted(s.metrics.rpc_errors),
        error_status(DAEMON_DEAD_ERROR@) == Status::ServiceUnavailable,
{
    reveal_strlit("RPC_TIMEOUT");
    reveal_strlit("DAEMON_DEAD");
    assert(RPC_TIMEOUT_ERROR@[0] == 'R' && DAEMON_DEAD_ERROR@[0] == 'D');
}

/// No JSON text passes for one of the two error texts that have a status of their
/// own.
pub proof fn json_text_is_no_sentinel(text: Seq<char>)
    requires
        starts_like_json(text),
    ensures
        text != RPC_TIMEOUT_ERROR@,
        text != DAEMON_DEAD_ERROR@,
        error_status(text) == Status::BadRequest,
{
    reveal_strlit("RPC_TIMEOUT");
    reveal_strlit("DAEMON_DEAD");
    assert(RPC_TIMEOUT_ERROR@[0] == 'R' && DAEMON_DEAD_ERROR@[0] == 'D');
}

/// An error that the daemon reports is answered as a bad request, whatever the
/// daemon chose to report.
pub proof fn daemon_error_is_a_bad_request(message: DocumentView)
    requires
        message.members_start_like_json(),
        outcome_of(message) is Err,
    ensures
        error_status(outcome_of(message)->Err_0) == Status::BadRequest,
{
    found_member_is_a_member(message.members, "error"@);
    json_text_is_no_sentinel(outcome_of(message)->Err_0);
}

/// A member that is found is one of the members.
proof fn found_member_is_a_member(members: Seq<(Seq<char>, ValueView)>, key: Seq<char>)
    requires
        find_member(members, key) is Some,
    ensures
        exists|i: int|
            0 <= i < members.len() && (#[trigger] members[i]).1 == find_member(members, key)->0,
    decreases members.len(),
{
    if members[0].0 != key {
        let rest = members.drop_first();
        found_member_is_a_member(rest, key);
        let i = choose|i: int|
            0 <= i < rest.len() && (#[trigger] rest[i]).1 == find_member(rest, key)->0;
        assert(members[i + 1].1 == rest[i].1);
    }
}

/// A multi-response call whose request the writer does not take fails with the
/// reason. It has taken its ID and left its entry; it counts as a call and as no
/// error.
pub proof fn unsent_multi_call_counts_as_a_call(s: AppView, channel: u64, reason: String)
    ensures
        handover_outcome(s.next_id, Handover::Failed(reason)) == Err::<u64, Seq<char>>(reason@),
        ({
            let opened = call_opened(s, PendingSender::Multi(channel));
            &&& opened.next_id == counted(s.next_id)
            &&& opened.pending.get(s.next_id) == Some(PendingSender::Multi(channel))
            &&& opened.pending.remove(s.next_id) == s.pending.remove(s.next_id)
            &&& opened.metrics == (Metrics {
                rpc_calls: counted(s.metrics.rpc_calls),
                ..s.metrics
            })
            &&& opened.daemon_alive == s.daemon_alive
        }),
{
    let opened = call_opened(s, PendingSender::Multi(channel));
    assert(opened.pending.remove(s.next_id) =~= s.pending.remove(s.next_id));
}

/// Linking a device, once the writer has taken the request, leaves no entry
/// behind, however either phase ends.
pub proof fn link_leaves_no_entry(s: AppView, channel: u64, first: LinkWait)
    requires
        !s.pending.contains_key(s.next_id),
    ensures
        ({
            let opened = call_opened(s, PendingSender::Multi(channel));
            let between = if first_outcome(first) is Err {
                call_forgotten(opened, s.next_id)
            } else {
                opened
            };
            &&& first_outcome(first) is Err ==> between.pending == s.pending
            &&& first_outcome(first) is Ok ==> between.pending.get(s.next_id) == Some(
                PendingSender::Multi(channel),
            )
            &&& call_forgotten(between, s.next_id).pending == s.pending
        }),
{
    let opened = call_opened(s, PendingSender::Multi(channel));
    assert(call_forgotten(opened, s.next_id).pending =~= s.pending);
    assert(s.pending.remove(s.next_id) =~= s.pending);
}

// ---------------------------------------------------------------------------
// Writing
// ---------------------------------------------------------------------------

/// `event` is what doing `action` can lead to.
pub open spec fn writer_answers(action: WriterAction, event: WriterEvent) -> bool {
    match action {
        WriterAction::Write(_) => event is Written || event is WriteFailed,
        WriterAction::Flush => event is Flushed,
        WriterAction::Receive => event is Line || event is ChannelClosed,
        WriterAction::Stop => false,
    }
}

/// A run of the write loop.
pub open spec fn is_writer_run(events: Seq<WriterEvent>) -> bool {
    forall|i: int|
        0 < i < events.len() ==> writer_answers(
            writer_action(events[i - 1]),
            #[trigger] events[i],
        )
}

/// A line is written and flushed before the next one is taken, and a loop that
/// failed to write takes no other.
pub proof fn lines_are_written_one_by_one(events: Seq<WriterEvent>, i: int, j: int)
    requires
        is_writer_run(events),
        0 <= i < j < events.len(),
        events[i] is Line,
        events[j] is Line,
    ensures
        j >= i + 3,
        events[i + 1] is Written,
        events[i + 2] is Flushed,
{
    assert(writer_answers(writer_action(events[i]), events[i + 1]));
    assert(writer_answers(writer_action(events[i + 1]), events[i + 2]));
}

} // verus!
