//! What holds of counters, of calls to the daemon and of its messages.

use dashmap::DashMap;
use serde_json::Value;
use vstd::prelude::*;

use super::json::{first_member_is_found, missing_member_is_not_found};
use crate::json::{
    bracketed, document_result, json_object, json_value, value_text, DocumentView, JsonValue,
    MemberView,
};
use crate::jsonrpc::{
    cleanup_multi, dispatch, pending_entries, reader_loop, request_line, request_members,
    response_outcome, rpc_call, rpc_call_multi, rpc_multi_sent, rpc_outcome, writer_loop, Handover,
    Outgoing, PendingSender, ReaderAction, ReaderEvent, RpcResponse, Wait, WriterAction,
    WriterEvent, MULTI_CAPACITY,
};
use crate::state::{Metrics, BROADCAST_CAPACITY};

verus! {

// ---------------------------------------------------------------------------
// Counters
// ---------------------------------------------------------------------------

/// Counting a message that was sent adds one to that counter, which starts again
/// at zero when it is full, and to no other.
pub proof fn sent_message_adds_one(m: &mut Metrics)
    requires
        call_ensures(Metrics::inc_sent, (m,), ()),
    ensures
        final(m).messages_sent == (old(m).messages_sent + 1) % 0x1_0000_0000_0000_0000,
        final(m).messages_received == old(m).messages_received,
        final(m).rpc_calls == old(m).rpc_calls,
        final(m).rpc_errors == old(m).rpc_errors,
        final(m).ws_clients == old(m).ws_clients,
{
}

/// Counting a message that was received adds one to that counter alone.
pub proof fn received_message_adds_one(m: &mut Metrics)
    requires
        call_ensures(Metrics::inc_received, (m,), ()),
    ensures
        final(m).messages_received == (old(m).messages_received + 1) % 0x1_0000_0000_0000_0000,
        final(m).messages_sent == old(m).messages_sent,
        final(m).rpc_calls == old(m).rpc_calls,
        final(m).rpc_errors == old(m).rpc_errors,
        final(m).ws_clients == old(m).ws_clients,
{
}

/// Counting a call adds one to that counter alone.
pub proof fn call_adds_one(m: &mut Metrics)
    requires
        call_ensures(Metrics::inc_rpc, (m,), ()),
    ensures
        final(m).rpc_calls == (old(m).rpc_calls + 1) % 0x1_0000_0000_0000_0000,
        final(m).messages_sent == old(m).messages_sent,
        final(m).messages_received == old(m).messages_received,
        final(m).rpc_errors == old(m).rpc_errors,
        final(m).ws_clients == old(m).ws_clients,
{
}

/// Counting an error adds one to that counter alone.
pub proof fn error_adds_one(m: &mut Metrics)
    requires
        call_ensures(Metrics::inc_rpc_error, (m,), ()),
    ensures
        final(m).rpc_errors == (old(m).rpc_errors + 1) % 0x1_0000_0000_0000_0000,
        final(m).messages_sent == old(m).messages_sent,
        final(m).messages_received == old(m).messages_received,
        final(m).rpc_calls == old(m).rpc_calls,
        final(m).ws_clients == old(m).ws_clients,
{
}

/// All counters start at zero.
pub proof fn counters_start_at_zero(r: Metrics)
    requires
        call_ensures(Metrics::default, (), r),
    ensures
        r.messages_sent == 0,
        r.messages_received == 0,
        r.rpc_calls == 0,
        r.rpc_errors == 0,
        r.ws_clients == 0,
{
}

/// The channels hold so many messages.
pub proof fn channels_hold_this_much()
    ensures
        MULTI_CAPACITY == 4,
        BROADCAST_CAPACITY == 256,
{
}

// ---------------------------------------------------------------------------
// Reading
// ---------------------------------------------------------------------------

/// A message whose member `id` is an integer that fits in `u64` is dispatched by
/// exactly that integer, whatever its other members are: to the entry of that ID,
/// or to nobody. It is not broadcast and not counted. A single-response entry is
/// then gone; a multi-response entry, and every other entry, stays.
pub proof fn response_goes_by_its_id(
    pending: &mut DashMap<u64, PendingSender>,
    metrics: &mut Metrics,
    line: String,
    d: RpcResponse,
    i: int,
    id: u64,
    r: ReaderAction,
)
    requires
        call_ensures(dispatch, (pending, metrics, line, Ok(d)), r),
        0 <= i < d.members@.len(),
        d.members@[i].0@ == "id"@,
        forall|j: int| 0 <= j < i ==> (#[trigger] d.members@[j]).0@ != "id"@,
        d.members@[i].1.leaf.unsigned == Some(id),
    ensures
        *final(metrics) == *old(metrics),
        pending_entries(*old(pending)).contains_key(id) ==> (r matches ReaderAction::Deliver(s, m)
            && s == pending_entries(*old(pending))[id] && m == d),
        !pending_entries(*old(pending)).contains_key(id) ==> r is Stale,
        pending_entries(*final(pending)).contains_key(id) <==> (pending_entries(
            *old(pending),
        ).contains_key(id) && pending_entries(*old(pending))[id] is Multi),
        forall|k: u64|
            k != id ==> #[trigger] pending_entries(*final(pending)).contains_key(k)
                == pending_entries(*old(pending)).contains_key(k),
        forall|k: u64| #[trigger]
            pending_entries(*final(pending)).contains_key(k) ==> pending_entries(
                *final(pending),
            )[k] == pending_entries(*old(pending))[k],
{
    first_member_is_found(d@.members, "id"@, i);
}

/// A message without a member `id` is broadcast to all listeners, as the line
/// that it came in, and counted as received. No entry changes.
pub proof fn message_without_id_is_broadcast(
    pending: &mut DashMap<u64, PendingSender>,
    metrics: &mut Metrics,
    line: String,
    d: RpcResponse,
    r: ReaderAction,
)
    requires
        call_ensures(dispatch, (pending, metrics, line, Ok(d)), r),
        forall|j: int| 0 <= j < d.members@.len() ==> (#[trigger] d.members@[j]).0@ != "id"@,
    ensures
        r matches ReaderAction::Broadcast(l) && l@ == line@,
        pending_entries(*final(pending)) == pending_entries(*old(pending)),
        final(metrics).messages_received == (old(metrics).messages_received + 1)
            % 0x1_0000_0000_0000_0000,
        final(metrics).messages_sent == old(metrics).messages_sent,
        final(metrics).rpc_calls == old(metrics).rpc_calls,
        final(metrics).rpc_errors == old(metrics).rpc_errors,
        final(metrics).ws_clients == old(metrics).ws_clients,
{
    missing_member_is_not_found(d@.members, "id"@);
}

/// So is a message whose member `id` is no integer that fits in `u64`.
pub proof fn message_with_another_id_is_broadcast(
    pending: &mut DashMap<u64, PendingSender>,
    metrics: &mut Metrics,
    line: String,
    d: RpcResponse,
    i: int,
    r: ReaderAction,
)
    requires
        call_ensures(dispatch, (pending, metrics, line, Ok(d)), r),
        0 <= i < d.members@.len(),
        d.members@[i].0@ == "id"@,
        forall|j: int| 0 <= j < i ==> (#[trigger] d.members@[j]).0@ != "id"@,
        d.members@[i].1.leaf.unsigned is None,
    ensures
        r matches ReaderAction::Broadcast(l) && l@ == line@,
        pending_entries(*final(pending)) == pending_entries(*old(pending)),
        final(metrics).messages_received == (old(metrics).messages_received + 1)
            % 0x1_0000_0000_0000_0000,
        final(metrics).messages_sent == old(metrics).messages_sent,
        final(metrics).rpc_calls == old(metrics).rpc_calls,
        final(metrics).rpc_errors == old(metrics).rpc_errors,
        final(metrics).ws_clients == old(metrics).ws_clients,
{
    first_member_is_found(d@.members, "id"@, i);
}

/// A line that is not JSON is passed over, for the reason that was given.
pub proof fn other_lines_are_passed_over(
    pending: &mut DashMap<u64, PendingSender>,
    metrics: &mut Metrics,
    line: String,
    e: String,
    r: ReaderAction,
)
    requires
        call_ensures(dispatch, (pending, metrics, line, Err(e)), r),
    ensures
        r matches ReaderAction::BadJson(t) && t@ == e@,
        pending_entries(*final(pending)) == pending_entries(*old(pending)),
        *final(metrics) == *old(metrics),
{
}

/// The response to a call comes back to the channel of that call: a message with
/// the ID that was given out is delivered to it, whatever else it holds.
pub proof fn response_comes_back_to_its_call(
    pending: &mut DashMap<u64, PendingSender>,
    next_id: &mut u64,
    method: &str,
    params: Value,
    channel: u64,
    out: Outgoing,
    later: &mut DashMap<u64, PendingSender>,
    metrics: &mut Metrics,
    line: String,
    d: RpcResponse,
    i: int,
    r: ReaderAction,
)
    requires
        call_ensures(rpc_call, (pending, next_id, method, params, channel), out),
        pending_entries(*old(later)) == pending_entries(*final(pending)),
        call_ensures(dispatch, (later, metrics, line, Ok(d)), r),
        0 <= i < d.members@.len(),
        d.members@[i].0@ == "id"@,
        forall|j: int| 0 <= j < i ==> (#[trigger] d.members@[j]).0@ != "id"@,
        d.members@[i].1.leaf.unsigned == Some(out.id),
    ensures
        r matches ReaderAction::Deliver(s, m) && s == PendingSender::Once(channel) && m == d,
        !pending_entries(*final(later)).contains_key(out.id),
{
    response_goes_by_its_id(later, metrics, line, d, i, out.id, r);
}

/// The read loop dispatches what it reads in a line, and leaves the connection
/// alive.
pub proof fn line_that_was_read_is_dispatched(
    pending: &mut DashMap<u64, PendingSender>,
    metrics: &mut Metrics,
    alive: &mut bool,
    line: String,
    r: ReaderAction,
    pending2: &mut DashMap<u64, PendingSender>,
    metrics2: &mut Metrics,
    parsed: Result<RpcResponse, String>,
    q: ReaderAction,
)
    requires
        call_ensures(reader_loop, (pending, metrics, alive, ReaderEvent::Line(line)), r),
        document_result(parsed) == json_value(line@),
        pending_entries(*old(pending2)) == pending_entries(*old(pending)),
        *old(metrics2) == *old(metrics),
        call_ensures(dispatch, (pending2, metrics2, line, parsed), q),
    ensures
        *final(alive) == *old(alive),
        pending_entries(*final(pending)) == pending_entries(*final(pending2)),
        *final(metrics) == *final(metrics2),
        r is Stale <==> q is Stale,
        r matches ReaderAction::BadJson(e) ==> (q matches ReaderAction::BadJson(t) && t@ == e@),
        r matches ReaderAction::Broadcast(l) ==> l@ == line@ && q is Broadcast,
        r matches ReaderAction::Deliver(s, m) ==> (q matches ReaderAction::Deliver(t, n) && s == t
            && m@ == n@),
        !(r is Stop),
{
}

/// The end of the stream marks the daemon as dead and ends the read loop.
pub proof fn end_of_stream_is_the_end(
    pending: &mut DashMap<u64, PendingSender>,
    metrics: &mut Metrics,
    alive: &mut bool,
    r: ReaderAction,
)
    requires
        call_ensures(reader_loop, (pending, metrics, alive, ReaderEvent::Closed), r),
    ensures
        r is Stop,
        !*final(alive),
        pending_entries(*final(pending)) == pending_entries(*old(pending)),
        *final(metrics) == *old(metrics),
{
}

/// The model of what was read, or of the error, has all of it.
pub proof fn result_model_is_complete(parsed: Result<RpcResponse, String>)
    ensures
        parsed matches Ok(d) ==> document_result(parsed) == Ok::<_, Seq<char>>(d@),
        parsed matches Err(e) ==> document_result(parsed) == Err::<DocumentView, _>(e@),
{
}

// ---------------------------------------------------------------------------
// Writing
// ---------------------------------------------------------------------------

/// A line is written as it is, then flushed, then the next one is taken. The
/// connection stays as it was.
pub proof fn lines_are_written_as_they_are(
    alive: &mut bool,
    line: String,
    a: WriterAction,
    alive2: &mut bool,
    b: WriterAction,
    alive3: &mut bool,
    c: WriterAction,
)
    requires
        call_ensures(writer_loop, (alive, WriterEvent::Line(line)), a),
        call_ensures(writer_loop, (alive2, WriterEvent::Written), b),
        call_ensures(writer_loop, (alive3, WriterEvent::Flushed), c),
    ensures
        a matches WriterAction::Write(l) && l@ == line@,
        b is Flush,
        c is Receive,
        *final(alive) == *old(alive),
        *final(alive2) == *old(alive2),
        *final(alive3) == *old(alive3),
{
}

/// When there are no more lines, or one cannot be written, the loop ends and the
/// daemon is marked as dead.
pub proof fn end_of_writing_is_the_end(
    alive: &mut bool,
    a: WriterAction,
    alive2: &mut bool,
    b: WriterAction,
)
    requires
        call_ensures(writer_loop, (alive, WriterEvent::ChannelClosed), a),
        call_ensures(writer_loop, (alive2, WriterEvent::WriteFailed), b),
    ensures
        a is Stop,
        b is Stop,
        !*final(alive),
        !*final(alive2),
{
}

// ---------------------------------------------------------------------------
// Calling
// ---------------------------------------------------------------------------

/// A request is one line. What is read in it is an object of four members: the
/// version, the method, the parameters as they are read alone, and the ID. It can
/// be read if the parameters can be read within an array.
pub proof fn request_reads_as_it_was_made(method: &str, params: Value, id: u64, r: String)
    requires
        call_ensures(request_line, (method, params, id), r),
    ensures
        r@.len() > 0,
        r@.last() == '\n',
        forall|k: int| 0 <= k < r@.len() - 1 ==> r@[k] != '\n',
        r@ == json_object(
            seq![
                ("jsonrpc"@, MemberView::Text("2.0"@)),
                ("method"@, MemberView::Text(method@)),
                ("params"@, MemberView::Value(value_text(params))),
                ("id"@, MemberView::Unsigned(id)),
            ],
        ).push('\n'),
        json_value(r@.drop_last()) matches Ok(d) ==> {
            &&& d.members.len() == 4
            &&& d.member("jsonrpc"@) matches Some(v) && v.leaf.string == Some("2.0"@)
            &&& d.member("method"@) matches Some(m) && m.leaf.string == Some(method@)
            &&& d.member("id"@) matches Some(n) && n.leaf.unsigned == Some(id)
            &&& d.member("params"@) matches Some(p) && json_value(value_text(params)) matches Ok(q)
                && p.leaf == q.leaf
        },
        json_value("["@ + value_text(params) + "]"@) is Ok ==> json_value(r@.drop_last()) is Ok,
{
    let text = value_text(params);
    let model = seq![
        ("jsonrpc"@, MemberView::Text("2.0"@)),
        ("method"@, MemberView::Text(method@)),
        ("params"@, MemberView::Value(text)),
        ("id"@, MemberView::Unsigned(id)),
    ];
    assert(request_members(method@, text, id) =~= model);
    assert(model[0].0 == "jsonrpc"@ && model[3].0 == "id"@);
    assert forall|k: int| 0 <= k < r@.len() - 1 implies r@[k] != '\n' by {
        assert(r@.drop_last()[k] == r@[k]);
    }
    assert(bracketed(text, 0) == text);
    assert(bracketed(text, 1) == "["@ + text + "]"@);
}

/// A single-response call takes the next ID, registers its channel for one
/// response under that ID, and writes the request. Every other entry stays.
pub proof fn call_takes_the_next_id(
    pending: &mut DashMap<u64, PendingSender>,
    next_id: &mut u64,
    method: &str,
    params: Value,
    channel: u64,
    line: String,
    r: Outgoing,
)
    requires
        call_ensures(rpc_call, (pending, next_id, method, params, channel), r),
        call_ensures(request_line, (method, params, *old(next_id)), line),
    ensures
        r.id == *old(next_id),
        r.line@ == line@,
        *final(next_id) == (*old(next_id) + 1) % 0x1_0000_0000_0000_0000,
        pending_entries(*final(pending)).contains_key(r.id),
        pending_entries(*final(pending))[r.id] == PendingSender::Once(channel),
        pending_entries(*final(pending)).remove(r.id) == pending_entries(*old(pending)).remove(
            r.id,
        ),
{
    assert(pending_entries(*final(pending)).remove(r.id) =~= pending_entries(*old(pending)).remove(
        r.id,
    ));
}

/// A multi-response call does the same with a channel for several responses.
pub proof fn multi_call_takes_the_next_id(
    pending: &mut DashMap<u64, PendingSender>,
    next_id: &mut u64,
    method: &str,
    params: Value,
    channel: u64,
    line: String,
    r: Outgoing,
)
    requires
        call_ensures(rpc_call_multi, (pending, next_id, method, params, channel), r),
        call_ensures(request_line, (method, params, *old(next_id)), line),
    ensures
        r.id == *old(next_id),
        r.line@ == line@,
        *final(next_id) == (*old(next_id) + 1) % 0x1_0000_0000_0000_0000,
        pending_entries(*final(pending)).contains_key(r.id),
        pending_entries(*final(pending))[r.id] == PendingSender::Multi(channel),
        pending_entries(*final(pending)).remove(r.id) == pending_entries(*old(pending)).remove(
            r.id,
        ),
{
    assert(pending_entries(*final(pending)).remove(r.id) =~= pending_entries(*old(pending)).remove(
        r.id,
    ));
}

/// A multi-response call whose request was handed over goes by its ID; one whose
/// request the writer did not take fails with the reason. Its entry stays.
pub proof fn hand_over_decides(
    pending: &mut DashMap<u64, PendingSender>,
    id: u64,
    reason: String,
    a: Result<u64, String>,
    pending2: &mut DashMap<u64, PendingSender>,
    b: Result<u64, String>,
)
    requires
        call_ensures(rpc_multi_sent, (pending, id, Handover::Sent), a),
        call_ensures(rpc_multi_sent, (pending2, id, Handover::Failed(reason)), b),
    ensures
        a == Ok::<u64, String>(id),
        b matches Err(e) && e@ == reason@,
        pending_entries(*final(pending)) == pending_entries(*old(pending)),
        pending_entries(*final(pending2)) == pending_entries(*old(pending2)),
{
}

/// Cleaning up removes the entry of the call and no other.
pub proof fn cleanup_removes_one_entry(pending: &mut DashMap<u64, PendingSender>, id: u64)
    requires
        call_ensures(cleanup_multi, (pending, id), ()),
    ensures
        forall|k: u64| #[trigger]
            pending_entries(*final(pending)).contains_key(k) <==> k != id && pending_entries(
                *old(pending),
            ).contains_key(k),
        forall|k: u64| #[trigger]
            pending_entries(*final(pending)).contains_key(k) ==> pending_entries(
                *final(pending),
            )[k] == pending_entries(*old(pending))[k],
{
}

/// A response with a member `error` is a failure, with the JSON text of that
/// member, whatever else the response holds.
pub proof fn error_is_handed_out(d: RpcResponse, i: int, r: Result<JsonValue, String>)
    requires
        call_ensures(response_outcome, (&d,), r),
        0 <= i < d.members@.len(),
        d.members@[i].0@ == "error"@,
        forall|j: int| 0 <= j < i ==> (#[trigger] d.members@[j]).0@ != "error"@,
    ensures
        r matches Err(e) && e@ == d.members@[i].1.leaf.text@,
{
    assert(d.members@[i].0@ == "error"@);
}

/// A response without a member `error` hands out its member `result` as it is,
/// whatever kind of value that is: its text, its number, its string and its
/// members.
pub proof fn result_is_handed_out(d: RpcResponse, i: int, r: Result<JsonValue, String>)
    requires
        call_ensures(response_outcome, (&d,), r),
        forall|j: int| 0 <= j < d.members@.len() ==> (#[trigger] d.members@[j]).0@ != "error"@,
        0 <= i < d.members@.len(),
        d.members@[i].0@ == "result"@,
        forall|j: int| 0 <= j < i ==> (#[trigger] d.members@[j]).0@ != "result"@,
    ensures
        r matches Ok(v) && v.leaf.text@ == d.members@[i].1.leaf.text@ && v.leaf.unsigned
            == d.members@[i].1.leaf.unsigned && v.leaf.string == d.members@[i].1.leaf.string
            && v.members@ == d.members@[i].1.members@,
{
}

/// A response with neither member hands out null.
pub proof fn missing_result_is_null(d: RpcResponse, r: Result<JsonValue, String>)
    requires
        call_ensures(response_outcome, (&d,), r),
        forall|j: int| 0 <= j < d.members@.len() ==> (#[trigger] d.members@[j]).0@ != "error"@,
        forall|j: int| 0 <= j < d.members@.len() ==> (#[trigger] d.members@[j]).0@ != "result"@,
    ensures
        r matches Ok(v) && v.leaf.text@ == "null"@ && v.leaf.unsigned is None && v.leaf.string
            is None && v.members@.len() == 0,
{
}

/// A call that was answered ends as its response says, and no entry changes.
pub proof fn answered_call_ends_as_answered(
    pending: &mut DashMap<u64, PendingSender>,
    id: u64,
    d: RpcResponse,
    q: Result<JsonValue, String>,
    r: Result<JsonValue, String>,
)
    requires
        call_ensures(response_outcome, (&d,), q),
        call_ensures(rpc_outcome, (pending, id, Wait::Response(d)), r),
    ensures
        r is Ok <==> q is Ok,
        r matches Ok(v) ==> (q matches Ok(w) && v@ == w@),
        r matches Err(e) ==> (q matches Err(t) && e@ == t@),
        pending_entries(*final(pending)) == pending_entries(*old(pending)),
{
}

/// A call that was not answered fails, each way with its own text. Only one that
/// took too long is forgotten, and no other entry with it.
pub proof fn unanswered_call_fails(
    pending: &mut DashMap<u64, PendingSender>,
    id: u64,
    wait: Wait,
    r: Result<JsonValue, String>,
)
    requires
        !(wait is Response),
        call_ensures(rpc_outcome, (pending, id, wait), r),
    ensures
        wait is Dropped ==> (r matches Err(e) && e@ == "signal-cli did not respond"@),
        wait is TimedOut ==> (r matches Err(e) && e@ == "RPC_TIMEOUT"@),
        wait matches Wait::SendFailed(reason) ==> (r matches Err(e) && e@ == reason@),
        wait is TimedOut ==> pending_entries(*final(pending)) == pending_entries(
            *old(pending),
        ).remove(id),
        !(wait is TimedOut) ==> pending_entries(*final(pending)) == pending_entries(*old(pending)),
{
}

} // verus!
