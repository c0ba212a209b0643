//! What holds of the state that all tasks share, field by field.

use dashmap::DashMap;
use serde_json::Value;
use vstd::prelude::*;

use crate::json::JsonValue;
use crate::jsonrpc::{
    pending_entries, reader_loop, request_line, rpc_outcome, writer_loop, Handover, Outgoing,
    PendingSender, ReaderAction, ReaderEvent, Wait, WriterAction, WriterEvent,
};
use crate::state::{AppState, Metrics};
use crate::text::decimal_text;

verus! {

/// The service starts with a live connection, no calls, the ID one, counters at
/// zero, no webhooks and a timeout of thirty seconds.
pub proof fn service_starts_afresh(r: AppState)
    requires
        call_ensures(AppState::new, (), r),
    ensures
        r.daemon_alive,
        r.next_id == 1,
        r.rpc_timeout_secs == 30,
        r.webhooks@.len() == 0,
        forall|id: u64| !(#[trigger] pending_entries(r.pending).contains_key(id)),
        r.metrics.messages_sent == 0,
        r.metrics.messages_received == 0,
        r.metrics.rpc_calls == 0,
        r.metrics.rpc_errors == 0,
        r.metrics.ws_clients == 0,
{
}

/// Whether the daemon is alive is what was last noted of it.
pub proof fn liveness_is_what_was_noted(st: AppState, r: bool)
    requires
        call_ensures(AppState::is_daemon_alive, (&st,), r),
    ensures
        r == st.daemon_alive,
{
}

/// The model of the state has all of its fields.
pub proof fn state_model_is_complete(st: AppState)
    ensures
        st@.pending == pending_entries(st.pending),
        st@.next_id == st.next_id,
        st@.metrics == st.metrics,
        st@.webhooks == st.webhooks@,
        st@.rpc_timeout_secs == st.rpc_timeout_secs,
        st@.daemon_alive == st.daemon_alive,
{
}

/// While the daemon is alive a single-response call takes the next ID, registers
/// its channel, writes the request, and counts as a call and as no error.
pub proof fn live_call_is_opened(
    st: &mut AppState,
    method: &str,
    params: Value,
    channel: u64,
    line: String,
    r: Result<Outgoing, String>,
)
    requires
        old(st).daemon_alive,
        call_ensures(AppState::rpc, (st, method, params, channel), r),
        call_ensures(request_line, (method, params, old(st).next_id), line),
    ensures
        r matches Ok(out) && out.id == old(st).next_id && out.line@ == line@,
        final(st).next_id == (old(st).next_id + 1) % 0x1_0000_0000_0000_0000,
        pending_entries(final(st).pending) == pending_entries(old(st).pending).insert(
            old(st).next_id,
            PendingSender::Once(channel),
        ),
        final(st).metrics.rpc_calls == (old(st).metrics.rpc_calls + 1) % 0x1_0000_0000_0000_0000,
        final(st).metrics.rpc_errors == old(st).metrics.rpc_errors,
        final(st).metrics.messages_sent == old(st).metrics.messages_sent,
        final(st).metrics.messages_received == old(st).metrics.messages_received,
        final(st).metrics.ws_clients == old(st).metrics.ws_clients,
        final(st).webhooks@ == old(st).webhooks@,
        final(st).rpc_timeout_secs == old(st).rpc_timeout_secs,
        final(st).daemon_alive,
{
    assert(final(st)@.daemon_alive == final(st).daemon_alive);
}

/// While the daemon is alive a multi-response call does the same, with a channel
/// for several responses.
pub proof fn live_multi_call_is_opened(
    st: &mut AppState,
    method: &str,
    params: Value,
    channel: u64,
    line: String,
    r: Result<Outgoing, String>,
)
    requires
        old(st).daemon_alive,
        call_ensures(AppState::rpc_multi, (st, method, params, channel), r),
        call_ensures(request_line, (method, params, old(st).next_id), line),
    ensures
        r matches Ok(out) && out.id == old(st).next_id && out.line@ == line@,
        final(st).next_id == (old(st).next_id + 1) % 0x1_0000_0000_0000_0000,
        pending_entries(final(st).pending) == pending_entries(old(st).pending).insert(
            old(st).next_id,
            PendingSender::Multi(channel),
        ),
        final(st).metrics.rpc_calls == (old(st).metrics.rpc_calls + 1) % 0x1_0000_0000_0000_0000,
        final(st).metrics.rpc_errors == old(st).metrics.rpc_errors,
        final(st).metrics.messages_sent == old(st).metrics.messages_sent,
        final(st).metrics.messages_received == old(st).metrics.messages_received,
        final(st).metrics.ws_clients == old(st).metrics.ws_clients,
        final(st).webhooks@ == old(st).webhooks@,
        final(st).rpc_timeout_secs == old(st).rpc_timeout_secs,
        final(st).daemon_alive,
{
    assert(final(st)@.daemon_alive == final(st).daemon_alive);
}

/// While the daemon is dead a single-response call fails at once, and counts as a
/// call and as an error. It takes no ID and leaves no entry.
pub proof fn dead_call_is_refused(
    st: &mut AppState,
    method: &str,
    params: Value,
    channel: u64,
    r: Result<Outgoing, String>,
)
    requires
        !old(st).daemon_alive,
        call_ensures(AppState::rpc, (st, method, params, channel), r),
    ensures
        r matches Err(e) && e@ == "DAEMON_DEAD"@,
        final(st).next_id == old(st).next_id,
        pending_entries(final(st).pending) == pending_entries(old(st).pending),
        final(st).metrics.rpc_calls == (old(st).metrics.rpc_calls + 1) % 0x1_0000_0000_0000_0000,
        final(st).metrics.rpc_errors == (old(st).metrics.rpc_errors + 1) % 0x1_0000_0000_0000_0000,
        final(st).metrics.messages_sent == old(st).metrics.messages_sent,
        final(st).metrics.messages_received == old(st).metrics.messages_received,
        final(st).metrics.ws_clients == old(st).metrics.ws_clients,
        final(st).webhooks@ == old(st).webhooks@,
        final(st).rpc_timeout_secs == old(st).rpc_timeout_secs,
        !final(st).daemon_alive,
{
    assert(final(st)@.daemon_alive == final(st).daemon_alive);
}

/// So does a multi-response call.
pub proof fn dead_multi_call_is_refused(
    st: &mut AppState,
    method: &str,
    params: Value,
    channel: u64,
    r: Result<Outgoing, String>,
)
    requires
        !old(st).daemon_alive,
        call_ensures(AppState::rpc_multi, (st, method, params, channel), r),
    ensures
        r matches Err(e) && e@ == "DAEMON_DEAD"@,
        final(st).next_id == old(st).next_id,
        pending_entries(final(st).pending) == pending_entries(old(st).pending),
        final(st).metrics.rpc_calls == (old(st).metrics.rpc_calls + 1) % 0x1_0000_0000_0000_0000,
        final(st).metrics.rpc_errors == (old(st).metrics.rpc_errors + 1) % 0x1_0000_0000_0000_0000,
        final(st).metrics.messages_sent == old(st).metrics.messages_sent,
        final(st).metrics.messages_received == old(st).metrics.messages_received,
        final(st).metrics.ws_clients == old(st).metrics.ws_clients,
        final(st).webhooks@ == old(st).webhooks@,
        final(st).rpc_timeout_secs == old(st).rpc_timeout_secs,
        !final(st).daemon_alive,
{
    assert(final(st)@.daemon_alive == final(st).daemon_alive);
}

/// A call ends as [`rpc_outcome`] ends it, and is counted as an error if and only
/// if it failed. Nothing else changes.
pub proof fn finished_call_counts_if_it_failed(
    st: &mut AppState,
    pending: &mut DashMap<u64, PendingSender>,
    id: u64,
    wait: Wait,
    q: Result<JsonValue, String>,
    r: Result<JsonValue, String>,
)
    requires
        pending_entries(*old(pending)) == pending_entries(old(st).pending),
        call_ensures(rpc_outcome, (pending, id, wait), q),
        call_ensures(AppState::rpc_finish, (st, id, wait), r),
    ensures
        r is Ok <==> q is Ok,
        r matches Ok(v) ==> (q matches Ok(w) && v@ == w@),
        r matches Err(e) ==> (q matches Err(t) && e@ == t@),
        pending_entries(final(st).pending) == pending_entries(*final(pending)),
        r is Err ==> final(st).metrics.rpc_errors == (old(st).metrics.rpc_errors + 1)
            % 0x1_0000_0000_0000_0000,
        r is Ok ==> final(st).metrics.rpc_errors == old(st).metrics.rpc_errors,
        final(st).metrics.rpc_calls == old(st).metrics.rpc_calls,
        final(st).metrics.messages_sent == old(st).metrics.messages_sent,
        final(st).metrics.messages_received == old(st).metrics.messages_received,
        final(st).metrics.ws_clients == old(st).metrics.ws_clients,
        final(st).next_id == old(st).next_id,
        final(st).webhooks@ == old(st).webhooks@,
        final(st).rpc_timeout_secs == old(st).rpc_timeout_secs,
        final(st).daemon_alive == old(st).daemon_alive,
{
    assert(final(st)@.daemon_alive == final(st).daemon_alive);
}

/// How the request of a multi-response call was handed over decides whether the
/// call goes on. Either way nothing changes: its entry stays, and a failure is not
/// counted.
pub proof fn hand_over_changes_nothing(
    st: &mut AppState,
    id: u64,
    handover: Handover,
    r: Result<u64, String>,
)
    requires
        call_ensures(AppState::rpc_multi_sent, (st, id, handover), r),
    ensures
        handover is Sent ==> r == Ok::<u64, String>(id),
        handover matches Handover::Failed(reason) ==> (r matches Err(e) && e@ == reason@),
        pending_entries(final(st).pending) == pending_entries(old(st).pending),
        final(st).next_id == old(st).next_id,
        final(st).metrics == old(st).metrics,
        final(st).webhooks@ == old(st).webhooks@,
        final(st).rpc_timeout_secs == old(st).rpc_timeout_secs,
        final(st).daemon_alive == old(st).daemon_alive,
{
    assert(final(st)@ == old(st)@);
}

/// Cleaning up after a multi-response call removes its entry and changes nothing
/// else.
pub proof fn cleanup_changes_one_entry(st: &mut AppState, id: u64)
    requires
        call_ensures(AppState::cleanup_multi_rpc, (st, id), ()),
    ensures
        pending_entries(final(st).pending) == pending_entries(old(st).pending).remove(id),
        final(st).next_id == old(st).next_id,
        final(st).metrics == old(st).metrics,
        final(st).webhooks@ == old(st).webhooks@,
        final(st).rpc_timeout_secs == old(st).rpc_timeout_secs,
        final(st).daemon_alive == old(st).daemon_alive,
{
    assert(final(st)@.daemon_alive == final(st).daemon_alive);
}

/// A turn of the read loop does to the entries, the counters and the connection
/// what [`reader_loop`] does to them, and touches nothing else.
pub proof fn reader_turn_is_a_turn_of_the_loop(
    st: &mut AppState,
    event: ReaderEvent,
    r: ReaderAction,
    pending: &mut DashMap<u64, PendingSender>,
    metrics: &mut Metrics,
    alive: &mut bool,
    q: ReaderAction,
)
    requires
        call_ensures(AppState::reader_turn, (st, event), r),
        pending_entries(*old(pending)) == pending_entries(old(st).pending),
        *old(metrics) == old(st).metrics,
        *old(alive) == old(st).daemon_alive,
        call_ensures(reader_loop, (pending, metrics, alive, event), q),
    ensures
        r@ == q@,
        pending_entries(final(st).pending) == pending_entries(*final(pending)),
        final(st).metrics == *final(metrics),
        final(st).daemon_alive == *final(alive),
        final(st).next_id == old(st).next_id,
        final(st).webhooks@ == old(st).webhooks@,
        final(st).rpc_timeout_secs == old(st).rpc_timeout_secs,
{
    assert(final(st)@.daemon_alive == final(st).daemon_alive);
}

/// The model of what the read loop has to do tells which it is, with what.
pub proof fn action_model_is_complete(a: ReaderAction, b: ReaderAction)
    requires
        a@ == b@,
    ensures
        a is Stop <==> b is Stop,
        a is Stale <==> b is Stale,
        a matches ReaderAction::BadJson(e) ==> (b matches ReaderAction::BadJson(t) && e@ == t@),
        a matches ReaderAction::Broadcast(l) ==> (b matches ReaderAction::Broadcast(t) && l@ == t@),
        a matches ReaderAction::Deliver(s, m) ==> (b matches ReaderAction::Deliver(t, n) && s == t
            && m@ == n@),
{
}

/// A turn of the write loop does to the connection what [`writer_loop`] does to
/// it, and touches nothing else.
pub proof fn writer_turn_is_a_turn_of_the_loop(
    st: &mut AppState,
    event: WriterEvent,
    r: WriterAction,
    alive: &mut bool,
    q: WriterAction,
)
    requires
        call_ensures(AppState::writer_turn, (st, event), r),
        *old(alive) == old(st).daemon_alive,
        call_ensures(writer_loop, (alive, event), q),
    ensures
        r == q,
        final(st).daemon_alive == *final(alive),
        pending_entries(final(st).pending) == pending_entries(old(st).pending),
        final(st).metrics == old(st).metrics,
        final(st).next_id == old(st).next_id,
        final(st).webhooks@ == old(st).webhooks@,
        final(st).rpc_timeout_secs == old(st).rpc_timeout_secs,
{
    assert(final(st)@.daemon_alive == final(st).daemon_alive);
}

/// The exported text has, for each counter, its help line, its type line and its
/// value in decimal, in this order.
pub proof fn every_counter_is_exported(
    m: Metrics,
    sent: String,
    received: String,
    calls: String,
    errors: String,
    clients: String,
    r: String,
)
    requires
        call_ensures(decimal_text, (m.messages_sent,), sent),
        call_ensures(decimal_text, (m.messages_received,), received),
        call_ensures(decimal_text, (m.rpc_calls,), calls),
        call_ensures(decimal_text, (m.rpc_errors,), errors),
        call_ensures(decimal_text, (m.ws_clients,), clients),
        call_ensures(Metrics::to_prometheus, (&m,), r),
    ensures
        r@ == ("# HELP "@ + "signal_messages_sent_total"@ + " "@ + "Total messages sent"@
            + "\n# TYPE "@ + "signal_messages_sent_total"@ + " "@ + "counter"@ + "\n"@
            + "signal_messages_sent_total"@ + " "@ + sent@ + "\n"@) + ("# HELP "@ + "signal_messages_received_total"@ + " "@ + "Total messages received"@
            + "\n# TYPE "@ + "signal_messages_received_total"@ + " "@ + "counter"@ + "\n"@
            + "signal_messages_received_total"@ + " "@ + received@ + "\n"@) + ("# HELP "@ + "signal_rpc_calls_total"@ + " "@ + "Total JSON-RPC calls to signal-cli"@
            + "\n# TYPE "@ + "signal_rpc_calls_total"@ + " "@ + "counter"@ + "\n"@
            + "signal_rpc_calls_total"@ + " "@ + calls@ + "\n"@) + ("# HELP "@ + "signal_rpc_errors_total"@ + " "@ + "Total JSON-RPC errors"@
            + "\n# TYPE "@ + "signal_rpc_errors_total"@ + " "@ + "counter"@ + "\n"@
            + "signal_rpc_errors_total"@ + " "@ + errors@ + "\n"@) + ("# HELP "@ + "signal_ws_clients_active"@ + " "@ + "Active WebSocket clients"@
            + "\n# TYPE "@ + "signal_ws_clients_active"@ + " "@ + "gauge"@ + "\n"@
            + "signal_ws_clients_active"@ + " "@ + clients@ + "\n"@),
{
}

} // verus!
