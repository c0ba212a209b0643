//! Shared state of the service: counters, webhooks and the daemon connection.

use vstd::prelude::*;
use vstd::string::*;

use dashmap::DashMap;
use serde_json::Value;

use crate::http::Status;
use crate::json::{json_value, value_text, DocumentView, JsonValue};
use crate::jsonrpc::{
    cleanup_multi, dispatched, handover_outcome, is_request_line, new_pending, outcome_of_wait,
    outcome_view, pending_entries, reader_loop, rpc_call, rpc_call_multi, rpc_multi_sent,
    rpc_outcome, started_view, writer_action, writer_loop, Handover, Outgoing, PendingSender,
    ReaderAction, ReaderActionView, ReaderEvent, Wait, WriterAction, WriterEvent,
};
use crate::text::{decimal, decimal_text, same_text};

verus! {

// ---------------------------------------------------------------------------
// Metrics
// ---------------------------------------------------------------------------

/// Counters that are exported to Prometheus.
#[derive(Clone, Copy, Debug, PartialEq, Eq, Structural)]
pub struct Metrics {
    pub messages_sent: u64,
    pub messages_received: u64,
    pub rpc_calls: u64,
    pub rpc_errors: u64,
    pub ws_clients: u64,
}

/// The value after `n` of a counter that starts again at zero when it is full.
pub open spec fn counted(n: u64) -> u64 {
    if n == u64::MAX {
        0
    } else {
        (n + 1) as u64
    }
}

/// One metric in the Prometheus text format: its help line, its type line and
/// its value.
pub open spec fn sample(
    name: Seq<char>,
    help: Seq<char>,
    kind: Seq<char>,
    value: u64,
) -> Seq<char> {
    "# HELP "@ + name + " "@ + help + "\n# TYPE "@ + name + " "@ + kind + "\n"@ + name + " "@
        + decimal(value as nat) + "\n"@
}

/// All metrics in the Prometheus text format.
pub open spec fn prometheus_text(m: Metrics) -> Seq<char> {
    sample(
        "signal_messages_sent_total"@,
        "Total messages sent"@,
        "counter"@,
        m.messages_sent,
    ) + sample(
        "signal_messages_received_total"@,
        "Total messages received"@,
        "counter"@,
        m.messages_received,
    ) + sample(
        "signal_rpc_calls_total"@,
        "Total JSON-RPC calls to signal-cli"@,
        "counter"@,
        m.rpc_calls,
    ) + sample(
        "signal_rpc_errors_total"@,
        "Total JSON-RPC errors"@,
        "counter"@,
        m.rpc_errors,
    ) + sample(
        "signal_ws_clients_active"@,
        "Active WebSocket clients"@,
        "gauge"@,
        m.ws_clients,
    )
}

/// Writes one metric in the Prometheus text format.
fn sample_text(name: &str, help: &str, kind: &str, value: u64) -> (r: String)
    ensures
        r@ == sample(name@, help@, kind@, value),
{
    let mut out = "# HELP ".to_owned();
    out.append(name);
    out.append(" ");
    out.append(help);
    out.append("\n# TYPE ");
    out.append(name);
    out.append(" ");
    out.append(kind);
    out.append("\n");
    out.append(name);
    out.append(" ");
    out.append(decimal_text(value).as_str());
    out.append("\n");
    out
}

impl Default for Metrics {
    fn default() -> (r: Metrics)
        ensures
            r == (Metrics {
                messages_sent: 0,
                messages_received: 0,
                rpc_calls: 0,
                rpc_errors: 0,
                ws_clients: 0,
            }),
    {
        Metrics {
            messages_sent: 0,
            messages_received: 0,
            rpc_calls: 0,
            rpc_errors: 0,
            ws_clients: 0,
        }
    }
}

impl Metrics {
    pub fn inc_sent(&mut self)
        ensures
            *final(self) == (Metrics {
                messages_sent: counted(old(self).messages_sent),
                ..*old(self)
            }),
    {
        self.messages_sent = self.messages_sent.wrapping_add(1);
    }

    pub fn inc_received(&mut self)
        ensures
            *final(self) == (Metrics {
                messages_received: counted(old(self).messages_received),
                ..*old(self)
            }),
    {
        self.messages_received = self.messages_received.wrapping_add(1);
    }

    pub fn inc_rpc(&mut self)
        ensures
            *final(self) == (Metrics { rpc_calls: counted(old(self).rpc_calls), ..*old(self) }),
    {
        self.rpc_calls = self.rpc_calls.wrapping_add(1);
    }

    pub fn inc_rpc_error(&mut self)
        ensures
            *final(self) == (Metrics { rpc_errors: counted(old(self).rpc_errors), ..*old(self) }),
    {
        self.rpc_errors = self.rpc_errors.wrapping_add(1);
    }

    /// All metrics in the Prometheus text format.
    pub fn to_prometheus(&self) -> (r: String)
        ensures
            r@ == prometheus_text(*self),
    {
        let mut out = sample_text(
            "signal_messages_sent_total",
            "Total messages sent",
            "counter",
            self.messages_sent,
        );
        out.append(
            sample_text(
                "signal_messages_received_total",
                "Total messages received",
                "counter",
                self.messages_received,
            ).as_str(),
        );
        out.append(
            sample_text(
                "signal_rpc_calls_total",
                "Total JSON-RPC calls to signal-cli",
                "counter",
                self.rpc_calls,
            ).as_str(),
        );
        out.append(
            sample_text(
                "signal_rpc_errors_total",
                "Total JSON-RPC errors",
                "counter",
                self.rpc_errors,
            ).as_str(),
        );
        out.append(
            sample_text(
                "signal_ws_clients_active",
                "Active WebSocket clients",
                "gauge",
                self.ws_clients,
            ).as_str(),
        );
        out
    }
}

// ---------------------------------------------------------------------------
// Webhook
// ---------------------------------------------------------------------------

/// Where incoming messages are forwarded to.
#[derive(Clone, Debug)]
pub struct WebhookConfig {
    pub id: String,
    pub url: String,
    /// The events to forward; none means all of them.
    pub events: Vec<String>,
}

/// Error text of a call that took too long.
pub const RPC_TIMEOUT_ERROR: &'static str = "RPC_TIMEOUT";

/// Error text of a call while the daemon connection is dead.
pub const DAEMON_DEAD_ERROR: &'static str = "DAEMON_DEAD";

/// The HTTP status for the error text of a call.
pub open spec fn error_status(err: Seq<char>) -> Status {
    if err == RPC_TIMEOUT_ERROR@ {
        Status::GatewayTimeout
    } else if err == DAEMON_DEAD_ERROR@ {
        Status::ServiceUnavailable
    } else {
        Status::BadRequest
    }
}

/// The HTTP status for the error text of a call.
pub fn rpc_error_status(err: &str) -> (r: Status)
    ensures
        r == error_status(err@),
{
    if same_text(err, RPC_TIMEOUT_ERROR) {
        Status::GatewayTimeout
    } else if same_text(err, DAEMON_DEAD_ERROR) {
        Status::ServiceUnavailable
    } else {
        Status::BadRequest
    }
}

// ---------------------------------------------------------------------------
// AppState
// ---------------------------------------------------------------------------

/// How many notifications the broadcast channel holds.
pub const BROADCAST_CAPACITY: usize = 256;

/// The state that all tasks share.
pub struct AppState {
    pub pending: DashMap<u64, PendingSender>,
    pub next_id: u64,
    pub metrics: Metrics,
    pub webhooks: Vec<WebhookConfig>,
    /// How long a call waits for its response, in seconds.
    pub rpc_timeout_secs: u64,
    /// Set to `false` when the connection to the daemon dies. Then the health
    /// check fails, and calls fail at once instead of waiting for a timeout.
    pub daemon_alive: bool,
}

/// The model of an [`AppState`].
pub struct AppView {
    pub pending: Map<u64, PendingSender>,
    pub next_id: u64,
    pub metrics: Metrics,
    pub webhooks: Seq<WebhookConfig>,
    pub rpc_timeout_secs: u64,
    pub daemon_alive: bool,
}

impl View for AppState {
    type V = AppView;

    open spec fn view(&self) -> AppView {
        AppView {
            pending: pending_entries(self.pending),
            next_id: self.next_id,
            metrics: self.metrics,
            webhooks: self.webhooks@,
            rpc_timeout_secs: self.rpc_timeout_secs,
            daemon_alive: self.daemon_alive,
        }
    }
}

/// The state that the service starts with.
pub open spec fn is_initial(s: AppView) -> bool {
    &&& s.pending == Map::<u64, PendingSender>::empty()
    &&& s.next_id == 1
    &&& s.metrics == (Metrics {
        messages_sent: 0,
        messages_received: 0,
        rpc_calls: 0,
        rpc_errors: 0,
        ws_clients: 0,
    })
    &&& s.webhooks == Seq::<WebhookConfig>::empty()
    &&& s.rpc_timeout_secs == 30
    &&& s.daemon_alive
}

/// The metrics after a call, or a step of it, failed or did not.
pub open spec fn error_counted(m: Metrics, failed: bool) -> Metrics {
    if failed {
        Metrics { rpc_errors: counted(m.rpc_errors), ..m }
    } else {
        m
    }
}

/// The state after a call was refused because the daemon is dead.
pub open spec fn call_refused(s: AppView) -> AppView {
    AppView {
        metrics: error_counted(
            Metrics { rpc_calls: counted(s.metrics.rpc_calls), ..s.metrics },
            true,
        ),
        ..s
    }
}

/// The state after a call was started, with a sender for its responses.
pub open spec fn call_opened(s: AppView, sender: PendingSender) -> AppView {
    AppView {
        pending: s.pending.insert(s.next_id, sender),
        next_id: counted(s.next_id),
        metrics: Metrics { rpc_calls: counted(s.metrics.rpc_calls), ..s.metrics },
        ..s
    }
}

/// The state after a call with a single response ended.
pub open spec fn call_finished(s: AppView, id: u64, timed_out: bool, failed: bool) -> AppView {
    AppView {
        pending: if timed_out {
            s.pending.remove(id)
        } else {
            s.pending
        },
        metrics: error_counted(s.metrics, failed),
        ..s
    }
}

/// The state after the entry of a call was removed.
pub open spec fn call_forgotten(s: AppView, id: u64) -> AppView {
    AppView { pending: s.pending.remove(id), ..s }
}

/// The state after a line of the daemon was dispatched.
pub open spec fn line_dispatched(
    s: AppView,
    line: Seq<char>,
    parsed: Result<DocumentView, Seq<char>>,
) -> AppView {
    let (pending, metrics, action) = dispatched(s.pending, s.metrics, line, parsed);
    AppView { pending, metrics, ..s }
}

/// The state after the connection to the daemon was lost.
pub open spec fn disconnected(s: AppView) -> AppView {
    AppView { daemon_alive: false, ..s }
}

impl AppState {
    pub fn new() -> (r: AppState)
        ensures
            is_initial(r@),
    {
        AppState {
            pending: new_pending(),
            next_id: 1,
            metrics: Metrics::default(),
            webhooks: Vec::new(),
            rpc_timeout_secs: 30,
            daemon_alive: true,
        }
    }

    /// Whether the connection to the daemon is alive.
    pub fn is_daemon_alive(&self) -> (r: bool)
        ensures
            r == self@.daemon_alive,
    {
        self.daemon_alive
    }

    /// Starts a call with a single response. Fails at once, with
    /// [`DAEMON_DEAD_ERROR`], if the connection is known to be down. Otherwise
    /// the request is to be written to the daemon, and how the wait for the
    /// response ended is to be handed to [`AppState::rpc_finish`].
    pub fn rpc(&mut self, method: &str, params: Value, channel: u64) -> (r: Result<Outgoing, String>)
        ensures
            !old(self)@.daemon_alive ==> {
                &&& r matches Err(e) && e@ == DAEMON_DEAD_ERROR@
                &&& final(self)@ == call_refused(old(self)@)
            },
            old(self)@.daemon_alive ==> {
                &&& r matches Ok(out) && out.id == old(self)@.next_id && is_request_line(
                    out.line@,
                    method@,
                    value_text(params),
                    out.id,
                )
                &&& final(self)@ == call_opened(old(self)@, PendingSender::Once(channel))
            },
    {
        if !self.is_daemon_alive() {
            self.metrics.inc_rpc();
            self.metrics.inc_rpc_error();
            return Err(DAEMON_DEAD_ERROR.to_owned());
        }
        self.metrics.inc_rpc();
        Ok(rpc_call(&mut self.pending, &mut self.next_id, method, params, channel))
    }

    /// Ends a call with a single response, and counts it if it failed.
    pub fn rpc_finish(&mut self, id: u64, wait: Wait) -> (r: Result<JsonValue, String>)
        ensures
            outcome_view(r) == outcome_of_wait(wait),
            final(self)@ == call_finished(old(self)@, id, wait is TimedOut, r is Err),
    {
        let r = rpc_outcome(&mut self.pending, id, wait);
        if r.is_err() {
            self.metrics.inc_rpc_error();
        }
        r
    }

    /// Starts a call with several responses (such as `startLink`). Fails at
    /// once, with [`DAEMON_DEAD_ERROR`], if the connection is known to be down.
    /// Otherwise the request is to be written to the daemon, and how that was
    /// taken is to be handed to [`AppState::rpc_multi_sent`].
    /// [`AppState::cleanup_multi_rpc`] must be called when done.
    pub fn rpc_multi(&mut self, method: &str, params: Value, channel: u64) -> (r: Result<
        Outgoing,
        String,
    >)
        ensures
            !old(self)@.daemon_alive ==> {
                &&& r matches Err(e) && e@ == DAEMON_DEAD_ERROR@
                &&& final(self)@ == call_refused(old(self)@)
            },
            old(self)@.daemon_alive ==> {
                &&& r matches Ok(out) && out.id == old(self)@.next_id && is_request_line(
                    out.line@,
                    method@,
                    value_text(params),
                    out.id,
                )
                &&& final(self)@ == call_opened(old(self)@, PendingSender::Multi(channel))
            },
    {
        if !self.is_daemon_alive() {
            self.metrics.inc_rpc();
            self.metrics.inc_rpc_error();
            return Err(DAEMON_DEAD_ERROR.to_owned());
        }
        self.metrics.inc_rpc();
        Ok(rpc_call_multi(&mut self.pending, &mut self.next_id, method, params, channel))
    }

    /// Goes on with a multi-response call after its request was handed to the
    /// writer. If the writer did not take it the call fails with the reason; its
    /// entry stays, and the failure is not counted.
    pub fn rpc_multi_sent(&mut self, id: u64, handover: Handover) -> (r: Result<u64, String>)
        ensures
            started_view(r) == handover_outcome(id, handover),
            final(self)@ == old(self)@,
    {
        rpc_multi_sent(&mut self.pending, id, handover)
    }

    /// Removes the entry of a multi-response call.
    pub fn cleanup_multi_rpc(&mut self, id: u64)
        ensures
            final(self)@ == call_forgotten(old(self)@, id),
    {
        cleanup_multi(&mut self.pending, id);
    }

    /// One turn of the read loop (see [`reader_loop`]).
    pub fn reader_turn(&mut self, event: ReaderEvent) -> (r: ReaderAction)
        ensures
            match event {
                ReaderEvent::Line(line) => {
                    &&& final(self)@ == line_dispatched(old(self)@, line@, json_value(line@))
                    &&& r@ == dispatched(
                        old(self)@.pending,
                        old(self)@.metrics,
                        line@,
                        json_value(line@),
                    ).2
                    &&& r@ matches ReaderActionView::Deliver(_, m) ==> m.members_start_like_json()
                },
                ReaderEvent::Closed => {
                    &&& final(self)@ == disconnected(old(self)@)
                    &&& r@ == ReaderActionView::Stop
                },
            },
    {
        reader_loop(&mut self.pending, &mut self.metrics, &mut self.daemon_alive, event)
    }

    /// One turn of the write loop (see [`writer_loop`]).
    pub fn writer_turn(&mut self, event: WriterEvent) -> (r: WriterAction)
        ensures
            r == writer_action(event),
            final(self)@ == (if r is Stop {
                disconnected(old(self)@)
            } else {
                old(self)@
            }),
    {
        writer_loop(&mut self.daemon_alive, event)
    }
}

} // verus!
