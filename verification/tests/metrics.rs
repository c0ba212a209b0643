use signal_cli_api::http::Status;
use signal_cli_api::state::{
    rpc_error_status, AppState, Metrics, BROADCAST_CAPACITY, DAEMON_DEAD_ERROR, RPC_TIMEOUT_ERROR,
};

fn expected(sent: u64, received: u64, calls: u64, errors: u64, clients: u64) -> String {
    format!(
        "# HELP signal_messages_sent_total Total messages sent\n\
         # TYPE signal_messages_sent_total counter\n\
         signal_messages_sent_total {}\n\
         # HELP signal_messages_received_total Total messages received\n\
         # TYPE signal_messages_received_total counter\n\
         signal_messages_received_total {}\n\
         # HELP signal_rpc_calls_total Total JSON-RPC calls to signal-cli\n\
         # TYPE signal_rpc_calls_total counter\n\
         signal_rpc_calls_total {}\n\
         # HELP signal_rpc_errors_total Total JSON-RPC errors\n\
         # TYPE signal_rpc_errors_total counter\n\
         signal_rpc_errors_total {}\n\
         # HELP signal_ws_clients_active Active WebSocket clients\n\
         # TYPE signal_ws_clients_active gauge\n\
         signal_ws_clients_active {}\n",
        sent, received, calls, errors, clients,
    )
}

#[test]
fn metrics_start_at_zero() {
    assert_eq!(Metrics::default().to_prometheus(), expected(0, 0, 0, 0, 0));
}

#[test]
fn metrics_count_separately() {
    let mut m = Metrics::default();
    m.inc_sent();
    for _ in 0..2 {
        m.inc_received();
    }
    for _ in 0..13 {
        m.inc_rpc();
    }
    for _ in 0..4 {
        m.inc_rpc_error();
    }
    m.ws_clients = 100;
    assert_eq!(m.to_prometheus(), expected(1, 2, 13, 4, 100));
}

#[test]
fn counters_start_again_when_full() {
    let mut m = Metrics { rpc_calls: u64::MAX, ..Metrics::default() };
    assert_eq!(m.to_prometheus(), expected(0, 0, 18446744073709551615, 0, 0));
    m.inc_rpc();
    assert_eq!(m, Metrics::default());
}

#[test]
fn error_texts_map_to_statuses() {
    assert_eq!(rpc_error_status(RPC_TIMEOUT_ERROR), Status::GatewayTimeout);
    assert_eq!(rpc_error_status(DAEMON_DEAD_ERROR), Status::ServiceUnavailable);
    assert_eq!(rpc_error_status("RPC_TIMEOUT "), Status::BadRequest);
    assert_eq!(rpc_error_status(""), Status::BadRequest);
    assert_eq!(rpc_error_status("Timeout waiting for startLink URI"), Status::BadRequest);
}

#[test]
fn statuses_have_their_codes() {
    assert_eq!(Status::Success.code(), 200);
    assert_eq!(Status::NoContent.code(), 204);
    assert_eq!(Status::BadRequest.code(), 400);
    assert_eq!(Status::ServiceUnavailable.code(), 503);
    assert_eq!(Status::GatewayTimeout.code(), 504);
}

#[test]
fn new_state_is_empty_and_alive() {
    let st = AppState::new();
    assert!(st.is_daemon_alive());
    assert_eq!(st.next_id, 1);
    assert_eq!(st.rpc_timeout_secs, 30);
    assert!(st.webhooks.is_empty());
    assert!(st.pending.is_empty());
    assert_eq!(st.metrics, Metrics::default());
    assert_eq!(BROADCAST_CAPACITY, 256);
}
