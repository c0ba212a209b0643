use serde_json::Value;
use signal_cli_api::jsonrpc::{
    cleanup_multi, dispatch, request_line, response_outcome, rpc_call, rpc_call_multi,
    rpc_multi_sent, rpc_outcome, writer_loop, Handover, PendingSender, ReaderAction, ReaderEvent, RpcResponse, Wait, WriterAction,
    WriterEvent, MULTI_CAPACITY,
};
use signal_cli_api::http::Status;
use signal_cli_api::state::{
    rpc_error_status, AppState, WebhookConfig, DAEMON_DEAD_ERROR, RPC_TIMEOUT_ERROR,
};

fn json(text: &str) -> Value {
    serde_json::from_str(text).unwrap()
}

fn line(st: &mut AppState, text: &str) -> ReaderAction {
    st.reader_turn(ReaderEvent::Line(text.to_string()))
}

fn delivered(action: ReaderAction) -> (PendingSender, RpcResponse) {
    match action {
        ReaderAction::Deliver(sender, response) => (sender, response),
        _ => panic!("not delivered"),
    }
}

/// Opens a call, lets the given line answer it, and returns the outcome.
fn outcome(answer: &str) -> Result<String, String> {
    let mut st = AppState::new();
    let out = st.rpc("version", json("{}"), 9).unwrap();
    let (sender, response) = delivered(line(&mut st, answer));
    assert_eq!(sender, PendingSender::Once(9));
    st.rpc_finish(out.id, Wait::Response(response)).map(|v| v.leaf.text)
}

#[test]
fn request_is_one_line_of_json_rpc() {
    let text = request_line("send", json("{\"message\":\"a\\nb\"}"), 7);
    assert_eq!(
        text,
        "{\"id\":7,\"jsonrpc\":\"2.0\",\"method\":\"send\",\"params\":{\"message\":\"a\\nb\"}}\n"
    );
    let v: Value = serde_json::from_str(&text).unwrap();
    assert_eq!(v["jsonrpc"], "2.0");
    assert_eq!(v["method"], "send");
    assert_eq!(v["id"], 7);
    assert_eq!(v["params"]["message"], "a\nb");
}

#[test]
fn request_escapes_the_method() {
    let text = request_line("a\"\n\u{e9}", Value::Null, u64::MAX);
    assert_eq!(
        text,
        "{\"id\":18446744073709551615,\"jsonrpc\":\"2.0\",\"method\":\"a\\\"\\n\u{e9}\",\"params\":null}\n"
    );
}

#[test]
fn request_spreads_no_lines_of_its_params() {
    let text = request_line("m", json("{\n \"b\": [1, 2],\n \"a\": 1.5\n}"), 1);
    assert_eq!(
        text,
        "{\"id\":1,\"jsonrpc\":\"2.0\",\"method\":\"m\",\"params\":{\"a\":1.5,\"b\":[1,2]}}\n"
    );
}

#[test]
fn request_takes_params_of_any_depth() {
    let mut v = Value::from(1);
    for _ in 0..300 {
        v = Value::Array(vec![v]);
    }
    let text = request_line("m", v, 1);
    let nested = format!("{}1{}", "[".repeat(300), "]".repeat(300));
    assert_eq!(
        text,
        format!("{{\"id\":1,\"jsonrpc\":\"2.0\",\"method\":\"m\",\"params\":{nested}}}\n")
    );
}

#[test]
fn request_can_be_read_up_to_the_nesting_limit() {
    for (levels, readable) in [(126, true), (127, false)] {
        let mut v = Value::from("x");
        for _ in 0..levels {
            v = Value::Array(vec![v]);
        }
        // Within one level, as the request holds its params.
        let within = Value::Array(vec![v.clone()]).to_string();
        assert_eq!(serde_json::from_str::<Value>(&within).is_ok(), readable);
        let text = request_line("m", v, 1);
        assert_eq!(serde_json::from_str::<Value>(&text).is_ok(), readable);
    }
}

#[test]
fn request_keeps_fractions() {
    for x in [0.1, 1.7976931348623157e308, 5e-324, 2.2250738585072011e-308, -0.3] {
        let text = request_line("m", Value::from(x), 1);
        assert!(text.ends_with(&format!("\"params\":{}}}\n", Value::from(x))));
    }
}

#[test]
fn ids_count_up_from_one() {
    let mut st = AppState::new();
    assert_eq!(st.rpc("a", json("{}"), 10).unwrap().id, 1);
    assert_eq!(st.rpc_multi("b", json("{}"), 11).unwrap().id, 2);
    assert_eq!(st.rpc("c", json("{}"), 12).unwrap().id, 3);
    assert_eq!(st.pending.len(), 3);
    assert_eq!(st.pending.get(&1).map(|s| *s), Some(PendingSender::Once(10)));
    assert_eq!(st.pending.get(&2).map(|s| *s), Some(PendingSender::Multi(11)));
    assert_eq!(st.pending.get(&3).map(|s| *s), Some(PendingSender::Once(12)));
    assert_eq!(MULTI_CAPACITY, 4);
}

#[test]
fn ids_start_again_at_zero_when_used_up() {
    let mut st = AppState::new();
    let mut next_id = u64::MAX;
    let out = rpc_call(&mut st.pending, &mut next_id, "a", json("{}"), 1);
    assert_eq!((out.id, next_id), (u64::MAX, 0));
    let out = rpc_call_multi(&mut st.pending, &mut next_id, "a", json("{}"), 2);
    assert_eq!((out.id, next_id), (0, 1));
}

#[test]
fn new_entry_takes_the_place_of_an_old_one() {
    let mut st = AppState::new();
    let mut next_id = 4;
    rpc_call(&mut st.pending, &mut next_id, "a", json("{}"), 1);
    next_id = 4;
    rpc_call_multi(&mut st.pending, &mut next_id, "a", json("{}"), 2);
    assert_eq!(st.pending.len(), 1);
    assert_eq!(st.pending.get(&4).map(|s| *s), Some(PendingSender::Multi(2)));
}

#[test]
fn unsent_multi_call_keeps_its_entry() {
    let mut st = AppState::new();
    st.rpc("a", json("{}"), 10).unwrap();
    let out = st.rpc_multi("startLink", json("{}"), 11).unwrap();
    let reason = "channel closed".to_string();
    assert_eq!(
        st.rpc_multi_sent(out.id, Handover::Failed(reason.clone())),
        Err("channel closed".to_string())
    );
    assert_eq!(st.next_id, 3);
    assert_eq!(st.pending.len(), 2);
    assert_eq!(st.pending.get(&1).map(|s| *s), Some(PendingSender::Once(10)));
    assert_eq!(st.pending.get(&2).map(|s| *s), Some(PendingSender::Multi(11)));
    assert_eq!((st.metrics.rpc_calls, st.metrics.rpc_errors), (2, 0));
    assert_eq!(rpc_error_status(&reason), Status::BadRequest);
}

#[test]
fn sent_multi_call_has_its_id() {
    let mut st = AppState::new();
    let out = st.rpc_multi("startLink", json("{}"), 5).unwrap();
    assert_eq!(st.rpc_multi_sent(out.id, Handover::Sent), Ok(1));
    assert_eq!(rpc_multi_sent(&mut st.pending, 9, Handover::Sent), Ok(9));
    assert_eq!(st.pending.len(), 1);
    assert_eq!((st.metrics.rpc_calls, st.metrics.rpc_errors), (1, 0));
}

#[test]
fn result_is_handed_out() {
    assert_eq!(outcome("{\"id\":1,\"result\":{\"b\":1,\"a\":[true]}}"), Ok("{\"a\":[true],\"b\":1}".to_string()));
    assert_eq!(outcome("{\"id\":1,\"result\":\"x\"}"), Ok("\"x\"".to_string()));
    assert_eq!(outcome("{\"id\":1}"), Ok("null".to_string()));
    assert_eq!(outcome("{\"id\":1,\"result\":null}"), Ok("null".to_string()));
}

#[test]
fn error_is_handed_out_as_text() {
    assert_eq!(
        outcome("{\"id\":1,\"error\":{\"message\":\"no\",\"code\":-1},\"result\":2}"),
        Err("{\"code\":-1,\"message\":\"no\"}".to_string())
    );
    // The daemon cannot feign an error of the service.
    let e = outcome("{\"id\":1,\"error\":\"RPC_TIMEOUT\"}").unwrap_err();
    assert_eq!(e, "\"RPC_TIMEOUT\"");
    assert_eq!(rpc_error_status(&e), Status::BadRequest);
    // A null error is an error too.
    assert_eq!(outcome("{\"id\":1,\"error\":null,\"result\":2}"), Err("null".to_string()));
}

#[test]
fn string_result_keeps_its_characters() {
    let mut st = AppState::new();
    st.rpc("m", json("{}"), 1).unwrap();
    let (_, response) = delivered(line(&mut st, "{\"result\":\"a\\u00e9\\n\",\"id\":1}"));
    let v = response_outcome(&response).unwrap();
    assert_eq!(v.leaf.string, Some("a\u{e9}\n".to_string()));
    assert_eq!(v.leaf.unsigned, None);
    assert_eq!(response.get("id").unwrap().leaf.unsigned, Some(1));
    assert!(response.get("error").is_none());
}

#[test]
fn single_response_is_delivered_once() {
    let mut st = AppState::new();
    st.rpc("a", json("{}"), 1).unwrap();
    st.rpc("b", json("{}"), 2).unwrap();
    let (sender, _) = delivered(line(&mut st, "{\"id\":2,\"result\":0}"));
    assert_eq!(sender, PendingSender::Once(2));
    assert!(matches!(line(&mut st, "{\"id\":2,\"result\":0}"), ReaderAction::Stale));
    let (sender, _) = delivered(line(&mut st, "{\"id\":1,\"result\":0}"));
    assert_eq!(sender, PendingSender::Once(1));
    assert!(st.pending.is_empty());
    assert_eq!(st.metrics.messages_received, 0);
}

#[test]
fn multi_response_is_delivered_until_cleanup() {
    let mut st = AppState::new();
    let out = st.rpc_multi("startLink", json("{}"), 6).unwrap();
    for _ in 0..3 {
        let (sender, _) = delivered(line(&mut st, "{\"id\":1}"));
        assert_eq!(sender, PendingSender::Multi(6));
    }
    st.cleanup_multi_rpc(out.id);
    assert!(matches!(line(&mut st, "{\"id\":1}"), ReaderAction::Stale));
    // To clean up again does no harm.
    cleanup_multi(&mut st.pending, out.id);
    assert!(st.pending.is_empty());
}

#[test]
fn notification_is_broadcast_and_counted() {
    let mut st = AppState::new();
    st.rpc("a", json("{}"), 1).unwrap();
    for text in [
        "{\"method\":\"receive\",  \"params\":{}}",
        "{\"id\":\"1\"}",
        "{\"id\":-1}",
        "{\"id\":1.0}",
        "{\"id\":null}",
        "[{\"id\":1}]",
        "3",
    ] {
        match line(&mut st, text) {
            ReaderAction::Broadcast(l) => assert_eq!(l, text),
            _ => panic!("not broadcast"),
        }
    }
    assert_eq!(st.metrics.messages_received, 7);
    assert_eq!(st.pending.len(), 1);
}

#[test]
fn bad_json_is_passed_over() {
    let mut st = AppState::new();
    st.rpc("a", json("{}"), 1).unwrap();
    for text in ["", "{\"id\":1", "hello", "{\"id\":1} x"] {
        match line(&mut st, text) {
            ReaderAction::BadJson(e) => {
                assert_eq!(e, serde_json::from_str::<Value>(text).unwrap_err().to_string())
            }
            _ => panic!("read"),
        }
    }
    assert_eq!(st.metrics.messages_received, 0);
    assert_eq!(st.pending.len(), 1);
    assert!(st.is_daemon_alive());
}

#[test]
fn dispatch_goes_by_what_was_read() {
    let mut st = AppState::new();
    let action =
        dispatch(&mut st.pending, &mut st.metrics, "x".to_string(), Err("no JSON".to_string()));
    assert!(matches!(action, ReaderAction::BadJson(e) if e == "no JSON"));
}

#[test]
fn end_of_stream_marks_the_daemon_dead() {
    let mut st = AppState::new();
    st.rpc("a", json("{}"), 1).unwrap();
    assert!(matches!(st.reader_turn(ReaderEvent::Closed), ReaderAction::Stop));
    assert!(!st.is_daemon_alive());
    assert_eq!(st.pending.len(), 1);
    // Lines do not bring it back.
    assert!(matches!(line(&mut st, "{}"), ReaderAction::Broadcast(_)));
    assert!(!st.is_daemon_alive());
}

#[test]
fn dead_daemon_refuses_calls_at_once() {
    let mut st = AppState::new();
    st.reader_turn(ReaderEvent::Closed);
    assert_eq!(st.rpc("a", json("{}"), 1).err(), Some(DAEMON_DEAD_ERROR.to_string()));
    assert_eq!(st.rpc_multi("a", json("{}"), 1).err(), Some(DAEMON_DEAD_ERROR.to_string()));
    assert_eq!((st.metrics.rpc_calls, st.metrics.rpc_errors), (2, 2));
    assert_eq!(st.next_id, 1);
    assert!(st.pending.is_empty());
}

#[test]
fn calls_and_errors_are_counted() {
    let mut st = AppState::new();
    let out = st.rpc("a", json("{}"), 1).unwrap();
    let (_, response) = delivered(line(&mut st, "{\"id\":1,\"result\":1}"));
    assert!(st.rpc_finish(out.id, Wait::Response(response)).is_ok());
    assert_eq!((st.metrics.rpc_calls, st.metrics.rpc_errors), (1, 0));
    let out = st.rpc("a", json("{}"), 1).unwrap();
    let (_, response) = delivered(line(&mut st, "{\"id\":2,\"error\":1}"));
    assert!(st.rpc_finish(out.id, Wait::Response(response)).is_err());
    assert_eq!((st.metrics.rpc_calls, st.metrics.rpc_errors), (2, 1));
    st.rpc_multi("a", json("{}"), 1).unwrap();
    assert_eq!((st.metrics.rpc_calls, st.metrics.rpc_errors), (3, 1));
}

#[test]
fn late_response_is_stale() {
    let mut st = AppState::new();
    let out = st.rpc("a", json("{}"), 1).unwrap();
    assert_eq!(st.rpc_finish(out.id, Wait::TimedOut).err(), Some(RPC_TIMEOUT_ERROR.to_string()));
    assert_eq!((st.metrics.rpc_calls, st.metrics.rpc_errors), (1, 1));
    assert!(st.pending.is_empty());
    assert!(matches!(line(&mut st, "{\"id\":1,\"result\":1}"), ReaderAction::Stale));
}

#[test]
fn other_failures_leave_the_entry() {
    let mut st = AppState::new();
    let out = st.rpc("a", json("{}"), 1).unwrap();
    assert_eq!(
        rpc_outcome(&mut st.pending, out.id, Wait::Dropped).err(),
        Some("signal-cli did not respond".to_string())
    );
    assert_eq!(
        rpc_outcome(&mut st.pending, out.id, Wait::SendFailed("channel closed".to_string())).err(),
        Some("channel closed".to_string())
    );
    assert_eq!(st.pending.len(), 1);
}

#[test]
fn writer_writes_and_flushes_each_line() {
    let mut alive = true;
    match writer_loop(&mut alive, WriterEvent::Line("x\n".to_string())) {
        WriterAction::Write(l) => assert_eq!(l, "x\n"),
        _ => panic!("not written"),
    }
    assert!(matches!(writer_loop(&mut alive, WriterEvent::Written), WriterAction::Flush));
    assert!(matches!(writer_loop(&mut alive, WriterEvent::Flushed), WriterAction::Receive));
    assert!(alive);
    assert!(matches!(writer_loop(&mut alive, WriterEvent::WriteFailed), WriterAction::Stop));
    assert!(!alive);
    let mut st = AppState::new();
    assert!(matches!(st.writer_turn(WriterEvent::ChannelClosed), WriterAction::Stop));
    assert!(!st.is_daemon_alive());
}

#[test]
fn settings_outlast_everything() {
    let mut st = AppState::new();
    st.rpc_timeout_secs = 5;
    st.webhooks.push(WebhookConfig {
        id: "w".to_string(),
        url: "http://localhost/hook".to_string(),
        events: vec![],
    });
    let out = st.rpc("a", json("{}"), 1).unwrap();
    line(&mut st, "{\"method\":\"receive\"}");
    let _ = st.rpc_finish(out.id, Wait::TimedOut);
    st.reader_turn(ReaderEvent::Closed);
    let _ = st.rpc("a", json("{}"), 1);
    assert_eq!(st.rpc_timeout_secs, 5);
    assert_eq!(st.webhooks.len(), 1);
    assert_eq!(st.webhooks[0].url, "http://localhost/hook");
}
