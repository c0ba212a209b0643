use serde_json::Value;
use signal_cli_api::http::{Body, Reply, Status};
use signal_cli_api::json::JsonValue;
use signal_cli_api::jsonrpc::{PendingSender, ReaderAction, ReaderEvent, RpcResponse};
use signal_cli_api::routes::devices::{
    delete_local_data, link_completed, link_device, link_params, link_uri_received,
    list_devices, qrcodelink, qrcodelink_raw, remove_device, start_link_two_phase, LinkOutcome,
    LinkWait, LINK_COMPLETION_TIMEOUT_SECS, LINK_URI_TIMEOUT_SECS,
};
use signal_cli_api::routes::helpers::{rpc_no_content, rpc_ok};
use signal_cli_api::routes::{devices, system, Endpoint, Method};
use signal_cli_api::state::{AppState, DAEMON_DEAD_ERROR, RPC_TIMEOUT_ERROR};

fn response(st: &mut AppState, text: &str) -> RpcResponse {
    match st.reader_turn(ReaderEvent::Line(text.to_string())) {
        ReaderAction::Deliver(PendingSender::Multi(_), response) => response,
        _ => panic!("not delivered"),
    }
}

/// A state in which a link was started, with its RPC ID.
fn linking() -> (AppState, u64) {
    let mut st = AppState::new();
    let out = start_link_two_phase(&mut st, link_params(None), 3).unwrap();
    (st, out.id)
}

/// The result that a first response carries.
fn first_result(text: &str) -> JsonValue {
    let (mut st, id) = linking();
    let first = response(&mut st, text);
    link_uri_received(&mut st, id, LinkWait::Response(first)).unwrap()
}

fn json_body(reply: &Reply) -> Value {
    match &reply.body {
        Body::Json(t) => serde_json::from_str(t).unwrap(),
        _ => panic!("no JSON"),
    }
}

fn text_body(reply: Reply) -> String {
    match reply.body {
        Body::Text(t) => t,
        _ => panic!("no text"),
    }
}

#[test]
fn device_params_name_account_and_device() {
    assert_eq!(link_params(None).to_string(), "{}");
    assert_eq!(link_params(Some("my \"phone\"".to_string())).to_string(), "{\"deviceName\":\"my \\\"phone\\\"\"}");
    let r = link_device("+1".to_string(), "sgnl://x".to_string(), None);
    assert_eq!(r.method, "finishLink");
    assert_eq!(r.params.to_string(), "{\"account\":\"+1\",\"uri\":\"sgnl://x\"}");
    let r = link_device("+1".to_string(), "u".to_string(), Some("n".to_string()));
    assert_eq!(r.params.to_string(), "{\"account\":\"+1\",\"deviceName\":\"n\",\"uri\":\"u\"}");
    let r = list_devices("+2".to_string());
    assert_eq!((r.method.as_str(), r.params.to_string().as_str()), ("listDevices", "{\"account\":\"+2\"}"));
    let r = delete_local_data("+3".to_string());
    assert_eq!(
        (r.method.as_str(), r.params.to_string().as_str()),
        ("deleteLocalAccountData", "{\"account\":\"+3\"}")
    );
    let r = remove_device("+4".to_string(), -5);
    assert_eq!(
        (r.method.as_str(), r.params.to_string().as_str()),
        ("removeDevice", "{\"account\":\"+4\",\"deviceId\":-5}")
    );
}

#[test]
fn device_request_reads_back() {
    let mut st = AppState::new();
    let r = remove_device("+4".to_string(), 12);
    let params = r.params.to_string();
    let out = st.rpc(&r.method, r.params, 1).unwrap();
    let v: Value = serde_json::from_str(out.line.trim_end()).unwrap();
    assert_eq!(v["id"], out.id);
    assert_eq!(v["method"], "removeDevice");
    assert_eq!(v["params"]["account"], "+4");
    assert_eq!(v["params"]["deviceId"], 12);
    assert_eq!(v["params"].to_string(), params);
}

#[test]
fn link_runs_in_two_phases() {
    let (mut st, id) = linking();
    let first = response(&mut st, "{\"id\":1,\"result\":{\"deviceLinkUri\":\"sgnl://a\"}}");
    let uri = link_uri_received(&mut st, id, LinkWait::Response(first)).unwrap();
    assert_eq!(uri.leaf.text, "{\"deviceLinkUri\":\"sgnl://a\"}");
    assert_eq!(st.pending.len(), 1);
    let second = response(&mut st, "{\"id\":1,\"result\":\"+1234\"}");
    match link_completed(&mut st, id, LinkWait::Response(second)) {
        LinkOutcome::Linked(account) => assert_eq!(account, "+1234"),
        _ => panic!("not linked"),
    }
    assert!(st.pending.is_empty());
    assert_eq!((LINK_URI_TIMEOUT_SECS, LINK_COMPLETION_TIMEOUT_SECS), (30, 120));
}

#[test]
fn failed_first_phase_forgets_the_call() {
    for (wait, text) in [
        (LinkWait::Closed, "signal-cli closed the connection"),
        (LinkWait::TimedOut, "Timeout waiting for startLink URI"),
    ] {
        let (mut st, id) = linking();
        assert_eq!(link_uri_received(&mut st, id, wait).err(), Some(text.to_string()));
        assert!(st.pending.is_empty());
    }
    let (mut st, id) = linking();
    let first = response(&mut st, "{\"id\":1,\"error\":{\"code\":3}}");
    assert_eq!(
        link_uri_received(&mut st, id, LinkWait::Response(first)).err(),
        Some("{\"code\":3}".to_string())
    );
    assert!(st.pending.is_empty());
}

#[test]
fn second_phase_always_forgets_the_call() {
    let (mut st, id) = linking();
    assert!(matches!(link_completed(&mut st, id, LinkWait::Closed), LinkOutcome::Closed));
    assert!(st.pending.is_empty());
    let (mut st, id) = linking();
    assert!(matches!(link_completed(&mut st, id, LinkWait::TimedOut), LinkOutcome::TimedOut));
    assert!(st.pending.is_empty());
    let (mut st, id) = linking();
    let second = response(&mut st, "{\"id\":1,\"error\":\"e\"}");
    match link_completed(&mut st, id, LinkWait::Response(second)) {
        LinkOutcome::Failed(e) => assert_eq!(e, "\"e\""),
        _ => panic!("not failed"),
    }
    assert!(st.pending.is_empty());
    let (mut st, id) = linking();
    let second = response(&mut st, "{\"id\":1,\"result\":5}");
    match link_completed(&mut st, id, LinkWait::Response(second)) {
        LinkOutcome::Linked(account) => assert_eq!(account, "unknown"),
        _ => panic!("not linked"),
    }
    assert!(st.pending.is_empty());
}

#[test]
fn link_needs_a_live_daemon() {
    let mut st = AppState::new();
    st.reader_turn(ReaderEvent::Closed);
    assert_eq!(
        start_link_two_phase(&mut st, link_params(None), 1).err(),
        Some(DAEMON_DEAD_ERROR.to_string())
    );
}

#[test]
fn raw_link_finds_the_uri() {
    let cases = [
        ("{\"id\":1,\"result\":\"sgnl://b\"}", "sgnl://b"),
        ("{\"id\":1,\"result\":{\"deviceLinkUri\":\"sgnl://a\",\"x\":[1]}}", "sgnl://a"),
        ("{\"id\":1,\"result\":{\"deviceLinkUri\":1}}", ""),
        ("{\"id\":1,\"result\":{}}", ""),
        ("{\"id\":1}", ""),
        ("{\"id\":1,\"result\":[\"sgnl://a\"]}", ""),
        (
            "{\"id\":1,\"result\":{\"deviceLinkUri\":\"u\",\"$serde_json::private::RawValue\":\"{\"}}",
            "u",
        ),
    ];
    for (text, uri) in cases {
        let reply = qrcodelink_raw(Ok(first_result(text)));
        assert_eq!(reply.status, Status::Success);
        assert_eq!(text_body(reply), uri);
    }
    assert_eq!(text_body(qrcodelink_raw(Ok(JsonValue::null()))), "");
}

#[test]
fn replies_carry_result_or_error() {
    let v = first_result("{\"id\":1,\"result\":{\"a\":1}}");
    assert_eq!(v.duplicate().get("a").unwrap().unsigned, Some(1));
    assert!(v.get("b").is_none());
    let reply = qrcodelink(Ok(v.duplicate()));
    assert_eq!(reply.status, Status::Success);
    assert_eq!(json_body(&reply)["a"], 1);
    let reply = rpc_ok(Ok(v.duplicate()));
    assert_eq!(json_body(&reply).to_string(), "{\"a\":1}");
    let reply = rpc_no_content(Ok(v));
    assert_eq!(reply.status, Status::NoContent);
    assert!(matches!(reply.body, Body::Empty));

    let reply = qrcodelink(Err(DAEMON_DEAD_ERROR.to_string()));
    assert_eq!(reply.status, Status::ServiceUnavailable);
    assert_eq!(json_body(&reply).to_string(), "{\"error\":\"DAEMON_DEAD\"}");
    let reply = qrcodelink_raw(Err(RPC_TIMEOUT_ERROR.to_string()));
    assert_eq!(reply.status, Status::GatewayTimeout);
    assert_eq!(json_body(&reply)["error"], "RPC_TIMEOUT");
    let reply = rpc_no_content(Err("{\"code\":1}\n".to_string()));
    assert_eq!(reply.status, Status::BadRequest);
    assert_eq!(json_body(&reply)["error"], "{\"code\":1}\n");
}

#[test]
fn health_follows_the_connection() {
    let mut st = AppState::new();
    let reply = system::health(&st);
    assert_eq!(reply.status, Status::NoContent);
    assert!(matches!(reply.body, Body::Empty));
    st.reader_turn(ReaderEvent::Closed);
    let reply = system::health(&st);
    assert_eq!(reply.status, Status::ServiceUnavailable);
    assert_eq!(text_body(reply), "signal-cli daemon connection lost");
}

#[test]
fn about_describes_the_build() {
    let reply = system::about("1.2.3", "x86_64", "linux");
    assert_eq!(reply.status, Status::Success);
    assert_eq!(
        json_body(&reply).to_string(),
        "{\"build\":{\"os\":\"linux\",\"target\":\"x86_64\"},\"versions\":{\"signal-cli-api\":\"1.2.3\"}}"
    );
}

#[test]
fn routes_are_listed() {
    let device: Vec<_> =
        devices::routes().iter().map(|r| (r.method, r.path, r.endpoint)).collect();
    assert_eq!(
        device,
        vec![
            (Method::Get, "/v1/qrcodelink", Endpoint::QrCodeLink),
            (Method::Get, "/v1/qrcodelink/raw", Endpoint::QrCodeLinkRaw),
            (Method::Post, "/v1/devices/{number}", Endpoint::LinkDevice),
            (Method::Get, "/v1/devices/{number}", Endpoint::ListDevices),
            (Method::Delete, "/v1/devices/{number}/{device_id}", Endpoint::RemoveDevice),
            (Method::Delete, "/v1/devices/{number}/local-data", Endpoint::DeleteLocalData),
        ]
    );
    let system: Vec<_> = system::routes().iter().map(|r| (r.method, r.path, r.endpoint)).collect();
    assert_eq!(
        system,
        vec![
            (Method::Get, "/v1/health", Endpoint::Health),
            (Method::Get, "/v1/about", Endpoint::About),
        ]
    );
}
