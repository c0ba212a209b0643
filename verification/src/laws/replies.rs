//! What holds of routes, of the calls behind them and of their replies.

use serde_json::Value;
use vstd::prelude::*;

use super::json::{first_member_is_found, missing_member_is_not_found};
use crate::http::{Body, BodyView, Reply, Status};
use crate::json::{json_object, json_value, value_text, JsonValue};
use crate::jsonrpc::{pending_entries, response_outcome, Outgoing, RpcResponse};
use crate::routes::devices::{
    account_members, delete_local_data, device_name_members, link_completed, link_device,
    link_device_members, link_params, link_uri_received, list_devices, qrcodelink,
    qrcodelink_raw, remove_device, remove_device_members, start_link_two_phase, LinkOutcome,
    LinkWait, LINK_COMPLETION_TIMEOUT_SECS, LINK_URI_TIMEOUT_SECS,
};
use crate::routes::helpers::{error_members, error_reply, rpc_no_content, rpc_ok};
use crate::routes::system::{about, about_members, build_members, health, version_members};
use crate::routes::{devices, system, Endpoint, Method, Route, RpcRequest};
use crate::state::{rpc_error_status, AppState};
use crate::text::decimal_text;

verus! {

// ---------------------------------------------------------------------------
// Statuses and errors
// ---------------------------------------------------------------------------

/// The numbers of the statuses.
pub proof fn statuses_have_these_numbers(s: Status, r: u16)
    requires
        call_ensures(Status::code, (s,), r),
    ensures
        s is Success <==> r == 200,
        s is NoContent <==> r == 204,
        s is BadRequest <==> r == 400,
        s is ServiceUnavailable <==> r == 503,
        s is GatewayTimeout <==> r == 504,
        r == 200 || r == 204 || r == 400 || r == 503 || r == 504,
{
}

/// The model of a body tells its kind and its text.
pub proof fn body_model_is_complete(b: Body)
    ensures
        b is Empty <==> b@ is Empty,
        b matches Body::Text(t) ==> b@ == BodyView::Text(t@),
        b matches Body::Json(t) ==> b@ == BodyView::Json(t@),
{
}

/// A call that took too long is a gateway timeout, a call while the daemon is
/// dead is an unavailable service, and any other error is a bad request.
pub proof fn errors_have_these_statuses(err: &str, r: Status)
    requires
        call_ensures(rpc_error_status, (err,), r),
    ensures
        r is GatewayTimeout <==> err@ == "RPC_TIMEOUT"@,
        r is ServiceUnavailable <==> err@ == "DAEMON_DEAD"@,
        r is BadRequest <==> err@ != "RPC_TIMEOUT"@ && err@ != "DAEMON_DEAD"@,
{
    reveal_strlit("RPC_TIMEOUT");
    reveal_strlit("DAEMON_DEAD");
    assert("RPC_TIMEOUT"@[0] == 'R' && "DAEMON_DEAD"@[0] == 'D');
}

/// The reply to a failed call has the status of its error, and a JSON object with
/// the error text, in full, as its one member `error`.
pub proof fn error_is_reported_in_full(err: String, text: &str, status: Status, r: Reply)
    requires
        text@ == err@,
        call_ensures(rpc_error_status, (text,), status),
        call_ensures(error_reply, (err,), r),
    ensures
        r.status == status,
        ({
            &&& r.body matches Body::Json(t)
            &&& json_value(t@) matches Ok(d)
            &&& d.members.len() == 1
            &&& d.member("error"@) matches Some(v) && v.leaf.string == Some(err@)
        }),
{
    let model = error_members(err@);
    assert(model.len() == 1 && model[0].0 == "error"@);
}

/// The result of a call is answered as the JSON text that the daemon gave, and a
/// failed call as its error.
pub proof fn result_is_answered(v: JsonValue, a: Reply, e: String, q: Reply, b: Reply)
    requires
        call_ensures(rpc_ok, (Ok(v),), a),
        call_ensures(error_reply, (e,), q),
        call_ensures(rpc_ok, (Err(e),), b),
    ensures
        a.status is Success,
        a.body matches Body::Json(t) && t@ == v.leaf.text@,
        b.status == q.status,
        b.body matches Body::Json(t) && q.body matches Body::Json(u) && t@ == u@,
{
}

/// A call whose result does not matter is answered without a body, and a failed
/// one as its error.
pub proof fn success_is_answered(v: JsonValue, a: Reply, e: String, q: Reply, b: Reply)
    requires
        call_ensures(rpc_no_content, (Ok(v),), a),
        call_ensures(error_reply, (e,), q),
        call_ensures(rpc_no_content, (Err(e),), b),
    ensures
        a.status is NoContent,
        a.body is Empty,
        b.status == q.status,
        b.body matches Body::Json(t) && q.body matches Body::Json(u) && t@ == u@,
{
}

// ---------------------------------------------------------------------------
// Devices
// ---------------------------------------------------------------------------

/// The routes to devices.
pub proof fn device_routes_lead_here(r: Vec<Route>)
    requires
        call_ensures(devices::routes, (), r),
    ensures
        r@.len() == 6,
        r@[0].method is Get && r@[0].path@ == "/v1/qrcodelink"@ && r@[0].endpoint is QrCodeLink,
        r@[1].method is Get && r@[1].path@ == "/v1/qrcodelink/raw"@ && r@[1].endpoint
            is QrCodeLinkRaw,
        r@[2].method is Post && r@[2].path@ == "/v1/devices/{number}"@ && r@[2].endpoint
            is LinkDevice,
        r@[3].method is Get && r@[3].path@ == "/v1/devices/{number}"@ && r@[3].endpoint
            is ListDevices,
        r@[4].method is Delete && r@[4].path@ == "/v1/devices/{number}/{device_id}"@
            && r@[4].endpoint is RemoveDevice,
        r@[5].method is Delete && r@[5].path@ == "/v1/devices/{number}/local-data"@
            && r@[5].endpoint is DeleteLocalData,
{
}

/// No request finds two routes, nor does an endpoint have two.
pub proof fn device_routes_are_unique(r: Vec<Route>, i: int, j: int)
    requires
        call_ensures(devices::routes, (), r),
        0 <= i < j < r@.len(),
    ensures
        r@[i].method != r@[j].method || r@[i].path@ != r@[j].path@,
        r@[i].endpoint != r@[j].endpoint,
{
}

/// Linking starts the call `startLink` with the given parameters.
pub proof fn link_is_a_start_link_call(
    st: &mut AppState,
    params: Value,
    channel: u64,
    r: Result<Outgoing, String>,
    other: &mut AppState,
    q: Result<Outgoing, String>,
)
    requires
        old(other)@ == old(st)@,
        call_ensures(start_link_two_phase, (st, params, channel), r),
        call_ensures(AppState::rpc_multi, (other, "startLink", params, channel), q),
    ensures
        r is Ok <==> q is Ok,
        r matches Ok(a) ==> (q matches Ok(b) && a.id == b.id && a.line@ == b.line@),
        r matches Err(e) ==> (q matches Err(t) && e@ == t@),
        final(st)@ == final(other)@,
{
}

/// The first response ends the first phase as it would end a call. If that is a
/// failure the entry of the call is removed; if not it stays. Nothing else
/// changes.
pub proof fn first_response_is_handed_out(
    st: &mut AppState,
    id: u64,
    d: RpcResponse,
    q: Result<JsonValue, String>,
    r: Result<JsonValue, String>,
)
    requires
        call_ensures(response_outcome, (&d,), q),
        call_ensures(link_uri_received, (st, id, LinkWait::Response(d)), r),
    ensures
        r is Ok <==> q is Ok,
        r matches Ok(v) ==> (q matches Ok(w) && v@ == w@),
        r matches Err(e) ==> (q matches Err(t) && e@ == t@),
        r is Ok ==> pending_entries(final(st).pending) == pending_entries(old(st).pending),
        r is Err ==> pending_entries(final(st).pending) == pending_entries(old(st).pending).remove(
            id,
        ),
        final(st).next_id == old(st).next_id,
        final(st).metrics == old(st).metrics,
        final(st).webhooks@ == old(st).webhooks@,
        final(st).rpc_timeout_secs == old(st).rpc_timeout_secs,
        final(st).daemon_alive == old(st).daemon_alive,
{
    assert(final(st)@.daemon_alive == final(st).daemon_alive);
    assert(final(st)@.metrics == final(st).metrics);
}

/// Without a first response, for thirty seconds or because the channel was
/// closed, the first phase fails and the entry of the call is removed. Nothing
/// else changes.
pub proof fn missing_first_response_is_a_failure(
    st: &mut AppState,
    id: u64,
    wait: LinkWait,
    r: Result<JsonValue, String>,
)
    requires
        !(wait is Response),
        call_ensures(link_uri_received, (st, id, wait), r),
    ensures
        LINK_URI_TIMEOUT_SECS == 30,
        wait is Closed ==> (r matches Err(e) && e@ == "signal-cli closed the connection"@),
        wait is TimedOut ==> (r matches Err(e) && e@ == "Timeout waiting for startLink URI"@),
        pending_entries(final(st).pending) == pending_entries(old(st).pending).remove(id),
        final(st).next_id == old(st).next_id,
        final(st).metrics == old(st).metrics,
        final(st).webhooks@ == old(st).webhooks@,
        final(st).rpc_timeout_secs == old(st).rpc_timeout_secs,
        final(st).daemon_alive == old(st).daemon_alive,
{
    assert(final(st)@.daemon_alive == final(st).daemon_alive);
}

/// However the second phase ends, within two minutes or not, the entry of the
/// call is removed and nothing else changes.
pub proof fn second_phase_ends_the_call(
    st: &mut AppState,
    id: u64,
    wait: LinkWait,
    r: LinkOutcome,
)
    requires
        call_ensures(link_completed, (st, id, wait), r),
    ensures
        LINK_COMPLETION_TIMEOUT_SECS == 120,
        wait is Closed <==> r is Closed,
        wait is TimedOut <==> r is TimedOut,
        pending_entries(final(st).pending) == pending_entries(old(st).pending).remove(id),
        final(st).next_id == old(st).next_id,
        final(st).metrics == old(st).metrics,
        final(st).webhooks@ == old(st).webhooks@,
        final(st).rpc_timeout_secs == old(st).rpc_timeout_secs,
        final(st).daemon_alive == old(st).daemon_alive,
{
    assert(final(st)@.daemon_alive == final(st).daemon_alive);
}

/// A second response with a member `error` is a failure, with the JSON text of
/// that member.
pub proof fn second_error_is_a_failure(
    st: &mut AppState,
    id: u64,
    d: RpcResponse,
    i: int,
    r: LinkOutcome,
)
    requires
        call_ensures(link_completed, (st, id, LinkWait::Response(d)), r),
        0 <= i < d.members@.len(),
        d.members@[i].0@ == "error"@,
        forall|j: int| 0 <= j < i ==> (#[trigger] d.members@[j]).0@ != "error"@,
    ensures
        r matches LinkOutcome::Failed(e) && e@ == d.members@[i].1.leaf.text@,
{
    first_member_is_found(d@.members, "error"@, i);
}

/// A second response without a member `error` tells the linked account: its
/// member `result`, where that is a string, and else it is unknown.
pub proof fn second_result_is_the_account(
    st: &mut AppState,
    id: u64,
    d: RpcResponse,
    i: int,
    r: LinkOutcome,
)
    requires
        call_ensures(link_completed, (st, id, LinkWait::Response(d)), r),
        forall|j: int| 0 <= j < d.members@.len() ==> (#[trigger] d.members@[j]).0@ != "error"@,
        0 <= i < d.members@.len(),
        d.members@[i].0@ == "result"@,
        forall|j: int| 0 <= j < i ==> (#[trigger] d.members@[j]).0@ != "result"@,
    ensures
        d.members@[i].1.leaf.string matches Some(s) ==> (r matches LinkOutcome::Linked(a) && a@
            == s@),
        d.members@[i].1.leaf.string is None ==> (r matches LinkOutcome::Linked(a) && a@
            == "unknown"@),
{
    missing_member_is_not_found(d@.members, "error"@);
    first_member_is_found(d@.members, "result"@, i);
}

/// A second response with neither member leaves the account unknown.
pub proof fn missing_account_is_unknown(st: &mut AppState, id: u64, d: RpcResponse, r: LinkOutcome)
    requires
        call_ensures(link_completed, (st, id, LinkWait::Response(d)), r),
        forall|j: int| 0 <= j < d.members@.len() ==> (#[trigger] d.members@[j]).0@ != "error"@,
        forall|j: int| 0 <= j < d.members@.len() ==> (#[trigger] d.members@[j]).0@ != "result"@,
    ensures
        r matches LinkOutcome::Linked(a) && a@ == "unknown"@,
{
    missing_member_is_not_found(d@.members, "error"@);
    missing_member_is_not_found(d@.members, "result"@);
}

/// The parameters of `startLink` are an object with the name of the device, if it
/// has one, and nothing else.
pub proof fn link_names_the_device(name: Option<String>, r: Value)
    requires
        call_ensures(link_params, (name,), r),
    ensures
        json_value(value_text(r)) matches Ok(d) && {
            &&& name is None ==> d.members.len() == 0
            &&& name matches Some(n) ==> {
                &&& d.members.len() == 1
                &&& d.member("deviceName"@) matches Some(v) && v.leaf.string == Some(n@)
            }
        },
{
    if let Some(n) = name {
        let model = device_name_members(Some(n@));
        assert(model.len() == 1 && model[0].0 == "deviceName"@);
    }
}

/// Linking a device calls `finishLink` with the account, the URI and the name of
/// the device, if it has one, each in full.
pub proof fn link_tells_account_uri_and_name(
    number: String,
    uri: String,
    name: Option<String>,
    r: RpcRequest,
)
    requires
        call_ensures(link_device, (number, uri, name), r),
    ensures
        r.method@ == "finishLink"@,
        json_value(value_text(r.params)) matches Ok(d) && {
            &&& d.member("account"@) matches Some(a) && a.leaf.string == Some(number@)
            &&& d.member("uri"@) matches Some(u) && u.leaf.string == Some(uri@)
            &&& name is None ==> d.members.len() == 2
            &&& name matches Some(n) ==> {
                &&& d.members.len() == 3
                &&& d.member("deviceName"@) matches Some(v) && v.leaf.string == Some(n@)
            }
        },
{
    let model = link_device_members(
        number@,
        uri@,
        match name {
            Some(n) => Some(n@),
            None => None,
        },
    );
    assert(model[0].0 == "account"@ && model[1].0 == "uri"@);
    assert(name is Some ==> model.len() == 3 && model[2].0 == "deviceName"@);
}

/// Listing devices, and deleting local data, is about the account alone.
pub proof fn account_calls_tell_the_account(
    number: String,
    list: RpcRequest,
    delete: RpcRequest,
)
    requires
        call_ensures(list_devices, (number,), list),
        call_ensures(delete_local_data, (number,), delete),
    ensures
        list.method@ == "listDevices"@,
        delete.method@ == "deleteLocalAccountData"@,
        ({
            &&& json_value(value_text(list.params)) matches Ok(d)
            &&& d.members.len() == 1
            &&& d.member("account"@) matches Some(a) && a.leaf.string == Some(number@)
        }),
        ({
            &&& json_value(value_text(delete.params)) matches Ok(d)
            &&& d.members.len() == 1
            &&& d.member("account"@) matches Some(a) && a.leaf.string == Some(number@)
        }),
{
    let model = account_members(number@);
    assert(model.len() == 1 && model[0].0 == "account"@);
}

/// Removing a device tells the account, and the device by its number, which may
/// be negative.
pub proof fn removal_tells_account_and_device(
    number: String,
    device_id: i64,
    size: String,
    r: RpcRequest,
)
    requires
        call_ensures(remove_device, (number, device_id), r),
        call_ensures(
            decimal_text,
            (if device_id >= 0 {
                device_id as u64
            } else {
                (-device_id) as u64
            },),
            size,
        ),
    ensures
        r.method@ == "removeDevice"@,
        json_value(value_text(r.params)) matches Ok(d) && {
            &&& d.members.len() == 2
            &&& d.member("account"@) matches Some(a) && a.leaf.string == Some(number@)
            &&& d.member("deviceId"@) matches Some(i) && i.leaf.string is None && i.leaf.text == (
            if device_id >= 0 {
                size@
            } else {
                "-"@ + size@
            }) && (device_id >= 0 ==> i.leaf.unsigned == Some(device_id as u64))
        },
{
    let model = remove_device_members(number@, device_id);
    assert(model.len() == 2 && model[0].0 == "account"@ && model[1].0 == "deviceId"@);
}

/// The link URI is answered as the JSON text that the daemon gave, and a failed
/// link as its error.
pub proof fn link_is_answered_as_given(v: JsonValue, a: Reply, e: String, q: Reply, b: Reply)
    requires
        call_ensures(qrcodelink, (Ok(v),), a),
        call_ensures(error_reply, (e,), q),
        call_ensures(qrcodelink, (Err(e),), b),
    ensures
        a.status is Success,
        a.body matches Body::Json(t) && t@ == v.leaf.text@,
        b.status == q.status,
        b.body matches Body::Json(t) && q.body matches Body::Json(u) && t@ == u@,
{
}

/// A result that is a string is the link URI: the raw reply is that string,
/// character for character and of any length.
pub proof fn raw_reply_is_the_string(v: JsonValue, s: String, r: Reply)
    requires
        call_ensures(qrcodelink_raw, (Ok(v),), r),
        v.leaf.string == Some(s),
    ensures
        r.status is Success,
        r.body matches Body::Text(t) && t@ == s@,
{
}

/// Of a result that is no string the link URI is the member `deviceLinkUri`,
/// where that is a string: the raw reply is that string, character for character
/// and of any length. Where it is none the raw reply is empty.
pub proof fn raw_reply_is_the_member(v: JsonValue, i: int, r: Reply)
    requires
        call_ensures(qrcodelink_raw, (Ok(v),), r),
        v.leaf.string is None,
        0 <= i < v.members@.len(),
        v.members@[i].0@ == "deviceLinkUri"@,
        forall|j: int| 0 <= j < i ==> (#[trigger] v.members@[j]).0@ != "deviceLinkUri"@,
    ensures
        r.status is Success,
        v.members@[i].1.string matches Some(s) ==> (r.body matches Body::Text(t) && t@ == s@),
        v.members@[i].1.string is None ==> (r.body matches Body::Text(t) && t@.len() == 0),
{
    reveal_strlit("");
    first_member_is_found(v@.members, "deviceLinkUri"@, i);
}

/// Of a result that is no string and has no such member the raw reply is empty.
pub proof fn raw_reply_without_uri_is_empty(v: JsonValue, r: Reply)
    requires
        call_ensures(qrcodelink_raw, (Ok(v),), r),
        v.leaf.string is None,
        forall|j: int|
            0 <= j < v.members@.len() ==> (#[trigger] v.members@[j]).0@ != "deviceLinkUri"@,
    ensures
        r.status is Success,
        r.body matches Body::Text(t) && t@.len() == 0,
{
    reveal_strlit("");
    missing_member_is_not_found(v@.members, "deviceLinkUri"@);
}

/// A failed link is answered as its error, also in the raw reply.
pub proof fn raw_reply_reports_errors(e: String, q: Reply, r: Reply)
    requires
        call_ensures(error_reply, (e,), q),
        call_ensures(qrcodelink_raw, (Err(e),), r),
    ensures
        r.status == q.status,
        r.body matches Body::Json(t) && q.body matches Body::Json(u) && t@ == u@,
{
}

// ---------------------------------------------------------------------------
// System
// ---------------------------------------------------------------------------

/// The routes to the service itself.
pub proof fn system_routes_lead_here(r: Vec<Route>)
    requires
        call_ensures(system::routes, (), r),
    ensures
        r@.len() == 2,
        r@[0].method is Get && r@[0].path@ == "/v1/health"@ && r@[0].endpoint is Health,
        r@[1].method is Get && r@[1].path@ == "/v1/about"@ && r@[1].endpoint is About,
{
}

/// The health check succeeds if and only if the connection is alive.
pub proof fn health_is_liveness(st: AppState, r: Reply)
    requires
        call_ensures(health, (&st,), r),
    ensures
        st.daemon_alive ==> r.status is NoContent && r.body is Empty,
        !st.daemon_alive ==> r.status is ServiceUnavailable,
        !st.daemon_alive ==> (r.body matches Body::Text(t) && t@
            == "signal-cli daemon connection lost"@),
{
    assert(st@.daemon_alive == st.daemon_alive);
}

/// The description of the service is a JSON object with its version and with what
/// it was built for.
pub proof fn description_tells_version_and_build(
    version: &str,
    target: &str,
    os: &str,
    r: Reply,
)
    requires
        call_ensures(about, (version, target, os), r),
    ensures
        r.status is Success,
        ({
            &&& r.body matches Body::Json(t)
            &&& json_value(t@) matches Ok(d)
            &&& d.members.len() == 2
            &&& d.member("versions"@) matches Some(v)
            &&& json_value(v.leaf.text) matches Ok(x)
            &&& x.members.len() == 1
            &&& x.member("signal-cli-api"@) matches Some(n) && n.leaf.string == Some(version@)
            &&& d.member("build"@) matches Some(b)
            &&& json_value(b.leaf.text) matches Ok(y)
            &&& y.members.len() == 2
            &&& y.member("target"@) matches Some(g) && g.leaf.string == Some(target@)
            &&& y.member("os"@) matches Some(o) && o.leaf.string == Some(os@)
        }),
{
    let versions = version_members(version@);
    let build = build_members(target@, os@);
    assert(versions.len() == 1 && versions[0].0 == "signal-cli-api"@);
    assert(build.len() == 2 && build[0].0 == "target"@ && build[1].0 == "os"@);
    let all = about_members(json_object(versions), json_object(build));
    assert(all.len() == 2 && all[0].0 == "versions"@ && all[1].0 == "build"@);
}

} // verus!
