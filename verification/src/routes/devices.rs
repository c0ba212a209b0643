//! Linking and managing devices.

use serde_json::Value;
use vstd::prelude::*;
use vstd::string::*;

use super::helpers::{error_reply, reports_error, rpc_ok};
use super::{unambiguous, Endpoint, Method, Route, RpcRequest};
use crate::http::{Body, BodyView, Reply, Status};
use crate::json::{
    flat_object, is_flat_object_text, members_view, optional_text, short_keys_are_plain,
    value_text, DocumentView, JsonMember, JsonValue, LeafView, MemberView, ValueView,
};
use crate::jsonrpc::{
    is_request_line, outcome_of, outcome_view, response_outcome, Outgoing, PendingSender,
    RpcResponse,
};
use crate::state::{call_forgotten, call_opened, call_refused, AppState, DAEMON_DEAD_ERROR};

verus! {

/// The routes of this module.
pub open spec fn device_routes() -> Seq<Route> {
    seq![
        Route { method: Method::Get, path: "/v1/qrcodelink", endpoint: Endpoint::QrCodeLink },
        Route {
            method: Method::Get,
            path: "/v1/qrcodelink/raw",
            endpoint: Endpoint::QrCodeLinkRaw,
        },
        Route { method: Method::Post, path: "/v1/devices/{number}", endpoint: Endpoint::LinkDevice },
        Route { method: Method::Get, path: "/v1/devices/{number}", endpoint: Endpoint::ListDevices },
        Route {
            method: Method::Delete,
            path: "/v1/devices/{number}/{device_id}",
            endpoint: Endpoint::RemoveDevice,
        },
        Route {
            method: Method::Delete,
            path: "/v1/devices/{number}/local-data",
            endpoint: Endpoint::DeleteLocalData,
        },
    ]
}

/// The routes of this module.
pub fn routes() -> (r: Vec<Route>)
    ensures
        r@ == device_routes(),
        unambiguous(r@),
{
    let mut r: Vec<Route> = Vec::new();
    r.push(Route { method: Method::Get, path: "/v1/qrcodelink", endpoint: Endpoint::QrCodeLink });
    r.push(
        Route {
            method: Method::Get,
            path: "/v1/qrcodelink/raw",
            endpoint: Endpoint::QrCodeLinkRaw,
        },
    );
    r.push(
        Route { method: Method::Post, path: "/v1/devices/{number}", endpoint: Endpoint::LinkDevice },
    );
    r.push(
        Route { method: Method::Get, path: "/v1/devices/{number}", endpoint: Endpoint::ListDevices },
    );
    r.push(
        Route {
            method: Method::Delete,
            path: "/v1/devices/{number}/{device_id}",
            endpoint: Endpoint::RemoveDevice,
        },
    );
    r.push(
        Route {
            method: Method::Delete,
            path: "/v1/devices/{number}/local-data",
            endpoint: Endpoint::DeleteLocalData,
        },
    );
    proof {
        reveal_strlit("/v1/qrcodelink");
        reveal_strlit("/v1/qrcodelink/raw");
        reveal_strlit("/v1/devices/{number}");
        reveal_strlit("/v1/devices/{number}/{device_id}");
        reveal_strlit("/v1/devices/{number}/local-data");
        assert(r@[0].path@.len() == 14 && r@[1].path@.len() == 18 && r@[3].path@.len() == 20);
        assert(r@[4].path@.len() == 32 && r@[5].path@.len() == 31);
    }
    r
}

// ---------------------------------------------------------------------------
// Linking in two phases
// ---------------------------------------------------------------------------

/// How long the first phase waits for the link URI, in seconds.
pub const LINK_URI_TIMEOUT_SECS: u64 = 30;

/// How long the second phase waits for the phone to scan, in seconds.
pub const LINK_COMPLETION_TIMEOUT_SECS: u64 = 120;

/// How the wait for a response to `startLink` ended.
pub enum LinkWait {
    /// The response arrived.
    Response(RpcResponse),
    /// The channel was closed.
    Closed,
    /// The response did not arrive in time.
    TimedOut,
}

/// Starts to link a device. How the request was handed to the writer goes to
/// [`AppState::rpc_multi_sent`]. The daemon answers twice: with a link URI, which
/// goes to [`link_uri_received`], and with the linked account once the phone
/// has scanned the URI, which goes to [`link_completed`].
pub fn start_link_two_phase(st: &mut AppState, params: Value, channel: u64) -> (r: Result<
    Outgoing,
    String,
>)
    ensures
        !old(st)@.daemon_alive ==> {
            &&& r matches Err(e) && e@ == DAEMON_DEAD_ERROR@
            &&& final(st)@ == call_refused(old(st)@)
        },
        old(st)@.daemon_alive ==> {
            &&& r matches Ok(out) && out.id == old(st)@.next_id && is_request_line(
                out.line@,
                "startLink"@,
                value_text(params),
                out.id,
            )
            &&& final(st)@ == call_opened(old(st)@, PendingSender::Multi(channel))
        },
{
    st.rpc_multi("startLink", params, channel)
}

/// The outcome of the first phase.
pub open spec fn first_outcome(wait: LinkWait) -> Result<ValueView, Seq<char>> {
    match wait {
        LinkWait::Response(d) => outcome_of(d@),
        LinkWait::Closed => Err("signal-cli closed the connection"@),
        LinkWait::TimedOut => Err("Timeout waiting for startLink URI"@),
    }
}

/// Ends the first phase. If it failed the call is forgotten; if not, its entry
/// stays for the second response.
pub fn link_uri_received(st: &mut AppState, rpc_id: u64, wait: LinkWait) -> (r: Result<
    JsonValue,
    String,
>)
    ensures
        outcome_view(r) == first_outcome(wait),
        final(st)@ == (if r is Err {
            call_forgotten(old(st)@, rpc_id)
        } else {
            old(st)@
        }),
{
    let r = match wait {
        LinkWait::Response(first) => response_outcome(&first),
        LinkWait::Closed => Err("signal-cli closed the connection".to_owned()),
        LinkWait::TimedOut => Err("Timeout waiting for startLink URI".to_owned()),
    };
    if r.is_err() {
        st.cleanup_multi_rpc(rpc_id);
    }
    r
}

/// How linking ended.
pub enum LinkOutcome {
    /// The daemon reported this error.
    Failed(String),
    /// This account was linked.
    Linked(String),
    /// The channel was closed before the phone scanned the URI.
    Closed,
    /// The phone did not scan the URI in time.
    TimedOut,
}

/// The model of a [`LinkOutcome`].
pub enum LinkOutcomeView {
    Failed(Seq<char>),
    Linked(Seq<char>),
    Closed,
    TimedOut,
}

impl View for LinkOutcome {
    type V = LinkOutcomeView;

    open spec fn view(&self) -> LinkOutcomeView {
        match self {
            LinkOutcome::Failed(e) => LinkOutcomeView::Failed(e@),
            LinkOutcome::Linked(a) => LinkOutcomeView::Linked(a@),
            LinkOutcome::Closed => LinkOutcomeView::Closed,
            LinkOutcome::TimedOut => LinkOutcomeView::TimedOut,
        }
    }
}

/// The account that a response names.
pub open spec fn linked_account(response: DocumentView) -> Seq<char> {
    match response.member("result"@) {
        Some(ValueView { leaf: LeafView { string: Some(s), .. }, .. }) => s,
        _ => "unknown"@,
    }
}

/// The outcome of the second phase.
pub open spec fn second_outcome(wait: LinkWait) -> LinkOutcomeView {
    match wait {
        LinkWait::Response(d) => match d@.member("error"@) {
            Some(e) => LinkOutcomeView::Failed(e.leaf.text),
            None => LinkOutcomeView::Linked(linked_account(d@)),
        },
        LinkWait::Closed => LinkOutcomeView::Closed,
        LinkWait::TimedOut => LinkOutcomeView::TimedOut,
    }
}

/// Ends the second phase, and with it the call.
pub fn link_completed(st: &mut AppState, rpc_id: u64, wait: LinkWait) -> (r: LinkOutcome)
    ensures
        r@ == second_outcome(wait),
        final(st)@ == call_forgotten(old(st)@, rpc_id),
{
    st.cleanup_multi_rpc(rpc_id);
    match wait {
        LinkWait::Response(response) => {
            if let Some(e) = response.get("error") {
                return LinkOutcome::Failed(e.leaf.text.clone());
            }
            if let Some(v) = response.get("result") {
                if let Some(s) = &v.leaf.string {
                    return LinkOutcome::Linked(s.clone());
                }
            }
            LinkOutcome::Linked("unknown".to_owned())
        },
        LinkWait::Closed => LinkOutcome::Closed,
        LinkWait::TimedOut => LinkOutcome::TimedOut,
    }
}

// ---------------------------------------------------------------------------
// Requests to the daemon
// ---------------------------------------------------------------------------

/// The member that names the device, if it has a name.
pub open spec fn device_name_members(device_name: Option<Seq<char>>) -> Seq<
    (Seq<char>, MemberView),
> {
    match device_name {
        Some(name) => seq![("deviceName"@, MemberView::Text(name))],
        None => seq![],
    }
}

/// The parameters of `startLink`.
pub fn link_params(device_name: Option<String>) -> (r: Value)
    ensures
        is_flat_object_text(value_text(r), device_name_members(optional_text(device_name))),
{
    let ghost model = device_name_members(optional_text(device_name));
    let mut members: Vec<(String, JsonMember)> = Vec::new();
    if let Some(name) = device_name {
        members.push(("deviceName".to_owned(), JsonMember::Text(name)));
    }
    proof {
        assert(members_view(members@) =~= model);
        reveal_strlit("deviceName");
        assert(model.len() == 1 ==> model[0].0.len() == 10);
        short_keys_are_plain(model);
    }
    flat_object(members)
}

/// The parameters of `finishLink`.
pub open spec fn link_device_members(
    number: Seq<char>,
    uri: Seq<char>,
    device_name: Option<Seq<char>>,
) -> Seq<(Seq<char>, MemberView)> {
    seq![("account"@, MemberView::Text(number)), ("uri"@, MemberView::Text(uri))]
        + device_name_members(device_name)
}

/// The request is a call of the given method with the given parameters.
pub open spec fn is_call(
    r: RpcRequest,
    method: Seq<char>,
    members: Seq<(Seq<char>, MemberView)>,
) -> bool {
    &&& r.method@ == method
    &&& is_flat_object_text(value_text(r.params), members)
}

/// Links the device behind a link URI to the account.
pub fn link_device(number: String, uri: String, device_name: Option<String>) -> (r: RpcRequest)
    ensures
        is_call(
            r,
            "finishLink"@,
            link_device_members(number@, uri@, optional_text(device_name)),
        ),
{
    let ghost model = link_device_members(number@, uri@, optional_text(device_name));
    let mut members: Vec<(String, JsonMember)> = Vec::new();
    members.push(("account".to_owned(), JsonMember::Text(number)));
    members.push(("uri".to_owned(), JsonMember::Text(uri)));
    if let Some(name) = device_name {
        members.push(("deviceName".to_owned(), JsonMember::Text(name)));
    }
    proof {
        assert(members_view(members@) =~= model);
        reveal_strlit("account");
        reveal_strlit("uri");
        reveal_strlit("deviceName");
        assert(model[0].0.len() == 7 && model[1].0.len() == 3);
        assert(model.len() == 3 ==> model[2].0.len() == 10);
        short_keys_are_plain(model);
    }
    RpcRequest { method: "finishLink".to_owned(), params: flat_object(members) }
}

/// The parameters of a call that is about an account alone.
pub open spec fn account_members(number: Seq<char>) -> Seq<(Seq<char>, MemberView)> {
    seq![("account"@, MemberView::Text(number))]
}

/// A call that is about an account alone.
fn account_call(method: &str, number: String) -> (r: RpcRequest)
    ensures
        is_call(r, method@, account_members(number@)),
{
    let ghost model = account_members(number@);
    let mut members: Vec<(String, JsonMember)> = Vec::new();
    members.push(("account".to_owned(), JsonMember::Text(number)));
    proof {
        assert(members_view(members@) =~= model);
        reveal_strlit("account");
        assert(model[0].0.len() == 7);
        short_keys_are_plain(model);
    }
    RpcRequest { method: method.to_owned(), params: flat_object(members) }
}

/// Lists the devices of the account.
pub fn list_devices(number: String) -> (r: RpcRequest)
    ensures
        is_call(r, "listDevices"@, account_members(number@)),
{
    account_call("listDevices", number)
}

/// Deletes what is stored locally of the account.
pub fn delete_local_data(number: String) -> (r: RpcRequest)
    ensures
        is_call(r, "deleteLocalAccountData"@, account_members(number@)),
{
    account_call("deleteLocalAccountData", number)
}

/// The parameters of `removeDevice`.
pub open spec fn remove_device_members(number: Seq<char>, device_id: i64) -> Seq<
    (Seq<char>, MemberView),
> {
    seq![("account"@, MemberView::Text(number)), ("deviceId"@, MemberView::Signed(device_id))]
}

/// Removes a device from the account.
pub fn remove_device(number: String, device_id: i64) -> (r: RpcRequest)
    ensures
        is_call(r, "removeDevice"@, remove_device_members(number@, device_id)),
{
    let ghost model = remove_device_members(number@, device_id);
    let mut members: Vec<(String, JsonMember)> = Vec::new();
    members.push(("account".to_owned(), JsonMember::Text(number)));
    members.push(("deviceId".to_owned(), JsonMember::Signed(device_id)));
    proof {
        assert(members_view(members@) =~= model);
        reveal_strlit("account");
        reveal_strlit("deviceId");
        assert(model[0].0.len() == 7 && model[1].0.len() == 8);
        short_keys_are_plain(model);
    }
    RpcRequest { method: "removeDevice".to_owned(), params: flat_object(members) }
}

// ---------------------------------------------------------------------------
// Replies
// ---------------------------------------------------------------------------

/// Answers with the link URI, as the daemon gave it.
pub fn qrcodelink(outcome: Result<JsonValue, String>) -> (r: Reply)
    ensures
        match outcome {
            Ok(v) => r.status == Status::Success && r.body@ == BodyView::Json(v.leaf.text@),
            Err(e) => reports_error(r, e@),
        },
{
    rpc_ok(outcome)
}

/// The link URI in a result: the result itself, if it is a string, or its member
/// `deviceLinkUri`, if that is one.
pub open spec fn link_uri(result: ValueView) -> Seq<char> {
    match result.leaf.string {
        Some(s) => s,
        None => match result.member("deviceLinkUri"@) {
            Some(LeafView { string: Some(s), .. }) => s,
            _ => ""@,
        },
    }
}

/// Finds the link URI in a result.
fn find_link_uri(result: &JsonValue) -> (r: String)
    ensures
        r@ == link_uri(result@),
{
    if let Some(s) = &result.leaf.string {
        return s.clone();
    }
    if let Some(v) = result.get("deviceLinkUri") {
        if let Some(s) = &v.string {
            return s.clone();
        }
    }
    "".to_owned()
}

/// Answers with the link URI as plain text.
pub fn qrcodelink_raw(outcome: Result<JsonValue, String>) -> (r: Reply)
    ensures
        match outcome {
            Ok(v) => r.status == Status::Success && r.body@ == BodyView::Text(link_uri(v@)),
            Err(e) => reports_error(r, e@),
        },
        outcome matches Ok(v) ==> {
            &&& v.leaf.string matches Some(s) ==> (r.body matches Body::Text(t) && t@ == s@)
            &&& v.leaf.string is None ==> (v@.member("deviceLinkUri"@) matches Some(m)
                ==> (m.string matches Some(s) ==> (r.body matches Body::Text(t) && t@ == s)))
        },
{
    match outcome {
        Ok(v) => Reply { status: Status::Success, body: Body::Text(find_link_uri(&v)) },
        Err(e) => error_reply(e),
    }
}

} // verus!
