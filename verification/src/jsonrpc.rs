//! JSON-RPC over newline-delimited JSON: requests, responses and notifications.
//!
//! The functions here decide; reading, writing and waiting is up to the caller,
//! who owns the channels and knows each of them by a number.

use dashmap::DashMap;
use serde_json::Value;
use vstd::prelude::*;
use vstd::string::*;

use crate::json::{
    distinct_keys, document_result, holds_members, json_object, json_value,
    members_read_within, members_view, null_view, object_value, parse_json, print_value,
    reads_within, short_keys_are_plain, value_text, DocumentView, JsonDocument, JsonMember,
    JsonValue, MemberView, ValueView,
};
use crate::state::{counted, Metrics, RPC_TIMEOUT_ERROR};

verus! {

/// A message of the daemon.
pub type RpcResponse = JsonDocument;

/// The channel that waits for the response to a request: for one response, or
/// for several with the same RPC ID.
#[derive(Clone, Copy, Debug, PartialEq, Eq, Structural)]
pub enum PendingSender {
    Once(u64),
    Multi(u64),
}

// ---------------------------------------------------------------------------
// Pending requests
// ---------------------------------------------------------------------------

/// `dashmap::DashMap`, a map whose entries are named by [`pending_entries`].
#[verifier::external_type_specification]
#[verifier::external_body]
#[verifier::reject_recursive_types(K)]
#[verifier::reject_recursive_types(V)]
#[verifier::reject_recursive_types(S)]
pub struct ExDashMap<K, V, S>(dashmap::DashMap<K, V, S>);

/// The pending requests by RPC ID, as the map holds them.
pub uninterp spec fn pending_entries(pending: DashMap<u64, PendingSender>) -> Map<
    u64,
    PendingSender,
>;

/// `DashMap::new`: a map without entries.
#[verifier::external_body]
pub(crate) fn new_pending() -> (r: DashMap<u64, PendingSender>)
    ensures
        (pending_entries(r) == Map::<u64, PendingSender>::empty()),
{
    DashMap::new()
}

/// `DashMap::insert`: the key is mapped to the value, in place of what it was
/// mapped to; every other entry stays.
#[verifier::external_body]
pub(crate) fn insert_pending(
    pending: &mut DashMap<u64, PendingSender>,
    id: u64,
    sender: PendingSender,
)
    ensures
        pending_entries(*final(pending)) == pending_entries(*old(pending)).insert(id, sender),
{
    pending.insert(id, sender);
}

/// `DashMap::get`: what the key is mapped to. The reference into the map is
/// given up before the function returns.
#[verifier::external_body]
pub(crate) fn get_pending(pending: &DashMap<u64, PendingSender>, id: u64) -> (r: Option<
    PendingSender,
>)
    ensures
        r == pending_entries(*pending).get(id),
{
    pending.get(&id).map(|entry| *entry.value())
}

/// `DashMap::remove`: the key is in the map no more; every other entry stays.
/// The result is what the key was mapped to.
#[verifier::external_body]
pub(crate) fn remove_pending(pending: &mut DashMap<u64, PendingSender>, id: u64) -> (r: Option<
    PendingSender,
>)
    ensures
        pending_entries(*final(pending)) == pending_entries(*old(pending)).remove(id),
        r == pending_entries(*old(pending)).get(id),
{
    pending.remove(&id).map(|entry| entry.1)
}

// ---------------------------------------------------------------------------
// Reading
// ---------------------------------------------------------------------------

/// What the connection to the daemon hands to the read loop.
pub enum ReaderEvent {
    /// A line, without its line break.
    Line(String),
    /// The end of the stream, or an error.
    Closed,
}

/// What the read loop has to do next.
pub enum ReaderAction {
    /// The line is not JSON, for this reason: pass over it.
    BadJson(String),
    /// Nobody waits for this response: pass over it.
    Stale,
    /// Send the response to the channel that waits for it.
    Deliver(PendingSender, RpcResponse),
    /// Send the line to all listeners.
    Broadcast(String),
    /// Leave the loop.
    Stop,
}

/// The model of a [`ReaderAction`].
pub enum ReaderActionView {
    BadJson(Seq<char>),
    Stale,
    Deliver(PendingSender, DocumentView),
    Broadcast(Seq<char>),
    Stop,
}

impl View for ReaderAction {
    type V = ReaderActionView;

    open spec fn view(&self) -> ReaderActionView {
        match self {
            ReaderAction::BadJson(e) => ReaderActionView::BadJson(e@),
            ReaderAction::Stale => ReaderActionView::Stale,
            ReaderAction::Deliver(s, d) => ReaderActionView::Deliver(*s, d@),
            ReaderAction::Broadcast(l) => ReaderActionView::Broadcast(l@),
            ReaderAction::Stop => ReaderActionView::Stop,
        }
    }
}

/// The RPC ID of a message, if it is a response.
pub open spec fn response_id(message: DocumentView) -> Option<u64> {
    match message.member("id"@) {
        Some(v) => v.leaf.unsigned,
        None => None,
    }
}

/// What a line of the daemon leads to: the pending requests and the metrics
/// afterwards, and the action.
pub open spec fn dispatched(
    pending: Map<u64, PendingSender>,
    metrics: Metrics,
    line: Seq<char>,
    parsed: Result<DocumentView, Seq<char>>,
) -> (Map<u64, PendingSender>, Metrics, ReaderActionView) {
    match parsed {
        Err(e) => (pending, metrics, ReaderActionView::BadJson(e)),
        Ok(message) => match response_id(message) {
            Some(id) => match pending.get(id) {
                Some(PendingSender::Once(c)) => (
                    pending.remove(id),
                    metrics,
                    ReaderActionView::Deliver(PendingSender::Once(c), message),
                ),
                Some(PendingSender::Multi(c)) => (
                    pending,
                    metrics,
                    ReaderActionView::Deliver(PendingSender::Multi(c), message),
                ),
                None => (pending, metrics, ReaderActionView::Stale),
            },
            None => (
                pending,
                Metrics { messages_received: counted(metrics.messages_received), ..metrics },
                ReaderActionView::Broadcast(line),
            ),
        },
    }
}

/// Decides where a line of the daemon goes, given what was read in it. A
/// response goes to the channel that waits for it, and a single-response entry
/// is then done with. Anything else is a notification for all listeners.
pub fn dispatch(
    pending: &mut DashMap<u64, PendingSender>,
    metrics: &mut Metrics,
    line: String,
    parsed: Result<RpcResponse, String>,
) -> (r: ReaderAction)
    ensures
        (pending_entries(*final(pending)), *final(metrics), r@) == dispatched(
            pending_entries(*old(pending)),
            *old(metrics),
            line@,
            document_result(parsed),
        ),
        r matches ReaderAction::Deliver(_, m) ==> parsed == Ok::<RpcResponse, String>(m),
        r matches ReaderAction::Broadcast(l) ==> l == line,
{
    let message = match parsed {
        Ok(d) => d,
        Err(e) => {
            return ReaderAction::BadJson(e);
        },
    };
    let id: Option<u64> = match message.get("id") {
        Some(v) => v.leaf.unsigned,
        None => None,
    };
    match id {
        Some(id) => match get_pending(pending, id) {
            Some(PendingSender::Once(_)) => match remove_pending(pending, id) {
                Some(sender) => ReaderAction::Deliver(sender, message),
                None => ReaderAction::Stale,
            },
            Some(sender) => ReaderAction::Deliver(sender, message),
            None => ReaderAction::Stale,
        },
        None => {
            metrics.inc_received();
            ReaderAction::Broadcast(line)
        },
    }
}

/// One turn of the read loop: dispatches a line, or marks the daemon as dead at
/// the end of the stream.
pub fn reader_loop(
    pending: &mut DashMap<u64, PendingSender>,
    metrics: &mut Metrics,
    daemon_alive: &mut bool,
    event: ReaderEvent,
) -> (r: ReaderAction)
    ensures
        match event {
            ReaderEvent::Line(line) => {
                &&& *final(daemon_alive) == *old(daemon_alive)
                &&& (pending_entries(*final(pending)), *final(metrics), r@) == dispatched(
                    pending_entries(*old(pending)),
                    *old(metrics),
                    line@,
                    json_value(line@),
                )
                &&& r@ matches ReaderActionView::Deliver(_, m) ==> m.members_start_like_json()
            },
            ReaderEvent::Closed => {
                &&& !*final(daemon_alive)
                &&& pending_entries(*final(pending)) == pending_entries(*old(pending))
                &&& *final(metrics) == *old(metrics)
                &&& r@ == ReaderActionView::Stop
            },
        },
{
    match event {
        ReaderEvent::Line(line) => {
            let parsed = parse_json(line.as_str());
            dispatch(pending, metrics, line, parsed)
        },
        ReaderEvent::Closed => {
            *daemon_alive = false;
            ReaderAction::Stop
        },
    }
}

// ---------------------------------------------------------------------------
// Writing
// ---------------------------------------------------------------------------

/// What the write loop is told.
pub enum WriterEvent {
    /// A line to be written.
    Line(String),
    /// There will be no more lines.
    ChannelClosed,
    /// The line was written.
    Written,
    /// The line could not be written.
    WriteFailed,
    /// The connection was flushed, or could not be.
    Flushed,
}

/// What the write loop has to do next.
pub enum WriterAction {
    /// Write these characters to the daemon.
    Write(String),
    /// Flush the connection.
    Flush,
    /// Wait for the next line.
    Receive,
    /// Leave the loop.
    Stop,
}

/// What the write loop does after `event`.
pub open spec fn writer_action(event: WriterEvent) -> WriterAction {
    match event {
        WriterEvent::Line(line) => WriterAction::Write(line),
        WriterEvent::Written => WriterAction::Flush,
        WriterEvent::Flushed => WriterAction::Receive,
        WriterEvent::ChannelClosed | WriterEvent::WriteFailed => WriterAction::Stop,
    }
}

/// One turn of the write loop: each line is written and flushed before the next
/// one is taken. The daemon is marked as dead on the way out.
pub fn writer_loop(daemon_alive: &mut bool, event: WriterEvent) -> (r: WriterAction)
    ensures
        r == writer_action(event),
        *final(daemon_alive) == (*old(daemon_alive) && !(r is Stop)),
{
    match event {
        WriterEvent::Line(line) => WriterAction::Write(line),
        WriterEvent::Written => WriterAction::Flush,
        WriterEvent::Flushed => WriterAction::Receive,
        WriterEvent::ChannelClosed | WriterEvent::WriteFailed => {
            *daemon_alive = false;
            WriterAction::Stop
        },
    }
}

// ---------------------------------------------------------------------------
// Calling
// ---------------------------------------------------------------------------

/// How many responses the channel of a multi-response call holds.
pub const MULTI_CAPACITY: usize = 4;

/// A request that is ready to be written to the daemon.
pub struct Outgoing {
    pub id: u64,
    pub line: String,
}

/// The members of a JSON-RPC request.
pub open spec fn request_members(method: Seq<char>, params: Seq<char>, id: u64) -> Seq<
    (Seq<char>, MemberView),
> {
    seq![
        ("jsonrpc"@, MemberView::Text("2.0"@)),
        ("method"@, MemberView::Text(method)),
        ("params"@, MemberView::Value(params)),
        ("id"@, MemberView::Unsigned(id)),
    ]
}

/// `s` ends with a line break and holds no other.
pub open spec fn is_one_line(s: Seq<char>) -> bool {
    &&& s.len() > 0
    &&& s.last() == '\n'
    &&& !s.drop_last().contains('\n')
}

/// The request line for a call, whose parameters are given by their text.
pub open spec fn request_text(method: Seq<char>, params: Seq<char>, id: u64) -> Seq<char> {
    json_object(request_members(method, params, id)).push('\n')
}

/// What a daemon reads in the line of a request: its members, and so its ID, its
/// method and its parameters, which are read as they are alone.
pub open spec fn reads_as_request(
    message: DocumentView,
    method: Seq<char>,
    params: Seq<char>,
    id: u64,
) -> bool {
    &&& holds_members(message, request_members(method, params, id))
    &&& response_id(message) == Some(id)
    &&& message.member("method"@) matches Some(m) && m.leaf.string == Some(method)
    &&& message.member("params"@) matches Some(p) && json_value(params) matches Ok(d) && p.leaf
        == d.leaf
}

/// `line` is the request, on a line of its own. What is read in it is the
/// request, and it can be read if the parameters can be read within one level.
pub open spec fn is_request_line(
    line: Seq<char>,
    method: Seq<char>,
    params: Seq<char>,
    id: u64,
) -> bool {
    &&& line == request_text(method, params, id)
    &&& is_one_line(line)
    &&& json_value(line.drop_last()) matches Ok(d) ==> reads_as_request(d, method, params, id)
    &&& reads_within(params, 1) ==> json_value(line.drop_last()) is Ok
}

/// Writes a call as a JSON-RPC request on one line.
pub fn request_line(method: &str, params: Value, id: u64) -> (r: String)
    ensures
        is_request_line(r@, method@, value_text(params), id),
{
    let ghost text = value_text(params);
    let mut members: Vec<(String, JsonMember)> = Vec::new();
    members.push(("jsonrpc".to_owned(), JsonMember::Text("2.0".to_owned())));
    members.push(("method".to_owned(), JsonMember::Text(method.to_owned())));
    members.push(("params".to_owned(), JsonMember::Value(params)));
    members.push(("id".to_owned(), JsonMember::Unsigned(id)));
    let ghost model = request_members(method@, text, id);
    proof {
        assert(members_view(members@) =~= model);
        reveal_strlit("jsonrpc");
        reveal_strlit("method");
        reveal_strlit("params");
        reveal_strlit("id");
        assert("method"@[0] == 'm' && "params"@[0] == 'p');
        assert(model[0].0.len() == 7 && model[1].0.len() == 6 && model[2].0.len() == 6);
        assert(model[3].0.len() == 2 && model[1].0[0] != model[2].0[0]);
        assert(distinct_keys(model));
        short_keys_are_plain(model);
    }
    let request = object_value(members);
    let object = print_value(&request);
    let ghost written = object@;
    let line = object.concat("\n");
    proof {
        reveal_strlit("\n");
        assert(line@ =~= written.push('\n'));
        assert(line@.drop_last() =~= written);
        assert(model[1].0 == "method"@ && model[2].0 == "params"@ && model[3].0 == "id"@);
        assert(reads_within(text, 1) ==> members_read_within(model, 1));
        assert(reads_within(written, 0) <==> json_value(written) is Ok);
    }
    line
}

/// Takes the next RPC ID, registers the sender for it and writes the request.
/// The sender is registered before the request is handed out, so that the
/// response always finds it.
fn open_call(
    pending: &mut DashMap<u64, PendingSender>,
    next_id: &mut u64,
    method: &str,
    params: Value,
    sender: PendingSender,
) -> (r: Outgoing)
    ensures
        *final(next_id) == counted(*old(next_id)),
        pending_entries(*final(pending)) == pending_entries(*old(pending)).insert(
            *old(next_id),
            sender,
        ),
        r.id == *old(next_id),
        is_request_line(r.line@, method@, value_text(params), *old(next_id)),
{
    let id: u64 = *next_id;
    *next_id = id.wrapping_add(1);
    insert_pending(pending, id, sender);
    Outgoing { id, line: request_line(method, params, id) }
}

/// Starts a call with a single response, which is to be sent to the given
/// channel. The request is to be written to the daemon, and the outcome of
/// waiting is to be handed to [`rpc_outcome`].
pub fn rpc_call(
    pending: &mut DashMap<u64, PendingSender>,
    next_id: &mut u64,
    method: &str,
    params: Value,
    channel: u64,
) -> (r: Outgoing)
    ensures
        *final(next_id) == counted(*old(next_id)),
        pending_entries(*final(pending)) == pending_entries(*old(pending)).insert(
            *old(next_id),
            PendingSender::Once(channel),
        ),
        r.id == *old(next_id),
        is_request_line(r.line@, method@, value_text(params), *old(next_id)),
{
    open_call(pending, next_id, method, params, PendingSender::Once(channel))
}

/// Starts a call with several responses (such as `startLink`), which are to be
/// sent to the given channel. The request is to be written to the daemon, and how
/// that was taken is to be handed to [`rpc_multi_sent`]. [`cleanup_multi`] must be
/// called when done.
pub fn rpc_call_multi(
    pending: &mut DashMap<u64, PendingSender>,
    next_id: &mut u64,
    method: &str,
    params: Value,
    channel: u64,
) -> (r: Outgoing)
    ensures
        *final(next_id) == counted(*old(next_id)),
        pending_entries(*final(pending)) == pending_entries(*old(pending)).insert(
            *old(next_id),
            PendingSender::Multi(channel),
        ),
        r.id == *old(next_id),
        is_request_line(r.line@, method@, value_text(params), *old(next_id)),
{
    open_call(pending, next_id, method, params, PendingSender::Multi(channel))
}

/// How the request of a multi-response call was handed to the writer.
pub enum Handover {
    /// The writer has it.
    Sent,
    /// The writer did not take it, for this reason.
    Failed(String),
}

/// The outcome of starting a multi-response call: its ID, under which the
/// responses will come, or the reason why there will be none.
pub open spec fn handover_outcome(id: u64, handover: Handover) -> Result<u64, Seq<char>> {
    match handover {
        Handover::Sent => Ok(id),
        Handover::Failed(e) => Err(e@),
    }
}

/// The model of the outcome of starting a multi-response call.
pub open spec fn started_view(r: Result<u64, String>) -> Result<u64, Seq<char>> {
    match r {
        Ok(id) => Ok(id),
        Err(e) => Err(e@),
    }
}

/// Goes on with a multi-response call after its request was handed to the writer.
/// Its entry stays, also if the writer did not take the request.
pub fn rpc_multi_sent(
    pending: &mut DashMap<u64, PendingSender>,
    id: u64,
    handover: Handover,
) -> (r: Result<u64, String>)
    ensures
        started_view(r) == handover_outcome(id, handover),
        pending_entries(*final(pending)) == pending_entries(*old(pending)),
{
    match handover {
        Handover::Sent => Ok(id),
        Handover::Failed(e) => Err(e),
    }
}

/// Removes the entry of a multi-response call.
pub fn cleanup_multi(pending: &mut DashMap<u64, PendingSender>, id: u64)
    ensures
        pending_entries(*final(pending)) == pending_entries(*old(pending)).remove(id),
{
    remove_pending(pending, id);
}

/// How the wait for a single response ended.
pub enum Wait {
    /// The response arrived.
    Response(RpcResponse),
    /// The channel was closed without a response.
    Dropped,
    /// The response did not arrive in time.
    TimedOut,
    /// The request could not be handed to the writer.
    SendFailed(String),
}

/// The outcome that a response carries: the text of its error if it has one,
/// and else its result, which is null if there is none.
pub open spec fn outcome_of(response: DocumentView) -> Result<ValueView, Seq<char>> {
    match response.member("error"@) {
        Some(e) => Err(e.leaf.text),
        None => Ok(
            match response.member("result"@) {
                Some(v) => v,
                None => null_view(),
            },
        ),
    }
}

/// The model of an outcome.
pub open spec fn outcome_view(r: Result<JsonValue, String>) -> Result<ValueView, Seq<char>> {
    match r {
        Ok(v) => Ok(v@),
        Err(e) => Err(e@),
    }
}

/// Reads the outcome of a call in its response.
pub fn response_outcome(response: &RpcResponse) -> (r: Result<JsonValue, String>)
    ensures
        outcome_view(r) == outcome_of(response@),
        match r {
            Ok(o) => {
                &&& forall|j: int|
                    0 <= j < response.members@.len() ==> (
                    #[trigger] response.members@[j]).0@ != "error"@
                &&& (forall|j: int|
                    0 <= j < response.members@.len() ==> (
                    #[trigger] response.members@[j]).0@ != "result"@) ==> {
                    &&& o.leaf.text@ == "null"@
                    &&& o.leaf.unsigned is None
                    &&& o.leaf.string is None
                    &&& o.members@.len() == 0
                }
                &&& forall|i: int|
                    {
                        &&& 0 <= i < response.members@.len()
                        &&& (#[trigger] response.members@[i]).0@ == "result"@
                        &&& forall|j: int|
                            0 <= j < i ==> (#[trigger] response.members@[j]).0@ != "result"@
                    } ==> {
                        &&& o.leaf == response.members@[i].1.leaf
                        &&& o.members@ == response.members@[i].1.members@
                    }
            },
            Err(e) => exists|i: int|
                {
                    &&& 0 <= i < response.members@.len()
                    &&& (#[trigger] response.members@[i]).0@ == "error"@
                    &&& e == response.members@[i].1.leaf.text
                    &&& forall|j: int|
                        0 <= j < i ==> (#[trigger] response.members@[j]).0@ != "error"@
                },
        },
{
    if let Some(e) = response.get("error") {
        return Err(e.leaf.text.clone());
    }
    match response.get("result") {
        Some(v) => Ok(v.duplicate()),
        None => Ok(JsonValue::null()),
    }
}

/// The outcome of a call, by how the wait for its response ended.
pub open spec fn outcome_of_wait(wait: Wait) -> Result<ValueView, Seq<char>> {
    match wait {
        Wait::Response(d) => outcome_of(d@),
        Wait::Dropped => Err("signal-cli did not respond"@),
        Wait::TimedOut => Err(RPC_TIMEOUT_ERROR@),
        Wait::SendFailed(e) => Err(e@),
    }
}

/// Ends a call with a single response. A call that took too long is forgotten.
pub fn rpc_outcome(pending: &mut DashMap<u64, PendingSender>, id: u64, wait: Wait) -> (r: Result<
    JsonValue,
    String,
>)
    ensures
        outcome_view(r) == outcome_of_wait(wait),
        pending_entries(*final(pending)) == (if wait is TimedOut {
            pending_entries(*old(pending)).remove(id)
        } else {
            pending_entries(*old(pending))
        }),
{
    match wait {
        Wait::Response(response) => response_outcome(&response),
        Wait::Dropped => Err("signal-cli did not respond".to_owned()),
        Wait::TimedOut => {
            remove_pending(pending, id);
            Err(RPC_TIMEOUT_ERROR.to_owned())
        },
        Wait::SendFailed(e) => Err(e),
    }
}

} // verus!
