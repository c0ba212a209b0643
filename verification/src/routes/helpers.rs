//! Replies to requests that come down to one call to the daemon.

use vstd::prelude::*;
use vstd::string::*;

use crate::http::{Body, BodyView, Reply, Status};
use crate::json::{
    flat_object, is_flat_object_text, members_view, print_value, short_keys_are_plain, JsonMember,
    JsonValue, MemberView,
};
use crate::state::{error_status, rpc_error_status};

verus! {

/// The members of the JSON body that reports an error.
pub open spec fn error_members(err: Seq<char>) -> Seq<(Seq<char>, MemberView)> {
    seq![("error"@, MemberView::Text(err))]
}

/// The reply reports the error: by its status, and as JSON.
pub open spec fn reports_error(reply: Reply, err: Seq<char>) -> bool {
    &&& reply.status == error_status(err)
    &&& reply.body@ matches BodyView::Json(text) && is_flat_object_text(text, error_members(err))
}

/// The reply to a request whose call failed.
pub fn error_reply(err: String) -> (r: Reply)
    ensures
        reports_error(r, err@),
{
    let status = rpc_error_status(err.as_str());
    let ghost model = error_members(err@);
    let mut members: Vec<(String, JsonMember)> = Vec::new();
    members.push(("error".to_owned(), JsonMember::Text(err)));
    proof {
        assert(members_view(members@) =~= model);
        reveal_strlit("error");
        assert(model[0].0.len() == 5);
        short_keys_are_plain(model);
    }
    Reply { status, body: Body::Json(print_value(&flat_object(members))) }
}

/// Answers with the result of a call.
pub fn rpc_ok(outcome: Result<JsonValue, String>) -> (r: Reply)
    ensures
        match outcome {
            Ok(v) => r.status == Status::Success && r.body@ == BodyView::Json(v.leaf.text@),
            Err(e) => reports_error(r, e@),
        },
{
    match outcome {
        Ok(v) => Reply { status: Status::Success, body: Body::Json(v.leaf.text) },
        Err(e) => error_reply(e),
    }
}

/// Answers that a call succeeded, without its result.
pub fn rpc_no_content(outcome: Result<JsonValue, String>) -> (r: Reply)
    ensures
        match outcome {
            Ok(_) => r.status == Status::NoContent && r.body@ == BodyView::Empty,
            Err(e) => reports_error(r, e@),
        },
{
    match outcome {
        Ok(_) => Reply { status: Status::NoContent, body: Body::Empty },
        Err(e) => error_reply(e),
    }
}

} // verus!
