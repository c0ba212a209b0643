//! Health and version of the service.

use vstd::prelude::*;
use vstd::string::*;

use super::{unambiguous, Endpoint, Method, Route};
use crate::http::{Body, BodyView, Reply, Status};
use crate::json::{
    bracketed, distinct_keys, flat_object, holds_members, is_flat_object_text, json_object,
    json_value, members_read_within, members_view, object_value, print_value, reads_within,
    short_keys_are_plain, value_text, JsonMember, MemberView,
};
use crate::state::AppState;

verus! {

/// The routes of this module.
pub open spec fn system_routes() -> Seq<Route> {
    seq![
        Route { method: Method::Get, path: "/v1/health", endpoint: Endpoint::Health },
        Route { method: Method::Get, path: "/v1/about", endpoint: Endpoint::About },
    ]
}

/// The routes of this module.
pub fn routes() -> (r: Vec<Route>)
    ensures
        r@ == system_routes(),
        unambiguous(r@),
{
    let mut r: Vec<Route> = Vec::new();
    r.push(Route { method: Method::Get, path: "/v1/health", endpoint: Endpoint::Health });
    r.push(Route { method: Method::Get, path: "/v1/about", endpoint: Endpoint::About });
    proof {
        reveal_strlit("/v1/health");
        reveal_strlit("/v1/about");
        assert(r@[0].path@.len() != r@[1].path@.len());
    }
    r
}

/// Answers whether the connection to the daemon is alive. A liveness probe
/// restarts the service when it is not.
pub fn health(st: &AppState) -> (r: Reply)
    ensures
        st@.daemon_alive ==> r.status == Status::NoContent && r.body@ == BodyView::Empty,
        !st@.daemon_alive ==> r.status == Status::ServiceUnavailable && r.body@ == BodyView::Text(
            "signal-cli daemon connection lost"@,
        ),
{
    if st.is_daemon_alive() {
        Reply { status: Status::NoContent, body: Body::Empty }
    } else {
        Reply {
            status: Status::ServiceUnavailable,
            body: Body::Text("signal-cli daemon connection lost".to_owned()),
        }
    }
}

/// The members that tell the version.
pub open spec fn version_members(version: Seq<char>) -> Seq<(Seq<char>, MemberView)> {
    seq![("signal-cli-api"@, MemberView::Text(version))]
}

/// The members that tell what the service was built for.
pub open spec fn build_members(target: Seq<char>, os: Seq<char>) -> Seq<(Seq<char>, MemberView)> {
    seq![("target"@, MemberView::Text(target)), ("os"@, MemberView::Text(os))]
}

/// The members of the JSON body that describes the service.
pub open spec fn about_members(versions: Seq<char>, build: Seq<char>) -> Seq<
    (Seq<char>, MemberView),
> {
    seq![("versions"@, MemberView::Value(versions)), ("build"@, MemberView::Value(build))]
}

/// Describes the service: its version, and the architecture and operating
/// system that it was built for.
pub fn about(version: &str, target: &str, os: &str) -> (r: Reply)
    ensures
        r.status == Status::Success,
        ({
            let versions = json_object(version_members(version@));
            let build = json_object(build_members(target@, os@));
            let about = about_members(versions, build);
            &&& is_flat_object_text(versions, version_members(version@))
            &&& is_flat_object_text(build, build_members(target@, os@))
            &&& r.body@ == BodyView::Json(json_object(about))
            &&& json_value(json_object(about)) matches Ok(d) && holds_members(d, about)
        }),
{
    let mut versions: Vec<(String, JsonMember)> = Vec::new();
    versions.push(("signal-cli-api".to_owned(), JsonMember::Text(version.to_owned())));
    proof {
        reveal_strlit("signal-cli-api");
        assert(members_view(versions@) =~= version_members(version@));
        assert(version_members(version@)[0].0.len() == 14);
        short_keys_are_plain(version_members(version@));
    }
    let versions = flat_object(versions);
    let mut build: Vec<(String, JsonMember)> = Vec::new();
    build.push(("target".to_owned(), JsonMember::Text(target.to_owned())));
    build.push(("os".to_owned(), JsonMember::Text(os.to_owned())));
    proof {
        let model = build_members(target@, os@);
        reveal_strlit("target");
        reveal_strlit("os");
        assert(members_view(build@) =~= model);
        assert(model[0].0.len() == 6 && model[1].0.len() == 2);
        short_keys_are_plain(model);
    }
    let build = flat_object(build);
    let ghost model = about_members(value_text(versions), value_text(build));
    let mut members: Vec<(String, JsonMember)> = Vec::new();
    members.push(("versions".to_owned(), JsonMember::Value(versions)));
    members.push(("build".to_owned(), JsonMember::Value(build)));
    proof {
        reveal_strlit("versions");
        reveal_strlit("build");
        assert(members_view(members@) =~= model);
        assert(model[0].0.len() == 8 && model[1].0.len() == 5);
        assert(distinct_keys(model));
        short_keys_are_plain(model);
        assert(members_read_within(model, 1));
    }
    let about = object_value(members);
    proof {
        assert(reads_within(value_text(about), 0));
        assert(bracketed(value_text(about), 0) == value_text(about));
    }
    Reply { status: Status::Success, body: Body::Json(print_value(&about)) }
}

} // verus!
