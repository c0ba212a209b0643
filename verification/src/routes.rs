//! The routes of the HTTP API and the replies behind them.

pub mod devices;
pub mod helpers;
pub mod system;

use serde_json::Value;
use vstd::prelude::*;

verus! {

/// The HTTP methods that are routed.
#[derive(Clone, Copy, Debug, PartialEq, Eq, Structural)]
pub enum Method {
    Get,
    Post,
    Delete,
}

/// What answers a request.
#[derive(Clone, Copy, Debug, PartialEq, Eq, Structural)]
pub enum Endpoint {
    QrCodeLink,
    QrCodeLinkRaw,
    LinkDevice,
    ListDevices,
    RemoveDevice,
    DeleteLocalData,
    Health,
    About,
}

/// A route: requests with this method, and a path of this pattern, go to this
/// endpoint.
pub struct Route {
    pub method: Method,
    pub path: &'static str,
    pub endpoint: Endpoint,
}

/// A call to the daemon.
pub struct RpcRequest {
    pub method: String,
    pub params: Value,
}

/// No two routes have both the method and the path in common.
pub open spec fn unambiguous(routes: Seq<Route>) -> bool {
    forall|i: int, j: int|
        0 <= i < j < routes.len() ==> (#[trigger] routes[i]).method != (
        #[trigger] routes[j]).method || routes[i].path@ != routes[j].path@
}

} // verus!
