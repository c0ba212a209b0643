//! Replies to HTTP requests, before they are put on the wire.

use vstd::prelude::*;

verus! {

/// The statuses that the service answers with.
#[derive(Clone, Copy, Debug, PartialEq, Eq, Structural)]
pub enum Status {
    Success,
    NoContent,
    BadRequest,
    ServiceUnavailable,
    GatewayTimeout,
}

impl Status {
    /// The status code as a number.
    pub open spec fn spec_code(self) -> u16 {
        match self {
            Status::Success => 200,
            Status::NoContent => 204,
            Status::BadRequest => 400,
            Status::ServiceUnavailable => 503,
            Status::GatewayTimeout => 504,
        }
    }

    /// The status code as a number.
    pub fn code(self) -> (r: u16)
        ensures
            r == self.spec_code(),
    {
        match self {
            Status::Success => 200,
            Status::NoContent => 204,
            Status::BadRequest => 400,
            Status::ServiceUnavailable => 503,
            Status::GatewayTimeout => 504,
        }
    }
}

/// What a reply carries.
pub enum Body {
    Empty,
    /// Plain text.
    Text(String),
    /// JSON text.
    Json(String),
}

/// The model of a [`Body`].
pub enum BodyView {
    Empty,
    Text(Seq<char>),
    Json(Seq<char>),
}

impl View for Body {
    type V = BodyView;

    open spec fn view(&self) -> BodyView {
        match self {
            Body::Empty => BodyView::Empty,
            Body::Text(t) => BodyView::Text(t@),
            Body::Json(t) => BodyView::Json(t@),
        }
    }
}

/// A reply to an HTTP request.
pub struct Reply {
    pub status: Status,
    pub body: Body,
}

} // verus!
