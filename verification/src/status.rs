//! The status codes that the handlers answer with.

use vstd::prelude::*;

verus! {

/// The status line of a reply.
#[derive(Clone, Copy, Debug, PartialEq, Eq, Structural)]
pub enum StatusCode {
    /// 200
    Okay,
    /// 201
    Created,
    /// 304
    NotModified,
    /// 400
    BadRequest,
    /// 404
    NotFound,
    /// 500
    InternalServerError,
}

impl StatusCode {
    /// The numeric code of the status.
    pub open spec fn code(self) -> int {
        match self {
            StatusCode::Okay => 200,
            StatusCode::Created => 201,
            StatusCode::NotModified => 304,
            StatusCode::BadRequest => 400,
            StatusCode::NotFound => 404,
            StatusCode::InternalServerError => 500,
        }
    }

    /// The numeric code of the status, as it goes on the wire.
    pub fn as_u16(&self) -> (code: u16)
        ensures
            code == self.code(),
    {
        match self {
            StatusCode::Okay => 200,
            StatusCode::Created => 201,
            StatusCode::NotModified => 304,
            StatusCode::BadRequest => 400,
            StatusCode::NotFound => 404,
            StatusCode::InternalServerError => 500,
        }
    }

    /// Whether the status reports a success (a code from 200 to 299).
    pub open spec fn is_success(self) -> bool {
        200 <= self.code() < 300
    }
}

} // verus!
