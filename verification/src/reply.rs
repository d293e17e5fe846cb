//! What a handler hands back to the HTTP layer: a status and a body.

use vstd::prelude::*;

verus! {

/// The HTTP statuses with which the service answers.
#[derive(Clone, Copy, Debug, PartialEq, Eq, Structural)]
pub enum Status {
    /// 200: the request was carried out.
    Success,
    /// 400: the request was malformed, or it named something that is not there.
    BadRequest,
    /// 401: the credential was not accepted.
    Unauthorized,
}

impl Status {
    /// The status code on the wire.
    pub open spec fn code_of(self) -> u16 {
        match self {
            Status::Success => 200,
            Status::BadRequest => 400,
            Status::Unauthorized => 401,
        }
    }

    /// Whether the status lies in the success range, 200 to 299.
    pub open spec fn succeeded(self) -> bool {
        200 <= self.code_of() < 300
    }

    /// The status code on the wire.
    #[verifier::when_used_as_spec(code_of)]
    pub fn code(self) -> (code: u16)
        ensures
            code == self.code_of(),
    {
        match self {
            Status::Success => 200,
            Status::BadRequest => 400,
            Status::Unauthorized => 401,
        }
    }

    /// Whether the status lies in the success range, 200 to 299.
    #[verifier::when_used_as_spec(succeeded)]
    pub fn is_success(self) -> (success: bool)
        ensures
            success == self.succeeded(),
    {
        let code: u16 = self.code();
        200 <= code && code < 300
    }
}

/// A finished answer to one request: the status, and the value that becomes the JSON body.
pub struct Reply<B> {
    pub status: Status,
    pub body: B,
}

} // verus!
