//! Logging in: the message that asks the store to check a credential, and the reply that
//! its verdict turns into.

use crate::reply::{Reply, Status};
use vstd::prelude::*;

verus! {

/// A user name and a password, as a client submits them. They live for one check.
#[derive(Debug)]
pub struct Credential {
    pub username: String,
    pub password: String,
}

/// Asks the store whether it knows this credential.
#[derive(Debug)]
pub struct LoginRequest {
    pub credential: Credential,
}

/// The status that a login is answered with, given whether the store accepted the
/// credential.
pub open spec fn login_status(accepted: bool) -> Status {
    if accepted {
        Status::Success
    } else {
        Status::Unauthorized
    }
}

/// The message to send to the store for `POST /login`.
pub fn login_request(credential: Credential) -> (message: LoginRequest)
    ensures
        message.credential == credential,
{
    LoginRequest { credential }
}

/// The reply to `POST /login`, once the store has checked the credential: 200 where it
/// accepted it, 401 where it did not, with the verdict as the body either way.
pub fn login(accepted: bool) -> (reply: Reply<bool>)
    ensures
        reply.status == login_status(accepted),
        reply.body == accepted,
{
    if accepted {
        Reply { status: Status::Success, body: true }
    } else {
        Reply { status: Status::Unauthorized, body: false }
    }
}

/// An accepted credential is answered in the success range. One that is not accepted is
/// answered with 401: neither the status of a malformed request nor that of a failing
/// server.
pub proof fn login_reply_tells_verdict(accepted: bool)
    ensures
        accepted ==> login_status(accepted).succeeded(),
        !accepted ==> login_status(accepted).code_of() == 401,
{
}

} // verus!
