//! What a client is told when its request cannot be decoded, and what is reported of it.
//!
//! A request whose JSON body or path parameter cannot be decoded never becomes a message to
//! the store: it is answered at once with status 400 and a body of one field, `message`,
//! and the same message is reported to the observability sink as an error.

use crate::reply::{Reply, Status};
use vstd::prelude::*;
use vstd::string::*;

verus! {

/// A failure to read or decode a JSON request body, as `actix_web` reports it. Nothing
/// inside it is visible here: it is only asked for its description.
#[verifier::external_type_specification]
#[verifier::external_body]
pub struct ExJsonPayloadError(actix_web::error::JsonPayloadError);

/// A failure to decode a path parameter, as `serde` reports it. Nothing inside it is
/// visible here: it is only asked for its description.
#[verifier::external_type_specification]
#[verifier::external_body]
pub struct ExValueError(serde::de::value::Error);

/// The body of every error reply: one field, `message`.
pub struct JsonError {
    pub message: String,
}

/// How grave a report to the observability sink is.
#[derive(Clone, Copy, Debug, PartialEq, Eq, Structural)]
pub enum Severity {
    Debug,
    Info,
    Warning,
    Error,
    Fatal,
}

/// What goes to the observability sink.
pub struct Report {
    pub severity: Severity,
    pub message: String,
}

/// The outcome of a request that could not be decoded: the reply to the client and the
/// report to the sink.
pub struct Rejection {
    pub reply: Reply<JsonError>,
    pub report: Report,
}

impl Rejection {
    /// Whether this is the rejection that `message` calls for: status 400, `message` as the
    /// body's only field, and `message` reported as an error.
    pub open spec fn carries(self, message: Seq<char>) -> bool {
        &&& self.reply.status == Status::BadRequest
        &&& self.reply.body.message@ == message
        &&& self.report.severity == Severity::Error
        &&& self.report.message@ == message
    }
}

/// Rejects a request with the given description of what was wrong with it.
pub fn reject(message: String) -> (rejection: Rejection)
    ensures
        rejection.carries(message@),
        rejection.reply.body.message == message,
{
    let reported = message.clone();
    Rejection {
        reply: Reply { status: Status::BadRequest, body: JsonError { message } },
        report: Report { severity: Severity::Error, message: reported },
    }
}

/// Rejects a request whose JSON body could not be read or decoded. The message is the
/// text that the failure writes of itself (its `to_string`); which text that is lies with
/// `actix_web`, and the contract says of it only that it is that text.
pub fn json_error_handler(err: &actix_web::error::JsonPayloadError) -> (rejection: Rejection)
    ensures
        to_string_from_display_ensures::<actix_web::error::JsonPayloadError>(
            err,
            rejection.reply.body.message,
        ),
        rejection.carries(rejection.reply.body.message@),
{
    reject(err.to_string())
}

/// Rejects a request whose path parameter could not be decoded. The message is the text
/// that the failure writes of itself (its `to_string`); which text that is lies with
/// `serde`, and the contract says of it only that it is that text.
pub fn path_error_handler(err: &serde::de::value::Error) -> (rejection: Rejection)
    ensures
        to_string_from_display_ensures::<serde::de::value::Error>(
            err,
            rejection.reply.body.message,
        ),
        rejection.carries(rejection.reply.body.message@),
{
    reject(err.to_string())
}

/// A rejection is answered with status 400, outside the success range, and the sink is told
/// what the client is told.
pub proof fn rejection_is_bad_request(rejection: Rejection, message: Seq<char>)
    requires
        rejection.carries(message),
    ensures
        rejection.reply.status.code_of() == 400,
        !rejection.reply.status.succeeded(),
        rejection.report.severity == Severity::Error,
        rejection.report.message@ == rejection.reply.body.message@,
{
}

} // verus!
