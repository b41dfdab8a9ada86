use crate::economy::PurchaseLimitedError;
use vstd::prelude::*;

verus! {

/// Every way a request made through the client can fail.
#[derive(Clone, Debug, PartialEq, Eq)]
pub enum RoboatError {
    /// The transport failed before a response arrived; holds its description.
    ReqwestError(String),
    /// A response arrived with a shape that the client cannot interpret.
    MalformedResponse,
    /// Status 400 without a structured error body.
    BadRequest,
    /// Status 401: the credential is missing, expired or rejected.
    InvalidRoblosecurity,
    /// No credential was given to the client.
    RoblosecurityNotSet,
    /// Status 429.
    TooManyRequests,
    /// Status 500.
    InternalServerError,
    /// Any status that has no meaning of its own here.
    UnidentifiedStatusCode(u16),
    /// A structured error that the remote service reported.
    UnknownRobloxErrorCode { code: u16, message: String },
    /// The anti-forgery token was outdated; holds the fresh one from the response.
    InvalidXcsrf(String),
    /// The anti-forgery token was rejected and no fresh one came back.
    XcsrfNotReturned,
    /// A purchase was answered but refused.
    PurchaseLimitedError(PurchaseLimitedError),
}

} // verus!
