use crate::error::RoboatError;
use vstd::prelude::*;

verus! {

/// One entry of the remote service's structured error body.
#[derive(Clone, Debug, PartialEq, Eq)]
pub struct RobloxErrorRaw {
    pub code: u16,
    pub message: String,
}

/// The remote service's structured error body, `{ errors: [{code, message}] }`.
/// Only the first entry carries meaning.
#[derive(Clone, Debug, PartialEq, Eq)]
pub struct RobloxErrorResponse {
    pub errors: Vec<RobloxErrorRaw>,
}

/// A completed HTTP exchange as the classifier sees it.
///
/// The body is handed over decoded twice: as the remote error shape and as the
/// payload shape the caller expects; `None` where it does not decode as that shape.
pub struct HttpResponse<T> {
    pub status: u16,
    /// The value of the anti-forgery token header, if the response carried one.
    pub xcsrf: Option<String>,
    pub error_body: Option<RobloxErrorResponse>,
    pub payload: Option<T>,
}

/// The error that a structured body's first entry stands for.
pub open spec fn remote_error(e: RobloxErrorRaw) -> RoboatError {
    RoboatError::UnknownRobloxErrorCode { code: e.code, message: e.message }
}

/// Classification of a status 400 response.
pub open spec fn spec_process_400(body: Option<RobloxErrorResponse>) -> RoboatError {
    match body {
        Some(b) => if b.errors@.len() > 0 {
            remote_error(b.errors@[0])
        } else {
            RoboatError::BadRequest
        },
        None => RoboatError::BadRequest,
    }
}

/// Classification of a status 403 response: a token problem unless the body
/// holds a structured error with a nonzero code.
pub open spec fn spec_process_403(
    xcsrf: Option<String>,
    body: Option<RobloxErrorResponse>,
) -> RoboatError {
    let token_problem = match xcsrf {
        Some(t) => RoboatError::InvalidXcsrf(t),
        None => RoboatError::XcsrfNotReturned,
    };
    match body {
        None => token_problem,
        Some(b) => if b.errors@.len() == 0 {
            if xcsrf is Some {
                token_problem
            } else {
                RoboatError::MalformedResponse
            }
        } else if b.errors@[0].code == 0 {
            token_problem
        } else {
            remote_error(b.errors@[0])
        },
    }
}

/// What a status code, with the header and error body that came with it, means.
pub open spec fn spec_status_outcome(
    status: u16,
    xcsrf: Option<String>,
    body: Option<RobloxErrorResponse>,
) -> Result<(), RoboatError> {
    if status == 200 {
        Ok(())
    } else if status == 400 {
        Err(spec_process_400(body))
    } else if status == 401 {
        Err(RoboatError::InvalidRoblosecurity)
    } else if status == 403 {
        Err(spec_process_403(xcsrf, body))
    } else if status == 429 {
        Err(RoboatError::TooManyRequests)
    } else if status == 500 {
        Err(RoboatError::InternalServerError)
    } else {
        Err(RoboatError::UnidentifiedStatusCode(status))
    }
}

/// The payload of a successful response, or `MalformedResponse`.
pub open spec fn spec_parse_to_raw<T>(payload: Option<T>) -> Result<T, RoboatError> {
    match payload {
        Some(v) => Ok(v),
        None => Err(RoboatError::MalformedResponse),
    }
}

/// The classified result of a whole exchange, a transport failure included.
pub open spec fn spec_classify<T>(exchange: Result<HttpResponse<T>, String>) -> Result<
    T,
    RoboatError,
> {
    match exchange {
        Err(cause) => Err(RoboatError::ReqwestError(cause)),
        Ok(r) => match spec_status_outcome(r.status, r.xcsrf, r.error_body) {
            Ok(_) => spec_parse_to_raw(r.payload),
            Err(e) => Err(e),
        },
    }
}

/// The first entry of a structured error body as a remote error.
fn first_remote_error(b: &RobloxErrorResponse) -> (r: RoboatError)
    requires
        b.errors@.len() > 0,
    ensures
        r == remote_error(b.errors@[0]),
{
    let first = &b.errors[0];
    RoboatError::UnknownRobloxErrorCode { code: first.code, message: first.message.clone() }
}

/// Classifies a status 403 response, whose header may carry a fresh token.
pub fn process_403(xcsrf: Option<String>, body: Option<RobloxErrorResponse>) -> (r: RoboatError)
    ensures
        r == spec_process_403(xcsrf, body),
{
    match xcsrf {
        Some(token) => match body {
            None => RoboatError::InvalidXcsrf(token),
            Some(b) => {
                if b.errors.len() == 0 || b.errors[0].code == 0 {
                    RoboatError::InvalidXcsrf(token)
                } else {
                    first_remote_error(&b)
                }
            },
        },
        None => match body {
            None => RoboatError::XcsrfNotReturned,
            Some(b) => {
                if b.errors.len() == 0 {
                    RoboatError::MalformedResponse
                } else if b.errors[0].code == 0 {
                    RoboatError::XcsrfNotReturned
                } else {
                    first_remote_error(&b)
                }
            },
        },
    }
}

/// Classifies a status 400 response, which may carry a structured error.
pub fn process_400(body: Option<RobloxErrorResponse>) -> (r: RoboatError)
    ensures
        r == spec_process_400(body),
{
    match body {
        Some(b) => {
            if b.errors.len() > 0 {
                first_remote_error(&b)
            } else {
                RoboatError::BadRequest
            }
        },
        None => RoboatError::BadRequest,
    }
}

/// Maps a status code to success (200 alone) or to the error it stands for.
pub fn handle_non_200_status_codes(
    status: u16,
    xcsrf: Option<String>,
    body: Option<RobloxErrorResponse>,
) -> (r: Result<(), RoboatError>)
    ensures
        r == spec_status_outcome(status, xcsrf, body),
{
    match status {
        200 => Ok(()),
        400 => Err(process_400(body)),
        401 => Err(RoboatError::InvalidRoblosecurity),
        403 => Err(process_403(xcsrf, body)),
        429 => Err(RoboatError::TooManyRequests),
        500 => Err(RoboatError::InternalServerError),
        _ => Err(RoboatError::UnidentifiedStatusCode(status)),
    }
}

/// Checks the status of an exchange; a transport failure becomes `ReqwestError`.
/// On success the response is handed back, and its status is 200.
pub fn validate_request_result<T>(exchange: Result<HttpResponse<T>, String>) -> (r: Result<
    HttpResponse<T>,
    RoboatError,
>)
    ensures
        match exchange {
            Err(cause) => r == Err::<HttpResponse<T>, RoboatError>(RoboatError::ReqwestError(cause)),
            Ok(resp) => match spec_status_outcome(resp.status, resp.xcsrf, resp.error_body) {
                Ok(_) => r == Ok::<HttpResponse<T>, RoboatError>(resp) && resp.status == 200,
                Err(e) => r == Err::<HttpResponse<T>, RoboatError>(e),
            },
        },
{
    match exchange {
        Err(cause) => Err(RoboatError::ReqwestError(cause)),
        Ok(resp) => {
            if resp.status == 200 {
                Ok(resp)
            } else {
                let HttpResponse { status, xcsrf, error_body, payload } = resp;
                match handle_non_200_status_codes(status, xcsrf, error_body) {
                    Ok(_) => Err(RoboatError::MalformedResponse),
                    Err(e) => Err(e),
                }
            }
        },
    }
}

/// The decoded payload of a successful response; `MalformedResponse` where the
/// body did not decode as the expected shape.
pub fn parse_to_raw<T>(payload: Option<T>) -> (r: Result<T, RoboatError>)
    ensures
        r == spec_parse_to_raw(payload),
{
    match payload {
        Some(v) => Ok(v),
        None => Err(RoboatError::MalformedResponse),
    }
}

/// Turns a completed exchange into the typed payload or exactly one error.
pub fn classify<T>(exchange: Result<HttpResponse<T>, String>) -> (r: Result<T, RoboatError>)
    ensures
        r == spec_classify(exchange),
{
    match validate_request_result(exchange) {
        Ok(resp) => parse_to_raw(resp.payload),
        Err(e) => Err(e),
    }
}

/// A 200 response whose body decodes as the expected shape classifies as
/// success, with exactly the decoded value.
pub proof fn lemma_success_is_decoded_body<T>(resp: HttpResponse<T>, value: T)
    requires
        resp.status == 200,
        resp.payload == Some(value),
    ensures
        spec_classify(Ok::<HttpResponse<T>, String>(resp)) == Ok::<T, RoboatError>(value),
{
}

/// A 403 response that carries the token header, and whose body is not a
/// structured error or leads with code 0, asks for a retry with the header's
/// value verbatim.
pub proof fn lemma_forbidden_with_token_is_stale<T>(resp: HttpResponse<T>, token: String)
    requires
        resp.status == 403,
        resp.xcsrf == Some(token),
        match resp.error_body {
            None => true,
            Some(b) => b.errors@.len() > 0 && b.errors@[0].code == 0,
        },
    ensures
        spec_classify(Ok::<HttpResponse<T>, String>(resp)) == Err::<T, RoboatError>(
            RoboatError::InvalidXcsrf(token),
        ),
{
}

/// A 403 response that carries the token header and a structured error with a
/// nonzero code is that remote error, not a token problem.
pub proof fn lemma_forbidden_with_code_is_remote_error<T>(resp: HttpResponse<T>, token: String)
    requires
        resp.status == 403,
        resp.xcsrf == Some(token),
        resp.error_body is Some,
        resp.error_body->0.errors@.len() > 0,
        resp.error_body->0.errors@[0].code != 0,
    ensures
        spec_classify(Ok::<HttpResponse<T>, String>(resp)) == Err::<T, RoboatError>(
            RoboatError::UnknownRobloxErrorCode {
                code: resp.error_body->0.errors@[0].code,
                message: resp.error_body->0.errors@[0].message,
            },
        ),
{
}

} // verus!
