//! The plain envelope that the services share.

use crate::clock::now_unix_seconds;
use crate::error::TinyIdError;
use vstd::prelude::*;
use vstd::string::StringExecFns;

verus! {

/// An answer with a numeric code, stamped with the second it was made in.
#[derive(Clone, Debug)]
pub struct ApiResponse<T> {
    pub code: i32,
    pub message: String,
    pub data: Option<T>,
    pub timestamp: i64,
}

impl<T> ApiResponse<T> {
    /// The answer that carries data: code 0 and the message `Success`.
    pub fn success(data: T) -> (r: Self)
        ensures
            r.code == 0,
            r.message@ == "Success"@,
            r.data == Some(data),
    {
        ApiResponse {
            code: 0,
            message: String::from_str("Success"),
            data: Some(data),
            timestamp: now_unix_seconds(),
        }
    }

    /// The answer that reports a failure.
    pub fn error(code: i32, message: String) -> (r: Self)
        ensures
            r.code == code,
            r.message == message,
            r.data is None,
    {
        ApiResponse { code, message, data: None, timestamp: now_unix_seconds() }
    }
}

impl<T> Default for ApiResponse<T> {
    /// The failure of the server, code 500.
    fn default() -> (r: Self)
        ensures
            r.code == 500,
            r.message@ == "Internal Server Error"@,
            r.data is None,
    {
        Self::error(500, String::from_str("Internal Server Error"))
    }
}

/// An answer that carries nothing.
#[derive(Clone, Copy, Debug)]
pub struct Empty {}

/// The status of the transport with which an error of the generator is
/// answered: a failure of the user service is a bad gateway, any other a
/// failure of the server.
pub open spec fn error_status(e: TinyIdError) -> u16 {
    if e is UserServiceError {
        502
    } else {
        500
    }
}

/// The numeric code with which an error of the generator is answered.
pub open spec fn error_code(e: TinyIdError) -> i32 {
    match e {
        TinyIdError::InternalError(_) => 5000,
        TinyIdError::IdGenerationFailed(_) => 5001,
        _ => 5002,
    }
}

/// The answer to a request that failed with an error of the generator: the
/// status of the transport and the envelope with the error's code and text.
pub fn error_parts(e: TinyIdError) -> (r: (u16, ApiResponse<()>))
    ensures
        r.0 == error_status(e),
        r.1.code == error_code(e),
        r.1.message@ == e.message_spec(),
        r.1.data is None,
{
    let message = e.to_string();
    let (status, code): (u16, i32) = match e {
        TinyIdError::InternalError(_) => (500, 5000),
        TinyIdError::IdGenerationFailed(_) => (500, 5001),
        TinyIdError::UserServiceError(_) => (502, 5002),
        _ => (500, 5002),
    };
    (status, ApiResponse::error(code, message))
}

} // verus!
