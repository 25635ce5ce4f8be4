//! The error that an HTTP handler answers with: a status, a message for
//! people, whether trying again may help, and an optional code for programs.
use vstd::prelude::*;

verus! {

pub const STATUS_BAD_REQUEST: u16 = 400;

pub const STATUS_CONFLICT: u16 = 409;

pub const STATUS_INTERNAL_SERVER_ERROR: u16 = 500;

pub const STATUS_BAD_GATEWAY: u16 = 502;

#[derive(Debug)]
pub struct HttpError {
    pub status: u16,
    pub message: String,
    pub retryable: bool,
    pub code: Option<&'static str>,
}

impl HttpError {
    pub fn new(status: u16, message: String, retryable: bool) -> (e: Self)
        ensures
            e.status == status,
            e.message == message,
            e.retryable == retryable,
            e.code is None,
    {
        HttpError { status, message, retryable, code: None }
    }

    /// The same error, carrying a machine-readable code.
    pub fn with_code(self, code: &'static str) -> (e: Self)
        ensures
            e.status == self.status,
            e.message == self.message,
            e.retryable == self.retryable,
            e.code == Some(code),
    {
        HttpError { code: Some(code), ..self }
    }

    /// An internal server error, which trying again does not help.
    pub fn internal(message: String) -> (e: Self)
        ensures
            e.status == STATUS_INTERNAL_SERVER_ERROR,
            e.message == message,
            !e.retryable,
            e.code is None,
    {
        Self::new(STATUS_INTERNAL_SERVER_ERROR, message, false)
    }
}

} // verus!
