//! Error taxonomy and the HTTP statuses the handlers answer with.

use vstd::prelude::*;

verus! {

/// Everything that can go wrong while a request is handled.
#[derive(Clone, Copy, Debug, PartialEq, Eq, Structural)]
pub enum AppError {
    /// The request body could not be read.
    IoError,
    /// The operation is not provided.
    NotImplemented,
    /// A value could not be written as JSON.
    JsonEncoderError,
    /// A body is not the JSON that was expected.
    JsonDecoderError,
    /// Unknown user or wrong password; the two are never told apart.
    InvalidUsernameOrPassword,
    /// Shared state could not be read from the pipeline.
    PersistenceError,
    /// The login configuration or the per-request session slot is missing:
    /// the pipeline was assembled without the session middleware.
    NoSessionLoaded,
}

/// The statuses this service answers with.
#[derive(Clone, Copy, Debug, PartialEq, Eq, Structural)]
pub enum Status {
    Success,
    Forbidden,
    NotFound,
    InternalServerError,
}

pub type Result<T> = std::result::Result<T, AppError>;

impl AppError {
    /// Text of the short description of each kind.
    pub open spec fn description_text(self) -> Seq<char> {
        match self {
            AppError::IoError => "io error"@,
            AppError::NotImplemented => "not implemented"@,
            AppError::JsonEncoderError => "error encoding json"@,
            AppError::JsonDecoderError => "error decoding json"@,
            AppError::InvalidUsernameOrPassword => "invalid username or password"@,
            AppError::PersistenceError => "error persisting state"@,
            AppError::NoSessionLoaded => "server session middleware not available"@,
        }
    }

    /// A generic description of the error, free of internal detail.
    pub fn description(&self) -> (text: &'static str)
        ensures
            text@ == self.description_text(),
    {
        match self {
            AppError::IoError => "io error",
            AppError::NotImplemented => "not implemented",
            AppError::JsonEncoderError => "error encoding json",
            AppError::JsonDecoderError => "error decoding json",
            AppError::InvalidUsernameOrPassword => "invalid username or password",
            AppError::PersistenceError => "error persisting state",
            AppError::NoSessionLoaded => "server session middleware not available",
        }
    }
}

impl Status {
    /// The numeric HTTP status code.
    pub open spec fn code_value(self) -> int {
        match self {
            Status::Success => 200,
            Status::Forbidden => 403,
            Status::NotFound => 404,
            Status::InternalServerError => 500,
        }
    }

    pub fn code(&self) -> (c: u16)
        ensures
            c == self.code_value(),
    {
        match self {
            Status::Success => 200,
            Status::Forbidden => 403,
            Status::NotFound => 404,
            Status::InternalServerError => 500,
        }
    }
}

/// The status an error is reported with once it reaches the pipeline's error
/// channel: every kind is a server error there.
pub fn error_status_code(err: &AppError) -> (status: Status)
    ensures
        status == Status::InternalServerError,
{
    match *err {
        _ => Status::InternalServerError,
    }
}

} // verus!
