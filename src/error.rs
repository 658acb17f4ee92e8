use vstd::prelude::*;

verus! {

/// The closed set of failures a request can end in.
#[derive(Debug, Clone, PartialEq, Eq)]
pub enum AppError {
    /// Malformed or invalid input, or a login while authentication is off.
    BadRequest(String),
    /// The referenced task does not exist.
    NotFound,
    /// A missing, malformed, invalid or expired token, or empty credentials.
    Unauthorized,
    /// A storage failure, a signing failure or any other unexpected fault.
    Internal(String),
}

/// The HTTP status each kind of failure is reported with.
pub open spec fn status_of(e: AppError) -> u16 {
    match e {
        AppError::BadRequest(_) => 400,
        AppError::NotFound => 404,
        AppError::Unauthorized => 401,
        AppError::Internal(_) => 500,
    }
}

/// The text carried in the `error` field of the response body.
pub open spec fn message_of(e: AppError) -> Seq<char> {
    match e {
        AppError::BadRequest(m) => m@,
        AppError::NotFound => "Not Found"@,
        AppError::Unauthorized => "Unauthorized"@,
        AppError::Internal(m) => m@,
    }
}

impl AppError {
    pub fn status_code(&self) -> (r: u16)
        ensures
            r == status_of(*self),
    {
        match self {
            AppError::BadRequest(_) => 400,
            AppError::NotFound => 404,
            AppError::Unauthorized => 401,
            AppError::Internal(_) => 500,
        }
    }

    pub fn message(&self) -> (r: String)
        ensures
            r@ == message_of(*self),
    {
        match self {
            AppError::BadRequest(m) => m.clone(),
            AppError::NotFound => "Not Found".to_owned(),
            AppError::Unauthorized => "Unauthorized".to_owned(),
            AppError::Internal(m) => m.clone(),
        }
    }
}

} // verus!
