use vstd::prelude::*;

verus! {

/// The one error taxonomy of the service; each kind carries a message.
#[derive(Debug)]
pub enum AppError {
    NotFoundPin(String),
    InvalidState(String),
    InvalidValue(String),
    PermissionDenied(String),
    Config(String),
    Gpio(String),
}

/// The HTTP status that an error kind is reported with.
pub open spec fn status_of(e: AppError) -> u16 {
    match e {
        AppError::NotFoundPin(_) => 404,
        AppError::InvalidState(_) => 400,
        AppError::InvalidValue(_) => 400,
        AppError::PermissionDenied(_) => 403,
        AppError::Config(_) => 500,
        AppError::Gpio(_) => 500,
    }
}

impl AppError {
    /// The HTTP status code of this error.
    pub fn status_code(&self) -> (r: u16)
        ensures
            r == status_of(*self),
    {
        match self {
            AppError::NotFoundPin(_) => 404,
            AppError::InvalidState(_) | AppError::InvalidValue(_) => 400,
            AppError::PermissionDenied(_) => 403,
            AppError::Config(_) | AppError::Gpio(_) => 500,
        }
    }
}

} // verus!
