use vstd::prelude::*;

verus! {

/// The library's error taxonomy.
#[derive(Debug)]
pub enum AppError {
    /// Filesystem or persistence failure.
    Io(String),
    /// Encoding or decoding of persisted data failed.
    Serialization(String),
    /// Transport or protocol failure towards the broker.
    IBConnection(String),
    /// A user-supplied value violates a domain rule.
    Validation(String),
    /// No template with the given id.
    NotFound(String),
    /// Anything else.
    Custom(String),
    /// Chart rendering failed.
    ChartError(String),
}

impl AppError {
    /// A catch-all error carrying `msg`.
    pub fn custom(msg: String) -> (r: AppError)
        ensures
            r == AppError::Custom(msg),
    {
        AppError::Custom(msg)
    }

    /// The message that the error carries.
    pub open spec fn text(&self) -> String {
        match *self {
            AppError::Io(m) => m,
            AppError::Serialization(m) => m,
            AppError::IBConnection(m) => m,
            AppError::Validation(m) => m,
            AppError::NotFound(m) => m,
            AppError::Custom(m) => m,
            AppError::ChartError(m) => m,
        }
    }

    /// The message that the error carries.
    pub fn message(&self) -> (r: &String)
        ensures
            *r == self.text(),
    {
        match self {
            AppError::Io(m) => m,
            AppError::Serialization(m) => m,
            AppError::IBConnection(m) => m,
            AppError::Validation(m) => m,
            AppError::NotFound(m) => m,
            AppError::Custom(m) => m,
            AppError::ChartError(m) => m,
        }
    }
}

} // verus!
