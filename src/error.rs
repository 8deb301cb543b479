//! The errors that operations of the library report.
use vstd::prelude::*;

verus! {

#[derive(Clone, Copy, Debug, PartialEq, Eq, Structural)]
pub enum AppError {
    /// The operation does not fit the current session state.
    WrongMode,
    /// An experiment or preset key is absent.
    NotFound,
    /// The experiment data could not be turned into a running experiment.
    InvalidState,
    /// A result file could not be written.
    PersistenceFailure,
    /// A request did not carry the configured shared secret.
    AuthFailure,
}

impl AppError {
    /// A sentence that describes the error.
    pub fn message(&self) -> (r: &'static str)
        ensures
            r@.len() > 0,
    {
        proof {
            reveal_strlit("operation is not valid in the current mode");
            reveal_strlit("key not found");
            reveal_strlit("experiment data is not valid");
            reveal_strlit("result could not be saved");
            reveal_strlit("missing or wrong secret");
        }
        match self {
            AppError::WrongMode => "operation is not valid in the current mode",
            AppError::NotFound => "key not found",
            AppError::InvalidState => "experiment data is not valid",
            AppError::PersistenceFailure => "result could not be saved",
            AppError::AuthFailure => "missing or wrong secret",
        }
    }
}

} // verus!
