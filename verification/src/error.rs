//! The errors the data layer reports: a row that a statement needs is
//! missing, a sign-in that does not match a stored user, or an insert that
//! would break a uniqueness rule.

use vstd::prelude::*;

verus! {

#[derive(Clone, Copy, Debug, PartialEq, Eq, Structural)]
pub enum AppError {
    /// A row the statement filters on does not exist.
    NotFound,
    /// The email and password pair matches no stored user.
    Unauthorized,
    /// The insert would duplicate a value that must stay unique.
    UnprocessableEntity,
}

impl AppError {
    /// A short human-readable name for the error.
    pub fn message(&self) -> (r: &'static str)
        ensures
            (*self == AppError::NotFound ==> r@ == "not found"@),
            (*self == AppError::Unauthorized ==> r@ == "unauthorized"@),
            (*self == AppError::UnprocessableEntity ==> r@ == "unprocessable entity"@),
    {
        match self {
            AppError::NotFound => "not found",
            AppError::Unauthorized => "unauthorized",
            AppError::UnprocessableEntity => "unprocessable entity",
        }
    }
}

} // verus!
