//! The errors that handlers answer with.

use vstd::prelude::*;
use vstd::string::*;

verus! {

/// An error that ends a request.
#[derive(Clone, Debug)]
pub enum AppError {
    /// The request is malformed or a value is out of range.
    Validation(String),
    /// The film asked for does not exist.
    NotFound(String),
    /// The database failed; the text describes the failure.
    Database(String),
}

/// The HTTP status an error is answered with.
pub open spec fn status_of(e: AppError) -> u16 {
    match e {
        AppError::Validation(_) => 422,
        AppError::NotFound(_) => 404,
        AppError::Database(_) => 500,
    }
}

/// The `detail` an error is answered with; a database failure is not disclosed.
pub open spec fn detail_of(e: AppError) -> Seq<char> {
    match e {
        AppError::Validation(d) => d@,
        AppError::NotFound(d) => d@,
        AppError::Database(_) => "Internal server error"@,
    }
}

/// The text an error displays as.
pub open spec fn message_of(e: AppError) -> Seq<char> {
    match e {
        AppError::Validation(d) => d@,
        AppError::NotFound(d) => d@,
        AppError::Database(d) => d@,
    }
}

impl AppError {
    /// The status and `detail` of the response to this error: 422 for a
    /// validation failure, 404 for a missing film, 500 with a generic detail for a
    /// database failure.
    pub fn response_parts(&self) -> (r: (u16, String))
        ensures
            r.0 == status_of(*self),
            r.1@ == detail_of(*self),
    {
        match self {
            AppError::Validation(detail) => (422, detail.clone()),
            AppError::NotFound(detail) => (404, detail.clone()),
            AppError::Database(_) => (500, String::from_str("Internal server error")),
        }
    }

    /// The text of the error: its detail, or the description of the database failure.
    pub fn message(&self) -> (r: String)
        ensures
            r@ == message_of(*self),
    {
        match self {
            AppError::Validation(detail) => detail.clone(),
            AppError::NotFound(detail) => detail.clone(),
            AppError::Database(text) => text.clone(),
        }
    }
}

/// A JSON request body whose rejection is answered as a validation error.
pub struct ValidatedJson<T>(pub T);

/// Query parameters whose rejection is answered as a validation error.
pub struct ValidatedQuery<T>(pub T);

/// Path parameters whose rejection is answered as a validation error.
pub struct ValidatedPath<T>(pub T);

} // verus!
