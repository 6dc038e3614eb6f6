//! The error taxonomy of the engine.
//!
//! `NotFound` hides both "truly absent" and "exists but this caller has no
//! read right", so existence is never leaked.  `Forbidden` covers a write by
//! a caller who is not the owner, without distinguishing "not owner" from
//! "no such row".  Storage or collaborator failures collapse to `Internal`
//! and carry no detail.

use vstd::prelude::*;
use vstd::string::StringExecFns;

verus! {

/// Outcome of a core operation that did not succeed.
#[derive(Debug, Clone, PartialEq, Eq)]
pub enum AppError {
    /// The resource is absent, or deliberately hidden from this caller.
    NotFound,
    /// A token was required and was missing, malformed or expired.
    Unauthorized,
    /// The caller is authenticated but may not touch this resource.
    Forbidden,
    /// The input itself is malformed; the message names the field.
    BadRequest(String),
    /// A collaborator failed; no detail is surfaced to the caller.
    Internal,
}

impl AppError {
    /// The transport status code the boundary layer maps this error to.
    pub fn status_code(&self) -> (code: u16)
        ensures
            code == self.spec_status_code(),
    {
        match self {
            AppError::NotFound => 404,
            AppError::Unauthorized => 401,
            AppError::Forbidden => 403,
            AppError::BadRequest(_) => 400,
            AppError::Internal => 500,
        }
    }

    pub open spec fn spec_status_code(&self) -> u16 {
        match self {
            AppError::NotFound => 404,
            AppError::Unauthorized => 401,
            AppError::Forbidden => 403,
            AppError::BadRequest(_) => 400,
            AppError::Internal => 500,
        }
    }

    /// The minimal message shown to a caller.  Each kind owes exactly one
    /// text; `Internal` in particular always reads "internal error", so no
    /// collaborator detail can ever reach the caller through it.
    pub fn message(&self) -> (m: String)
        ensures
            self is NotFound ==> m@ == "not found"@,
            self is Unauthorized ==> m@ == "unauthorized"@,
            self is Forbidden ==> m@ == "forbidden"@,
            self is BadRequest ==> m@ == "bad request: "@ + self->BadRequest_0@,
            self is Internal ==> m@ == "internal error"@,
    {
        match self {
            AppError::NotFound => "not found".to_owned(),
            AppError::Unauthorized => "unauthorized".to_owned(),
            AppError::Forbidden => "forbidden".to_owned(),
            AppError::BadRequest(detail) => {
                let mut m = "bad request: ".to_owned();
                m.append(detail.as_str());
                m
            },
            AppError::Internal => "internal error".to_owned(),
        }
    }
}

} // verus!
