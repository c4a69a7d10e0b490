//! What can go wrong between the chart and the outside world.

use vstd::prelude::*;

verus! {

/// A failure reported by one of the chart's collaborators. Each variant
/// carries the collaborator's own description of what happened.
#[derive(Debug, Clone)]
pub enum AppError {
    /// The request for data did not complete.
    FetchError(String),
    /// The answer arrived but could not be decoded.
    JsonError(String),
    /// The browser did not provide something the chart needs.
    DomError(String),
}

impl AppError {
    /// The description that the error carries.
    pub open spec fn message(self) -> Seq<char> {
        match self {
            AppError::FetchError(s) => s@,
            AppError::JsonError(s) => s@,
            AppError::DomError(s) => s@,
        }
    }

    /// The error as text: the description it carries, unchanged.
    pub fn to_string(&self) -> (text: String)
        ensures
            text@ == self.message(),
    {
        match self {
            AppError::FetchError(s) => s.clone(),
            AppError::JsonError(s) => s.clone(),
            AppError::DomError(s) => s.clone(),
        }
    }
}

} // verus!
