//! Errors with two faces: an internal diagnostic that stays private, and an
//! external description that is safe to show to the caller.
//!
//! An internal error may hold details of the implementation that users must
//! not see. `TfError` pairs it with a user-facing description, and only that
//! description is ever rendered.

pub mod extensions;
pub mod externalerror;
pub mod integrations;

pub use extensions::{Describe, DescribeErr};
pub use externalerror::{Cause, ExternalError};
pub use integrations::ErrorResponse;

use vstd::prelude::*;

verus! {

/// Wraps an internal diagnostic with a user-facing description.
#[derive(Debug)]
pub struct TfError {
    /// What went wrong, in the words of the component that failed. May
    /// contain sensitive information, so it is not shown to users.
    pub internal: String,
    /// A user-friendly error that doesn't contain any sensitive information.
    pub external: ExternalError,
}

impl TfError {
    /// What a caller is shown of the error: the external part, and nothing of
    /// the internal one.
    pub open spec fn rendered(&self) -> Seq<char> {
        self.external.rendered()
    }

    /// Renders the error for the caller. Only the external part is shown.
    pub fn to_string(&self) -> (s: String)
        ensures
            s@ == self.rendered(),
    {
        self.external.to_string()
    }
}

/// Return type of a function that could fail. If it fails, it gives an error
/// with both an internal and an external face.
pub type Fallible<T> = Result<T, TfError>;

} // verus!
