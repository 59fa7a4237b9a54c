//! Convenience methods to turn a diagnostic into a two-faced error.

use crate::twoface::{ExternalError, TfError};
use vstd::prelude::*;

verus! {

pub trait Describe: Sized {
    /// The diagnostic text that the value carries.
    spec fn diagnostic(&self) -> Seq<char>;

    /// Converts a diagnostic into a `TfError` by describing it to your users.
    fn describe(self, external: ExternalError) -> (err: TfError)
        ensures
            err.internal@ == self.diagnostic(),
            err.external == external,
    ;
}

impl Describe for String {
    open spec fn diagnostic(&self) -> Seq<char> {
        self@
    }

    fn describe(self, external: ExternalError) -> (err: TfError)
        ensures
            err.internal == self,
    {
        TfError { internal: self, external }
    }
}

impl<'a> Describe for &'a str {
    open spec fn diagnostic(&self) -> Seq<char> {
        self@
    }

    fn describe(self, external: ExternalError) -> (err: TfError) {
        TfError { internal: self.to_owned(), external }
    }
}

/// Any diagnostic can be turned into a `TfError` with the default external
/// description. To give it a description of its own, use
/// `internal.describe(external)`.
impl From<String> for TfError {
    fn from(internal: String) -> (err: TfError) {
        internal.describe(ExternalError::default())
    }
}

impl vstd::std_specs::convert::FromSpecImpl<String> for TfError {
    open spec fn obeys_from_spec() -> bool {
        true
    }

    open spec fn from_spec(internal: String) -> TfError {
        TfError { internal, external: ExternalError::generic() }
    }
}

/// A diagnostic that was given no description of its own is shown as a
/// server error with the generic text, whatever the diagnostic says, and
/// answers with status 500.
pub proof fn lemma_default_envelope(internal: String)
    ensures
        <TfError as vstd::std_specs::convert::FromSpec<String>>::from_spec(internal).rendered()
            == "ServerError: Internal server error"@,
        <TfError as vstd::std_specs::convert::FromSpec<String>>::from_spec(
            internal,
        ).external.cause.status() == 500,
{
    reveal_strlit("ServerError");
    reveal_strlit(": ");
    reveal_strlit("Internal server error");
    reveal_strlit("ServerError: Internal server error");
    assert("ServerError"@ + ": "@ + "Internal server error"@
        =~= "ServerError: Internal server error"@);
}

pub trait DescribeErr<T>: Sized {
    /// The value that the result holds if it is `Ok`.
    spec fn success(&self) -> Option<T>;

    /// The diagnostic that the result holds if it is `Err`.
    spec fn failure(&self) -> Option<Seq<char>>;

    /// Converts a result's error into a `TfError` by describing it to your
    /// users. An `Ok` passes through untouched.
    fn describe_err(self, external: ExternalError) -> (r: Result<T, TfError>)
        ensures
            match r {
                Ok(value) => self.success() == Some(value),
                Err(err) => self.failure() == Some(err.internal@) && err.external == external,
            },
    ;
}

impl<T, E: Describe> DescribeErr<T> for Result<T, E> {
    open spec fn success(&self) -> Option<T> {
        match self {
            Ok(value) => Some(*value),
            Err(_) => None,
        }
    }

    open spec fn failure(&self) -> Option<Seq<char>> {
        match self {
            Ok(_) => None,
            Err(e) => Some(e.diagnostic()),
        }
    }

    fn describe_err(self, external: ExternalError) -> (r: Result<T, TfError>) {
        match self {
            Ok(value) => Ok(value),
            Err(e) => Err(e.describe(external)),
        }
    }
}

} // verus!
