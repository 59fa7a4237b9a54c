//! How an operation that ran on the worker pool ended, turned into a
//! `Fallible`.

use crate::twoface::{Describe, ExternalError, Fallible, TfError};
use vstd::prelude::*;
use vstd::std_specs::convert::IntoSpec;

verus! {

/// Why an operation handed to the worker pool gave no value: it failed with
/// an error of its own, or the pool cancelled it.
#[derive(Debug)]
pub enum BlockingError<E> {
    Error(E),
    Canceled,
}

/// Convenience extension used to extract errors from what the worker pool
/// hands back.
pub trait BlockingResp<T>: Sized {
    /// Convert the return from the worker pool into a normal `Fallible<T>`.
    fn to_resp(self) -> Fallible<T>;
}

impl<T, I: Into<TfError>> BlockingResp<T> for Result<T, BlockingError<I>> {
    /// A value passes through. An error of the operation is converted as its
    /// type says. A cancellation becomes a server error with the default
    /// external description, whose diagnostic says that the operation was
    /// cancelled.
    fn to_resp(self) -> (r: Fallible<T>)
        ensures
            match self {
                Ok(value) => r == Ok::<T, TfError>(value),
                Err(BlockingError::Error(err)) => r matches Err(e) && (I::obeys_into_spec() ==> e
                    == err.into_spec()),
                Err(BlockingError::Canceled) => r matches Err(e) && e.internal@
                    == "DB operation cancelled"@ && e.external == ExternalError::generic(),
            },
    {
        match self {
            Ok(value) => Ok(value),
            Err(BlockingError::Error(err)) => Err(err.into()),
            Err(BlockingError::Canceled) => Err(
                "DB operation cancelled".describe(ExternalError::default()),
            ),
        }
    }
}

} // verus!
