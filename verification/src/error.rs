//! Bringing the errors of different handlers to one type.

use vstd::prelude::*;
use vstd::std_specs::convert::IntoSpec;

verus! {

/// What `outcome` is to a caller that keeps every error in the one type `U`:
/// a success as it is, a failure with its error converted into `U`.
pub open spec fn unified<T, E: Into<U>, U>(outcome: Result<T, E>) -> Result<T, U> {
    match outcome {
        Ok(value) => Ok(value),
        Err(error) => Err(error.into_spec()),
    }
}

/// Converts the error of `outcome` into the uniform error type `U`, so that
/// handlers with different error types can be treated alike.
///
/// A success is never touched. A failure stays a failure, and its error is
/// what `E`'s conversion makes of it.
pub fn unify_error<T, E: Into<U>, U>(outcome: Result<T, E>) -> (uniform: Result<T, U>)
    ensures
        match outcome {
            Ok(value) => uniform == Ok::<T, U>(value),
            Err(error) => uniform is Err && call_ensures(
                <E as Into<U>>::into,
                (error,),
                uniform->Err_0,
            ),
        },
        E::obeys_into_spec() ==> uniform == unified::<T, E, U>(outcome),
{
    match outcome {
        Ok(value) => Ok(value),
        Err(error) => Err(error.into()),
    }
}

} // verus!
