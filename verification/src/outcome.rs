//! Results and what they stand for.

use vstd::prelude::*;

verus! {

/// A result with its value and its error replaced by what they stand for.
pub open spec fn of<T: DeepView, E: DeepView>(result: Result<T, E>) -> Result<T::V, E::V> {
    match result {
        Ok(value) => Ok(value.deep_view()),
        Err(error) => Err(error.deep_view()),
    }
}

/// The value of `first` handed on to `next`, or the error of `first`.
pub open spec fn and_then<T, U, E>(
    first: Result<T, E>,
    next: spec_fn(T) -> Result<U, E>,
) -> Result<U, E> {
    match first {
        Ok(value) => next(value),
        Err(error) => Err(error),
    }
}

} // verus!
