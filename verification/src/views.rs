//! The mathematical values of options and results.

use crate::error::{Error, ErrorView};
use vstd::prelude::*;

verus! {

/// The view of what an option holds.
pub open spec fn option_view<T: View>(option: Option<T>) -> Option<T::V> {
    match option {
        Some(value) => Some(value@),
        None => None,
    }
}

/// The mathematical value of a fallible result: the error by its view, the
/// success as `ok` maps it.
pub open spec fn outcome<T, U>(result: Result<T, Error>, ok: spec_fn(T) -> U) -> Result<U, ErrorView> {
    match result {
        Ok(value) => Ok(ok(value)),
        Err(error) => Err(error@),
    }
}

/// The mathematical value of a result that describes its failure in words.
pub open spec fn described<T>(result: Result<T, String>) -> Result<T, Seq<char>> {
    match result {
        Ok(value) => Ok(value),
        Err(text) => Err(text@),
    }
}

} // verus!
