//! The errors that the engine reports.

use crate::failure::Failure;
use vstd::prelude::*;

verus! {

/// Why a call of the engine failed. `E` is the error type of the store.
#[derive(Debug)]
pub enum Error<E> {
    /// An input or output operation failed.
    IO(Failure),
    /// A step could not be encoded or decoded.
    Serde(Failure),
    /// The store could not load, save or remove the checkpoint.
    Store(E),
    /// A step failed, in this run or in an earlier one that was not
    /// acknowledged. The text is for the user.
    Step(String),
}

impl<E> Error<E> {
    /// Wraps an error of the store.
    pub fn store(e: E) -> (r: Self)
        ensures
            r == Error::Store(e),
    {
        Error::Store(e)
    }

    /// Hands on what a call of the store gave: its value as it is, and its
    /// error, as it is, as an error of the store.
    pub fn of_store<V>(outcome: Result<V, E>) -> (r: Result<V, Self>)
        ensures
            r == match outcome {
                Ok(value) => Ok::<V, Self>(value),
                Err(e) => Err(Error::Store(e)),
            },
    {
        match outcome {
            Ok(value) => Ok(value),
            Err(e) => Err(Error::store(e)),
        }
    }
}

} // verus!
