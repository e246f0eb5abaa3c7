//! The checkpoint: where a machine stands.

use vstd::prelude::*;

verus! {

/// A checkpoint as a mathematical value: the current step and the text of
/// the failure that has not been acknowledged, if there is one.
pub ghost struct Checkpoint<T> {
    pub step: T,
    pub error: Option<Seq<char>>,
}

/// The state of a machine as it is kept in memory and written to the store.
#[derive(Debug)]
pub struct State<T> {
    step: T,
    error: Option<String>,
}

impl<T> View for State<T> {
    type V = Checkpoint<T>;

    closed spec fn view(&self) -> Checkpoint<T> {
        Checkpoint {
            step: self.step,
            error: match self.error {
                Some(text) => Some(text@),
                None => None,
            },
        }
    }
}

impl<T> State<T> {
    /// A state with the given current step and pending failure.
    pub fn new(step: T, error: Option<String>) -> (state: Self)
        ensures
            state@.step == step,
            state@.error == match error {
                Some(text) => Some(text@),
                None => None,
            },
    {
        State { step, error }
    }

    /// The current step.
    pub fn step(&self) -> (step: &T)
        ensures
            *step == self@.step,
    {
        &self.step
    }

    /// The failure that has not been acknowledged, if there is one.
    pub fn error(&self) -> (error: Option<&String>)
        ensures
            match error {
                Some(text) => self@.error == Some(text@),
                None => self@.error is None,
            },
    {
        self.error.as_ref()
    }

    /// Gives up the state for its current step.
    pub fn into_step(self) -> (step: T)
        ensures
            step == self@.step,
    {
        self.step
    }
}

} // verus!
