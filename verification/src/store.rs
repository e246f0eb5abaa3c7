//! The store: where the checkpoint is kept between launches.

use crate::state::{Checkpoint, State};
use crate::step::Step;
use vstd::prelude::*;

verus! {

/// The checkpoint that a loaded value stands for.
pub open spec fn found<T>(loaded: Option<State<T>>) -> Option<Checkpoint<T>> {
    match loaded {
        Some(state) => Some(state@),
        None => None,
    }
}

/// The writes of a store, oldest first: the checkpoint of each save, and
/// `None` for each removal.
pub type Writes<T> = Seq<Option<Checkpoint<T>>>;

/// A durable place for one checkpoint. Any medium may implement it.
///
/// One store is one location and one machine. The engine is its only
/// writer: `record` is what the location holds as far as this value has
/// written or read it, and `writes` is the history of what this value has
/// written. Neither is ever run: an implementation outside of verified code
/// gives each a body that panics.
pub trait Store: Sized {
    /// The steps of the machine that is kept here.
    type Step: Step;

    /// Why the store could not do what was asked.
    type Error;

    /// The checkpoint that the location holds, `None` when it holds none:
    /// there was no earlier run, or the earlier run completed.
    spec fn record(&self) -> Option<Checkpoint<Self::Step>>;

    /// What was written to the location through this value, oldest first.
    /// Every save and every removal that succeeds adds one entry.
    spec fn writes(&self) -> Writes<Self::Step>;

    /// Reads the checkpoint, if the location holds one.
    fn load(&self) -> (r: Result<Option<State<Self::Step>>, Self::Error>)
        ensures
            r matches Ok(loaded) ==> found(loaded) == self.record(),
    ;

    /// Writes the checkpoint over whatever the location held. Where it
    /// fails, nothing is known of what the location holds.
    fn save(&mut self, state: &State<Self::Step>) -> (r: Result<(), Self::Error>)
        ensures
            r is Ok ==> final(self).record() == Some(state@),
            r is Ok ==> final(self).writes() == old(self).writes().push(Some(state@)),
    ;

    /// Removes the checkpoint. Whether this fails when the location holds
    /// none is for the implementation to decide and to document.
    fn clean(&mut self) -> (r: Result<(), Self::Error>)
        ensures
            r is Ok ==> final(self).record() is None,
            r is Ok ==> final(self).writes() == old(self).writes().push(None),
    ;
}

} // verus!
