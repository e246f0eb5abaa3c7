//! The engine: runs the steps and keeps the checkpoint.

use crate::error::Error;
use crate::failure::{error_chain, Failure};
use crate::state::{Checkpoint, State};
use crate::step::{chained, Step, StepResult};
use crate::store::{Store, Writes};
use vstd::prelude::*;
use vstd::string::StringExecFns;

verus! {

/// The text with which a run refuses to start while the failure `error` of
/// an earlier run on the step rendered as `step` is pending.
pub open spec fn blocked_text(error: Seq<char>, step: Seq<char>) -> Seq<char> {
    "Previous run resulted in an error: "@ + error + " on step: "@ + step
}

/// What one attempt on `step` leaves behind: `after` is the store that was
/// `before`, and `r` is what the attempt gave.
///
/// A successor that the step admits is written to the store, as the one
/// write of the attempt, and handed on. Completion that the step admits
/// removes the record, as the one write of the attempt. A step failure
/// reports the chain text of a failure that the step admits, and writes the
/// step as it was with that text, as the one write of the attempt. A codec
/// error comes only of a step that cannot be written, and leaves the store
/// as it was, with no write. A store error comes only of a step that can be
/// written and that admits some outcome; nothing is known then of the store.
pub open spec fn attempted<S: Store>(
    before: S,
    step: S::Step,
    after: S,
    r: Result<Option<State<S::Step>>, Error<S::Error>>,
) -> bool {
    match r {
        Ok(Some(next)) => {
            &&& step.admits(Ok(Some(next@.step)))
            &&& next@.step.remaining() < step.remaining()
            &&& next@.error is None
            &&& after.record() == Some(next@)
            &&& after.writes() == before.writes().push(Some(next@))
        },
        Ok(None) => {
            &&& step.admits(Ok(None))
            &&& after.record() is None
            &&& after.writes() == before.writes().push(None)
        },
        Err(Error::Step(text)) => {
            &&& exists|failure: Failure|
                {
                    &&& #[trigger] step.admits(Err(failure))
                    &&& text@ == failure.chain()
                }
            &&& after.record() == Some(Checkpoint { step, error: Some(text@) })
            &&& after.writes() == before.writes().push(
                Some(Checkpoint { step, error: Some(text@) }),
            )
        },
        Err(Error::Serde(_)) => {
            &&& step.encoding() is None
            &&& after == before
        },
        Err(Error::Store(_)) => {
            &&& step.encoding() is Some
            &&& exists|outcome: StepResult<S::Step>| #[trigger] step.admits(outcome)
        },
        Err(Error::IO(_)) => false,
    }
}

/// The checkpoints that a run saves as it goes along the chain `trace`: each
/// step after the first, with no failure pending, in order.
pub open spec fn successors_saved<T>(trace: Seq<T>) -> Writes<T> {
    Seq::new(
        (trace.len() - 1) as nat,
        |i: int| Some(Checkpoint { step: trace[i + 1], error: None }),
    )
}

/// What a run leaves behind. The run started with the store `before` and
/// the checkpoint `state`; `after` is the store at its end and `r` its
/// result; `trace` is the chain of steps that the result answers for.
///
/// While a failure is pending the chain is empty, the store is as it was,
/// with no write, and the result is the refusal that names the failure and
/// the step.
///
/// Otherwise the chain begins at the current step, and each step but the
/// last admits the next as its successor. Each successor was written to the
/// store, in order, as one write each, before the run went on from it.
/// - Success: the last step admits completion; the last write removed the
///   record, and the store holds none.
/// - Step failure: the text is the chain text of a failure that the last
///   step admits; the last write saved that step, as it was, with the text,
///   and that is what the store holds.
/// - Codec error: the last step cannot be written; nothing was written for
///   it, so the store is as the write of that step left it, or as it was
///   where that step is the first.
/// - Store error: the last step can be written and admits some outcome;
///   nothing is known of the store.
///
/// This speaks of what the steps admit, of what the store holds and of what
/// was written to it. It keeps no count of the transitions that were made.
pub open spec fn ran<S: Store>(
    before: S,
    state: Checkpoint<S::Step>,
    after: S,
    trace: Seq<S::Step>,
    r: Result<(), Error<S::Error>>,
) -> bool {
    match state.error {
        Some(error) => {
            &&& trace.len() == 0
            &&& after == before
            &&& r matches Err(Error::Step(text))
            &&& text@ == blocked_text(error, state.step.rendering())
        },
        None => {
            &&& trace.len() > 0
            &&& trace[0] == state.step
            &&& chained(trace)
            &&& match r {
                Ok(()) => {
                    &&& trace.last().admits(Ok(None))
                    &&& after.record() is None
                    &&& after.writes() == (before.writes() + successors_saved(trace)).push(None)
                },
                Err(Error::Step(text)) => {
                    &&& exists|failure: Failure|
                        {
                            &&& #[trigger] trace.last().admits(Err(failure))
                            &&& text@ == failure.chain()
                        }
                    &&& after.record() == Some(
                        Checkpoint { step: trace.last(), error: Some(text@) },
                    )
                    &&& after.writes() == (before.writes() + successors_saved(trace)).push(
                        Some(Checkpoint { step: trace.last(), error: Some(text@) }),
                    )
                },
                Err(Error::Serde(_)) => {
                    &&& trace.last().encoding() is None
                    &&& after.writes() == before.writes() + successors_saved(trace)
                    &&& if trace.len() == 1 {
                        after == before
                    } else {
                        after.record() == Some(Checkpoint { step: trace.last(), error: None })
                    }
                },
                Err(Error::Store(_)) => {
                    &&& trace.last().encoding() is Some
                    &&& exists|outcome: StepResult<S::Step>| #[trigger]
                        trace.last().admits(outcome)
                },
                Err(Error::IO(_)) => false,
            }
        },
    }
}

/// What `restore` gives: the checkpoint of the store replaces the one in
/// memory, pending failure included; where the store holds none, the one in
/// memory stays.
pub open spec fn restored<S: Store>(before: Engine<S>, after: Engine<S>) -> bool {
    &&& after.store() == before.store()
    &&& match before.store().record() {
        Some(checkpoint) => after.state()@ == checkpoint,
        None => after.state() == before.state(),
    }
}

/// What `drop_error` gives: the same step with no failure pending, in memory
/// and in the store, by one write.
pub open spec fn acknowledged<S: Store>(before: Engine<S>, after: Engine<S>) -> bool {
    &&& after.state()@ == (Checkpoint { step: before.state()@.step, error: None })
    &&& after.store().record() == Some(after.state()@)
    &&& after.store().writes() == before.store().writes().push(Some(after.state()@))
}

/// What an attempt comes to, before the store is asked.
#[derive(Debug)]
pub enum Settled<T> {
    /// The transition gave a successor. The state is the checkpoint to save.
    Next(State<T>),
    /// The transition completed the work. The record is to be removed.
    Done,
    /// The transition failed. The state is the checkpoint to save: the step
    /// as it was before the attempt, with the failure text, which is given
    /// once more beside it.
    Failed(State<T>, String),
}

/// What `settled` gives for the outcome of a transition, where `snapshot`
/// was taken of the step before the attempt.
pub open spec fn settles<T: Step>(
    snapshot: Seq<char>,
    outcome: StepResult<T>,
    r: Result<Settled<T>, Failure>,
) -> bool {
    match outcome {
        Ok(Some(next)) => {
            &&& r matches Ok(Settled::Next(state))
            &&& state@ == (Checkpoint { step: next, error: None })
        },
        Ok(None) => r matches Ok(Settled::Done),
        Err(failure) => match T::decoding(snapshot) {
            Some(before) => {
                &&& r matches Ok(Settled::Failed(state, text))
                &&& text@ == failure.chain()
                &&& state@ == (Checkpoint { step: before, error: Some(failure.chain()) })
            },
            None => r is Err,
        },
    }
}

/// What `concluded` gives: the error of the store where the store failed,
/// and else what the attempt had come to.
pub open spec fn conclusion<T, E>(settled: Settled<T>, written: Result<(), E>) -> Result<
    Option<State<T>>,
    Error<E>,
> {
    match written {
        Err(e) => Err(Error::Store(e)),
        Ok(()) => match settled {
            Settled::Next(state) => Ok(Some(state)),
            Settled::Done => Ok(None),
            Settled::Failed(_, text) => Err(Error::Step(text)),
        },
    }
}

/// Decides what the outcome of a transition comes to. A successor becomes
/// the current step with no failure pending. Completion leaves nothing to
/// keep. A failure is set beside the step as it was before the attempt,
/// read back from `snapshot`, and rendered with its chain of causes; where
/// the snapshot cannot be read, that is the failure returned.
pub fn settled<T: Step>(snapshot: &str, outcome: StepResult<T>) -> (r: Result<Settled<T>, Failure>)
    ensures
        settles(snapshot@, outcome, r),
{
    match outcome {
        Ok(Some(next)) => Ok(Settled::Next(State::new(next, None))),
        Ok(None) => Ok(Settled::Done),
        Err(failure) => match T::decode(snapshot) {
            Ok(before) => {
                let text = error_chain(failure);
                Ok(Settled::Failed(State::new(before, Some(text.clone())), text))
            },
            Err(e) => Err(e),
        },
    }
}

/// Decides what an attempt gives once the store was asked to save the
/// checkpoint or to remove the record. An error of the store is handed on
/// as it is, whatever the attempt had come to.
pub fn concluded<T, E>(settled: Settled<T>, written: Result<(), E>) -> (r: Result<
    Option<State<T>>,
    Error<E>,
>)
    ensures
        r == conclusion(settled, written),
{
    match written {
        Err(e) => Err(Error::Store(e)),
        Ok(()) => match settled {
            Settled::Next(state) => Ok(Some(state)),
            Settled::Done => Ok(None),
            Settled::Failed(_, text) => Err(Error::Step(text)),
        },
    }
}

/// A machine with its store.
pub struct Engine<S: Store> {
    store: S,
    state: State<S::Step>,
}

impl<S: Store> Engine<S> {
    /// The store of this machine.
    pub closed spec fn spec_store(&self) -> &S {
        &self.store
    }

    /// The checkpoint of this machine as it stands in memory.
    pub closed spec fn spec_state(&self) -> &State<S::Step> {
        &self.state
    }

    /// The store of this machine.
    #[verifier::when_used_as_spec(spec_store)]
    pub fn store(&self) -> (store: &S)
        ensures
            store == self.store(),
    {
        &self.store
    }

    /// The checkpoint of this machine as it stands in memory.
    #[verifier::when_used_as_spec(spec_state)]
    pub fn state(&self) -> (state: &State<S::Step>)
        ensures
            state == self.state(),
    {
        &self.state
    }

    /// Takes the machine apart into its store and its checkpoint.
    pub fn into_parts(self) -> (parts: (S, State<S::Step>))
        ensures
            parts.0 == self.store(),
            parts.1 == self.state(),
    {
        (self.store, self.state)
    }

    /// A machine that stands at `first_step` with no failure pending.
    /// Nothing is read or written.
    pub fn new(store: S, first_step: S::Step) -> (r: Result<Self, Error<S::Error>>)
        ensures
            r matches Ok(engine),
            r->Ok_0.store() == store,
            r->Ok_0.state()@ == (Checkpoint { step: first_step, error: None }),
    {
        let state = State::new(first_step, None);
        Ok(Engine { store, state })
    }

    /// Takes up the checkpoint of an earlier run, if the store holds one.
    /// It fails only where the store cannot be read.
    pub fn restore(self) -> (r: Result<Self, Error<S::Error>>)
        ensures
            match r {
                Ok(engine) => restored(self, engine),
                Err(e) => e is Store,
            },
    {
        let Engine { store, state } = self;
        match Error::of_store(store.load()) {
            Ok(Some(loaded)) => Ok(Engine { store, state: loaded }),
            Ok(None) => Ok(Engine { store, state }),
            Err(e) => Err(e),
        }
    }

    /// Acknowledges the failure of an earlier run: clears it and writes the
    /// cleared checkpoint to the store, so that the next run begins at the
    /// failed step. It fails only where the store cannot be written.
    pub fn drop_error(self) -> (r: Result<Self, Error<S::Error>>)
        ensures
            match r {
                Ok(engine) => acknowledged(self, engine),
                Err(e) => e is Store,
            },
    {
        let Engine { store, state } = self;
        let mut engine = Engine { store, state: State::new(state.into_step(), None) };
        match engine.save() {
            Ok(()) => Ok(engine),
            Err(e) => Err(e),
        }
    }

    /// Runs all steps to completion, or up to the first failure, and hands
    /// the store back beside the result.
    ///
    /// While the failure of an earlier run is pending the run is refused and
    /// the store comes back as it was.
    pub fn run(self) -> (out: (Result<(), Error<S::Error>>, S))
        ensures
            exists|trace: Seq<S::Step>| ran(*self.store(), self.state()@, out.1, trace, out.0),
    {
        let Engine { store, state } = self;
        let mut store = store;
        let ghost before = store;
        let ghost checkpoint = state@;
        let r = Self::execute(&mut store, state);
        let out = (r, store);
        proof {
            let trace = choose|trace: Seq<S::Step>| ran(before, checkpoint, out.1, trace, out.0);
            assert(ran(*self.store(), self.state()@, out.1, trace, out.0));
        }
        out
    }

    /// Writes the checkpoint in memory to the store.
    pub fn save(&mut self) -> (r: Result<(), Error<S::Error>>)
        ensures
            final(self).state() == old(self).state(),
            match r {
                Ok(()) => {
                    &&& final(self).store().record() == Some(old(self).state()@)
                    &&& final(self).store().writes() == old(self).store().writes().push(
                        Some(old(self).state()@),
                    )
                },
                Err(e) => e is Store,
            },
    {
        Error::of_store(self.store.save(&self.state))
    }

    /// Runs the steps from `state` on, writing to `store` after every
    /// attempt, until the work is complete or a step fails.
    pub fn execute(store: &mut S, state: State<S::Step>) -> (r: Result<(), Error<S::Error>>)
        ensures
            exists|trace: Seq<S::Step>| ran(*old(store), state@, *final(store), trace, r),
    {
        if let Some(error) = state.error() {
            let mut text = String::from_str("Previous run resulted in an error: ");
            text.append(error.as_str());
            text.append(" on step: ");
            let rendering = state.step().describe();
            text.append(rendering.as_str());
            let r = Err(Error::Step(text));
            assert(ran(*old(store), state@, *store, Seq::empty(), r));
            return r;
        }
        let ghost first = state@;
        let ghost mut trace: Seq<S::Step> = Seq::empty();
        let mut current = state;
        loop
            invariant
                first == state@,
                first.error is None,
                current@.error is None,
                chained(trace.push(current@.step)),
                trace.push(current@.step)[0] == first.step,
                trace.len() == 0 ==> *store == *old(store),
                trace.len() > 0 ==> store.record() == Some(current@),
                store.writes() == old(store).writes() + successors_saved(
                    trace.push(current@.step),
                ),
            decreases current@.step.remaining(),
        {
            let ghost step = current@.step;
            let outcome = Self::attempt(store, current);
            proof {
                trace = trace.push(step);
            }
            match outcome {
                Ok(Some(next)) => {
                    current = next;
                },
                Ok(None) => {
                    let r = Ok(());
                    assert(ran(*old(store), first, *store, trace, r));
                    return r;
                },
                Err(e) => {
                    let r = Err(e);
                    assert(ran(*old(store), first, *store, trace, r));
                    return r;
                },
            }
        }
    }

    /// Attempts the transition of the current step once, and writes the
    /// outcome to the store: takes a snapshot, invokes the transition, lets
    /// `settled` decide what the outcome comes to, makes the one store call
    /// that this asks for, and lets `concluded` decide what to hand on.
    fn attempt(store: &mut S, state: State<S::Step>) -> (r: Result<
        Option<State<S::Step>>,
        Error<S::Error>,
    >)
        ensures
            attempted(*old(store), state@.step, *final(store), r),
    {
        let step = state.into_step();
        let snapshot = match step.encode() {
            Ok(text) => text,
            Err(e) => {
                return Err(Error::Serde(e));
            },
        };
        let outcome = step.run();
        let verdict = match settled(snapshot.as_str(), outcome) {
            Ok(verdict) => verdict,
            Err(e) => {
                return Err(Error::Serde(e));
            },
        };
        let written = match &verdict {
            Settled::Next(next) => store.save(next),
            Settled::Done => store.clean(),
            Settled::Failed(failed, _) => store.save(failed),
        };
        assert(step.admits(outcome));
        concluded(verdict, written)
    }
}

} // verus!
