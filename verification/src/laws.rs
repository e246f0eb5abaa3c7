//! What holds of every machine, every store and every run.

use crate::engine::{
    acknowledged, blocked_text, conclusion, ran, restored, settles, successors_saved, Engine,
    Settled,
};
use crate::error::Error;
use crate::failure::{cause_lines, chain_text, texts, Failure};
use crate::state::{Checkpoint, State};
use crate::step::{chained, reads_as, snapshot_of, Step, StepResult};
use crate::store::{found, Store};
use vstd::prelude::*;

verus! {

/// The rendering of a failure with its chain of causes begins with the
/// message of the failure itself.
pub proof fn lemma_chain_begins_with_message(message: Seq<char>, causes: Seq<Seq<char>>)
    ensures
        message.is_prefix_of(chain_text(message, causes)),
{
    if causes.len() > 0 {
        let rest = "\nCaused by:"@ + cause_lines(causes);
        assert(chain_text(message, causes) == message + rest);
        assert((message + rest).subrange(0, message.len() as int) == message);
    }
}

/// A run that succeeds removes the record: the store then holds no
/// checkpoint, so a load from it finds none. Such a run had no failure
/// pending, the last step of its chain admits completion, and the removal
/// is its last write, after one save for each successor.
pub proof fn lemma_success_removes_record<S: Store>(
    before: S,
    state: Checkpoint<S::Step>,
    after: S,
    trace: Seq<S::Step>,
    r: Result<(), Error<S::Error>>,
)
    requires
        ran(before, state, after, trace, r),
        r is Ok,
    ensures
        after.record() is None,
        forall|loaded: Option<State<S::Step>>|
            found(loaded) == after.record() ==> loaded is None,
        state.error is None,
        trace.len() > 0,
        trace.last().admits(Ok(None)),
        after.writes() == (before.writes() + successors_saved(trace)).push(None),
        after.writes().len() == before.writes().len() + trace.len(),
        after.writes().last() is None,
{
}

/// When a run ends in a step failure, the store keeps the last step of the
/// chain, the one whose failure is reported, as it was: never a later or a
/// half-applied one. It keeps it together with the failure text, by the
/// last write of the run, after one save for each successor. The chain
/// leads to that step from the current step of the checkpoint by successors
/// that the steps admit, and the text begins with the message of the
/// failure.
pub proof fn lemma_failure_keeps_failed_step<S: Store>(
    before: S,
    state: Checkpoint<S::Step>,
    after: S,
    trace: Seq<S::Step>,
    r: Result<(), Error<S::Error>>,
)
    requires
        ran(before, state, after, trace, r),
        state.error is None,
        r matches Err(Error::Step(_)),
    ensures
        trace.len() > 0,
        trace[0] == state.step,
        chained(trace),
        after.record() == Some(Checkpoint { step: trace.last(), error: Some(r->Err_0->Step_0@) }),
        after.writes().len() == before.writes().len() + trace.len(),
        after.writes().last() == after.record(),
        exists|failure: Failure|
            {
                &&& #[trigger] trace.last().admits(Err(failure))
                &&& r->Err_0->Step_0@ == failure.chain()
                &&& failure.message@.is_prefix_of(r->Err_0->Step_0@)
            },
{
    let text = r->Err_0->Step_0@;
    let failure = choose|failure: Failure|
        {
            &&& #[trigger] trace.last().admits(Err(failure))
            &&& text == failure.chain()
        };
    lemma_chain_begins_with_message(failure.message@, texts(failure.causes@));
}

/// Each successor of a run is written before the run goes on from it: where
/// the store did not fail, the writes of the run begin with one save for
/// each step of the chain after the first, in the order of the chain, each
/// with no failure pending.
pub proof fn lemma_successors_are_written_in_order<S: Store>(
    before: S,
    state: Checkpoint<S::Step>,
    after: S,
    trace: Seq<S::Step>,
    r: Result<(), Error<S::Error>>,
)
    requires
        ran(before, state, after, trace, r),
        state.error is None,
        !(r matches Err(Error::Store(_))),
    ensures
        before.writes().is_prefix_of(after.writes()),
        after.writes().len() >= before.writes().len() + trace.len() - 1,
        forall|i: int|
            1 <= i < trace.len() ==> after.writes()[before.writes().len() + i - 1] == Some(
                Checkpoint { step: trace[i], error: None },
            ),
{
    let saved = successors_saved(trace);
    let kept = before.writes() + saved;
    assert(before.writes().is_prefix_of(kept)) by {
        assert(kept.subrange(0, before.writes().len() as int) == before.writes());
    }
    assert forall|i: int| 1 <= i < trace.len() implies kept[before.writes().len() + i - 1]
        == Some(Checkpoint { step: trace[i], error: None }) by {
        assert(kept[before.writes().len() + i - 1] == saved[i - 1]);
    }
    if after.writes() != kept {
        let last = after.writes().last();
        assert(after.writes() == kept.push(last));
        assert(after.writes().subrange(0, before.writes().len() as int) == before.writes());
    }
}

/// While a failure is pending a run is refused: its chain is empty, the
/// store is as it was, so nothing was written, and the result names the
/// pending failure and the step that is blocked.
pub proof fn lemma_pending_failure_blocks_run<S: Store>(
    before: S,
    state: Checkpoint<S::Step>,
    after: S,
    trace: Seq<S::Step>,
    r: Result<(), Error<S::Error>>,
)
    requires
        ran(before, state, after, trace, r),
        state.error is Some,
    ensures
        trace.len() == 0,
        after == before,
        after.record() == before.record(),
        after.writes() == before.writes(),
        r matches Err(Error::Step(text)) && text@ == blocked_text(
            state.error->Some_0,
            state.step.rendering(),
        ),
{
}

/// After the failure was acknowledged, the chain of the next run begins at
/// the very step that had failed: it is neither skipped nor is the work
/// begun anew. The acknowledgement itself wrote that step with no failure
/// pending.
pub proof fn lemma_run_after_acknowledgement_begins_at_failed_step<S: Store>(
    failed: Engine<S>,
    cleared: Engine<S>,
    after: S,
    trace: Seq<S::Step>,
    r: Result<(), Error<S::Error>>,
)
    requires
        acknowledged(failed, cleared),
        ran(*cleared.store(), cleared.state()@, after, trace, r),
    ensures
        trace.len() > 0,
        trace[0] == failed.state()@.step,
        cleared.store().record() == Some(Checkpoint { step: trace[0], error: None }),
        cleared.store().writes() == failed.store().writes().push(
            Some(Checkpoint { step: trace[0], error: None }),
        ),
{
}

/// A launch after a failed run stands at the failed step. The first run
/// ended in a step failure and left the store `kept`; a machine that is
/// made on that store and restored holds the failed step with the failure
/// pending, whatever first step it was made with; once the failure is
/// acknowledged, the chain of the next run begins at the failed step.
pub proof fn lemma_relaunch_resumes_at_failed_step<S: Store>(
    before: S,
    state: Checkpoint<S::Step>,
    kept: S,
    first_trace: Seq<S::Step>,
    first_result: Result<(), Error<S::Error>>,
    fresh: Engine<S>,
    resumed: Engine<S>,
    cleared: Engine<S>,
    after: S,
    trace: Seq<S::Step>,
    r: Result<(), Error<S::Error>>,
)
    requires
        ran(before, state, kept, first_trace, first_result),
        state.error is None,
        first_result matches Err(Error::Step(_)),
        *fresh.store() == kept,
        restored(fresh, resumed),
        acknowledged(resumed, cleared),
        ran(*cleared.store(), cleared.state()@, after, trace, r),
    ensures
        resumed.state()@ == (Checkpoint {
            step: first_trace.last(),
            error: Some(first_result->Err_0->Step_0@),
        }),
        trace.len() > 0,
        trace[0] == first_trace.last(),
{
}

/// A run reports a codec error only for a step that cannot be written.
/// Nothing was written for that step: the store is as the save of that step
/// left it, and as it was where the step is the first of the chain.
pub proof fn lemma_codec_error_comes_of_an_unwritable_step<S: Store>(
    before: S,
    state: Checkpoint<S::Step>,
    after: S,
    trace: Seq<S::Step>,
    r: Result<(), Error<S::Error>>,
)
    requires
        ran(before, state, after, trace, r),
        r matches Err(Error::Serde(_)),
    ensures
        state.error is None,
        trace.len() > 0,
        trace.last().encoding() is None,
        after.writes() == before.writes() + successors_saved(trace),
        trace.len() == 1 ==> after == before,
        trace.len() > 1 ==> after.record() == Some(
            Checkpoint { step: trace.last(), error: None },
        ),
{
}

/// A transition that gives a successor makes it the current step with no
/// failure pending, and once the store has saved that checkpoint the attempt
/// hands it on.
pub proof fn lemma_successor_is_saved_and_handed_on<T: Step, E>(
    snapshot: Seq<char>,
    next: T,
    r: Result<Settled<T>, Failure>,
)
    requires
        settles(snapshot, Ok(Some(next)), r),
    ensures
        ({
            &&& r matches Ok(Settled::Next(state))
            &&& state@ == (Checkpoint { step: next, error: None })
            &&& conclusion::<T, E>(Settled::Next(state), Ok(())) == Ok::<
                Option<State<T>>,
                Error<E>,
            >(Some(state))
        }),
{
}

/// A transition that completes the work leaves nothing to keep, and once
/// the store has removed the record the attempt ends the run in success.
pub proof fn lemma_completion_ends_in_success<T: Step, E>(
    snapshot: Seq<char>,
    r: Result<Settled<T>, Failure>,
)
    requires
        settles::<T>(snapshot, Ok(None), r),
    ensures
        r matches Ok(Settled::Done),
        conclusion::<T, E>(Settled::Done, Ok(())) == Ok::<Option<State<T>>, Error<E>>(None),
{
}

/// A transition that fails is never taken for a success or for a codec
/// error. With the snapshot of the step that was attempted, the checkpoint
/// to save holds that step, not a successor and not a half-used value,
/// beside the failure with its chain of causes; and once the store has saved
/// it, the attempt reports that text as a step failure.
pub proof fn lemma_failed_transition_ends_in_step_error<T: Step, E>(
    step: T,
    snapshot: Seq<char>,
    failure: Failure,
    r: Result<Settled<T>, Failure>,
)
    requires
        snapshot_of(snapshot, step),
        settles(snapshot, Err(failure), r),
    ensures
        ({
            &&& r matches Ok(Settled::Failed(state, text))
            &&& text@ == failure.chain()
            &&& failure.message@.is_prefix_of(text@)
            &&& state@ == (Checkpoint { step, error: Some(failure.chain()) })
            &&& conclusion::<T, E>(Settled::Failed(state, text), Ok(())) == Err::<
                Option<State<T>>,
                Error<E>,
            >(Error::Step(text))
        }),
{
    lemma_chain_begins_with_message(failure.message@, texts(failure.causes@));
}

/// A store that fails ends the attempt with its own error, whatever the
/// transition had given: nothing is handed on, so nothing follows.
pub proof fn lemma_store_error_is_handed_on<T, E>(settled: Settled<T>, e: E)
    ensures
        conclusion(settled, Err::<(), E>(e)) == Err::<Option<State<T>>, Error<E>>(Error::Store(e)),
{
}

/// Restoring from a store that holds no record leaves the state in memory
/// as it was.
pub proof fn lemma_restore_without_record_keeps_state<S: Store>(
    before: Engine<S>,
    after: Engine<S>,
)
    requires
        restored(before, after),
        before.store().record() is None,
    ensures
        after.state() == before.state(),
        after.store() == before.store(),
{
}

/// Restoring twice gives what restoring once gives.
pub proof fn lemma_restore_is_idempotent<S: Store>(
    before: Engine<S>,
    once: Engine<S>,
    twice: Engine<S>,
)
    requires
        restored(before, once),
        restored(once, twice),
    ensures
        twice.store() == once.store(),
        twice.state()@ == once.state()@,
{
}

/// A step that is read back from its own snapshot is the step itself, so it
/// behaves as the step does under its transition.
pub proof fn lemma_snapshot_reads_back<T: Step>(step: T, text: Seq<char>, copy: T)
    requires
        snapshot_of(text, step),
        reads_as(text, copy),
    ensures
        copy == step,
        forall|outcome: StepResult<T>| copy.admits(outcome) == step.admits(outcome),
        copy.remaining() == step.remaining(),
        copy.encoding() == Some(text),
{
}

} // verus!
