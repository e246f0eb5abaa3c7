//! The contract between the engine and the steps that it runs.

use crate::failure::Failure;
use vstd::prelude::*;

verus! {

/// What a transition gives: the next step, `None` when the work is complete,
/// or the reason why the step failed.
pub type StepResult<T> = Result<Option<T>, Failure>;

/// A text, in contracts.
pub type Text = Seq<char>;

/// A count of transitions, in contracts.
pub type Measure = nat;

/// A unit of resumable work. A value holds what its transition needs, and
/// the transition computes the next step, signals completion, or fails.
///
/// An implementation states with `admits` what its transition may give, with
/// `remaining` why its work comes to an end, and with `encoding` and
/// `decoding` how a step is written as text and read back. The engine's
/// guarantees are stated over these. They are never run: an implementation
/// outside of verified code gives each a body that panics.
pub trait Step: Sized {
    /// Whether the transition of this step may end in `outcome`.
    spec fn admits(self, outcome: StepResult<Self>) -> bool;

    /// A bound on the number of transitions that can follow this step before
    /// the work is complete. It is what lets a run come to an end.
    spec fn remaining(self) -> Measure;

    /// The text that stands for this step in a snapshot; `None` for a step
    /// that cannot be written.
    spec fn encoding(self) -> Option<Text>;

    /// The step that `text` stands for, if it stands for one.
    spec fn decoding(text: Text) -> Option<Self>;

    /// The rendering of this step in messages for the user.
    spec fn rendering(self) -> Text;

    /// Performs the step. What it gives is an outcome that the step admits,
    /// and a successor is closer to completion than the step it follows.
    fn run(self) -> (outcome: StepResult<Self>)
        ensures
            self.admits(outcome),
            outcome matches Ok(Some(next)) ==> next.remaining() < self.remaining(),
    ;

    /// Writes the step as text, without loss: the text stands for this step
    /// and for no other. Whether a step can be written, and as what, depends
    /// on the step alone.
    fn encode(&self) -> (r: Result<String, Failure>)
        ensures
            match r {
                Ok(text) => self.encoding() == Some(text@) && Self::decoding(text@) == Some(*self),
                Err(_) => self.encoding() is None,
            },
    ;

    /// Reads a step from text. Whether a text can be read, and as what,
    /// depends on the text alone, so a snapshot that was just taken reads
    /// back.
    fn decode(text: &str) -> (r: Result<Self, Failure>)
        ensures
            match r {
                Ok(step) => Self::decoding(text@) == Some(step),
                Err(_) => Self::decoding(text@) is None,
            },
    ;

    /// Renders the step for a message.
    fn describe(&self) -> (r: String)
        ensures
            r@ == self.rendering(),
    ;
}

/// `text` is a snapshot of `step`, as `encode` gives it: it is the encoding
/// of `step`, and it stands for `step`.
pub open spec fn snapshot_of<T: Step>(text: Seq<char>, step: T) -> bool {
    &&& step.encoding() == Some(text)
    &&& T::decoding(text) == Some(step)
}

/// `text` stands for `step`, as `decode` reads it.
pub open spec fn reads_as<T: Step>(text: Seq<char>, step: T) -> bool {
    T::decoding(text) == Some(step)
}

/// Each step of `path` but the last admits the one after it as its successor.
pub open spec fn chained<T: Step>(path: Seq<T>) -> bool {
    forall|i: int|
        0 <= i < path.len() - 1 ==> (#[trigger] path[i]).admits(Ok(Some(path[i + 1])))
}

} // verus!
