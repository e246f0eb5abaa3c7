//! Step failures and their rendering as text.

use vstd::prelude::*;
use vstd::string::StringExecFns;

verus! {

/// Why a step failed: the top-level message and the messages of its nested
/// causes, outermost first.
#[derive(Clone, Debug, PartialEq, Eq)]
pub struct Failure {
    pub message: String,
    pub causes: Vec<String>,
}

/// The text of each string of `strings`, in order.
pub open spec fn texts(strings: Seq<String>) -> Seq<Seq<char>> {
    strings.map_values(|s: String| s@)
}

/// One line per cause: a newline, a tab and the cause's message.
pub open spec fn cause_lines(causes: Seq<Seq<char>>) -> Seq<char>
    decreases causes.len(),
{
    if causes.len() == 0 {
        Seq::empty()
    } else {
        cause_lines(causes.drop_last()) + "\n\t"@ + causes.last()
    }
}

/// A failure message followed by its causal chain. Without causes it is the
/// message alone; with causes the message is followed by a `Caused by:` line
/// and one indented line per cause.
pub open spec fn chain_text(message: Seq<char>, causes: Seq<Seq<char>>) -> Seq<char> {
    if causes.len() == 0 {
        message
    } else {
        message + "\nCaused by:"@ + cause_lines(causes)
    }
}

impl Failure {
    /// The rendering of this failure by [`error_chain`].
    pub open spec fn chain(&self) -> Seq<char> {
        chain_text(self.message@, texts(self.causes@))
    }
}

/// Formats a failure together with its chain of causes.
pub fn error_chain(e: Failure) -> (s: String)
    ensures
        s@ == e.chain(),
{
    let mut s = e.message.clone();
    let n = e.causes.len();
    if n > 0 {
        s.append("\nCaused by:");
    }
    let mut i: usize = 0;
    while i < n
        invariant
            i <= n,
            n == e.causes.len(),
            n > 0 ==> s@ == e.message@ + "\nCaused by:"@ + cause_lines(
                texts(e.causes@).take(i as int),
            ),
            n == 0 ==> s@ == e.message@,
        decreases n - i,
    {
        s.append("\n\t");
        s.append(e.causes[i].as_str());
        proof {
            let all = texts(e.causes@);
            assert(all.take(i + 1).drop_last() == all.take(i as int));
            assert(all.take(i + 1).last() == e.causes[i as int]@);
        }
        i += 1;
    }
    proof {
        assert(texts(e.causes@).take(n as int) == texts(e.causes@));
    }
    s
}

} // verus!
