//! The durable record of a checkpoint: a JSON object with the members
//! `state`, the current step in its own encoding, and `error`, the text of
//! the pending failure or null.

use crate::failure::Failure;
use crate::json::{
    compact, is_null, json_compact, json_of, json_parsed, json_pretty, member, members, parse,
    pretty, set_member, text_of, text_or_null, Json,
};
use crate::state::State;
use crate::step::Step;
use vstd::prelude::*;
use vstd::string::StringExecFns;

verus! {

/// The record of a checkpoint whose step is encoded as `state`.
pub open spec fn record(state: Json, error: Option<Seq<char>>) -> Json {
    Json::Object(
        Map::empty().insert("state"@, state).insert(
            "error"@,
            match error {
                Some(text) => Json::Text(text),
                None => Json::Null,
            },
        ),
    )
}

/// What a JSON value says as a record.
pub ghost enum Reading {
    /// Null: the store holds no checkpoint.
    Nothing,
    /// A checkpoint: the encoded step, and the pending failure if any.
    Record { state: Json, error: Option<Seq<char>> },
    /// No record; the text says what is wrong.
    Malformed(Seq<char>),
}

/// Reads a JSON value as a record. Null stands for no checkpoint. A value
/// with a member `state` is a checkpoint; its member `error` may be absent
/// or null, for no pending failure, or a string. Other members are ignored.
pub open spec fn reading(json: Json) -> Reading {
    if json is Null {
        Reading::Nothing
    } else if !members(json).contains_key("state"@) {
        Reading::Malformed("the record has no member `state`"@)
    } else if !members(json).contains_key("error"@) || members(json)["error"@] is Null {
        Reading::Record { state: members(json)["state"@], error: None }
    } else {
        match members(json)["error"@] {
            Json::Text(text) => Reading::Record { state: members(json)["state"@], error: Some(text) },
            _ => Reading::Malformed("the member `error` is neither a string nor null"@),
        }
    }
}

/// What the `Debug` formatting of std gives for a text: the text between
/// double quotes, with what would not read as written, such as a quote, a
/// line feed or a tab, put as an escape.
pub uninterp spec fn debug_text(text: Seq<char>) -> Seq<char>;

/// Formats a text with `{:?}`, the `Debug` formatting of `str` in std. What
/// it gives depends on the text alone.
#[verifier::external_body]
fn quoted(text: &str) -> (r: String)
    ensures
        r@ == debug_text(text@),
{
    format!("{:?}", text)
}

/// The rendering of a checkpoint in messages: the step as it renders
/// itself, and the pending failure as `Debug` formats it.
pub open spec fn state_rendering(step: Seq<char>, error: Option<Seq<char>>) -> Seq<char> {
    "State { step: "@ + step + ", error: "@ + match error {
        Some(text) => "Some("@ + debug_text(text) + ")"@,
        None => "None"@,
    } + " }"@
}

/// A failure of the library's own finding, without causes.
fn failure(message: &str) -> (r: Failure)
    ensures
        r.message@ == message@,
        r.causes@.len() == 0,
{
    Failure { message: String::from_str(message), causes: Vec::new() }
}

impl<T: Step> State<T> {
    /// The text of the record of this state: the print of the object that
    /// holds the encoded step and the pending failure. There is none where
    /// the step cannot be written, where its encoding is not JSON, and where
    /// the object cannot be printed.
    pub open spec fn json_text(&self) -> Option<Seq<char>> {
        match self@.step.encoding() {
            Some(encoding) => match json_parsed(encoding) {
                Some(state) => json_pretty(record(state, self@.error)),
                None => None,
            },
            None => None,
        }
    }

    /// What `to_json` gives for this state: the text of its record where it
    /// has one, and a failure where it has none.
    pub open spec fn to_json_gives(&self, r: Result<String, Failure>) -> bool {
        match self.json_text() {
            Some(text) => r matches Ok(written) && written@ == text,
            None => r is Err,
        }
    }

    /// The step that the member `state` of a record stands for: the step
    /// that reads from the print of the member on one line. There is none
    /// where the member cannot be printed or its print is not read.
    pub open spec fn step_of(state: Json) -> Option<T> {
        match json_compact(state) {
            Some(encoding) => T::decoding(encoding),
            None => None,
        }
    }

    /// What `from_value` gives for a JSON value: no state for null, the
    /// state that the record denotes, and a failure where the value is no
    /// record or its step is not read. For a value that is no record the
    /// failure says what is wrong.
    pub open spec fn from_value_gives(json: Json, r: Result<Option<State<T>>, Failure>) -> bool {
        match reading(json) {
            Reading::Nothing => r matches Ok(None),
            Reading::Malformed(message) => {
                &&& r matches Err(e)
                &&& e.message@ == message
                &&& e.causes@.len() == 0
            },
            Reading::Record { state, error } => match Self::step_of(state) {
                Some(step) => {
                    &&& r matches Ok(Some(read))
                    &&& read@.step == step
                    &&& read@.error == error
                },
                None => r is Err,
            },
        }
    }

    /// What `from_json` gives for a text: a failure where the text is not
    /// JSON, and else what `from_value` gives for the value that it denotes.
    pub open spec fn from_json_gives(text: Seq<char>, r: Result<Option<State<T>>, Failure>) -> bool {
        match json_parsed(text) {
            None => r is Err,
            Some(json) => Self::from_value_gives(json, r),
        }
    }

    /// Renders the state for a message: the step as it describes itself, and
    /// the pending failure.
    pub fn describe(&self) -> (r: String)
        ensures
            r@ == state_rendering(self@.step.rendering(), self@.error),
    {
        let mut r = String::from_str("State { step: ");
        let step = self.step().describe();
        r.append(step.as_str());
        r.append(", error: ");
        match self.error() {
            Some(text) => {
                let text = quoted(text.as_str());
                r.append("Some(");
                r.append(text.as_str());
                r.append(")");
            },
            None => {
                r.append("None");
            },
        }
        r.append(" }");
        r
    }

    /// Writes the state as its record. The step must encode itself as JSON.
    ///
    /// It fails where the step cannot be encoded, where its encoding is not
    /// JSON, or where the record cannot be printed, and nowhere else.
    pub fn to_json(&self) -> (r: Result<String, Failure>)
        ensures
            self.to_json_gives(r),
    {
        let encoding = match self.step().encode() {
            Ok(encoding) => encoding,
            Err(e) => {
                return Err(e);
            },
        };
        let state = match parse(encoding.as_str()) {
            Ok(state) => state,
            Err(e) => {
                return Err(e);
            },
        };
        let error = match self.error() {
            Some(text) => text_or_null(Some(text.as_str())),
            None => text_or_null(None),
        };
        let mut object = text_or_null(None);
        set_member(&mut object, "state", state);
        set_member(&mut object, "error", error);
        pretty(&object)
    }

    /// Reads a state from the text of a record; `None` where the text is
    /// null.
    ///
    /// It fails where the text is not JSON, where it is not a record, and
    /// where the step cannot be printed or does not decode, and nowhere
    /// else.
    pub fn from_json(text: &str) -> (r: Result<Option<State<T>>, Failure>)
        ensures
            Self::from_json_gives(text@, r),
    {
        match parse(text) {
            Ok(value) => Self::from_value(&value),
            Err(e) => Err(e),
        }
    }

    /// Reads a state from a JSON value; `None` where the value is null.
    ///
    /// It fails where the value is not a record, and where the step cannot
    /// be printed or does not decode, and nowhere else.
    pub fn from_value(value: &serde_json::Value) -> (r: Result<Option<State<T>>, Failure>)
        ensures
            Self::from_value_gives(json_of(*value), r),
    {
        if is_null(value) {
            return Ok(None);
        }
        let state = match member(value, "state") {
            Some(state) => state,
            None => {
                return Err(failure("the record has no member `state`"));
            },
        };
        let error = match member(value, "error") {
            None => None,
            Some(error) => {
                if is_null(&error) {
                    None
                } else {
                    match text_of(&error) {
                        Some(text) => Some(text),
                        None => {
                            return Err(
                                failure("the member `error` is neither a string nor null"),
                            );
                        },
                    }
                }
            },
        };
        let encoding = match compact(&state) {
            Ok(encoding) => encoding,
            Err(e) => {
                return Err(e);
            },
        };
        match T::decode(encoding.as_str()) {
            Ok(step) => Ok(Some(State::new(step, error))),
            Err(e) => Err(e),
        }
    }
}

} // verus!
