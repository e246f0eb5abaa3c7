//! A store that keeps its record as JSON in one file.
//!
//! This file holds what such a store decides: where the file lies, what the
//! text of the file says, and which error answers a failed file operation.
//! The file operations themselves are the caller's.

use crate::failure::Failure;
use crate::record::state_rendering;
use crate::state::State;
use crate::step::Step;
use vstd::prelude::*;
use vstd::string::StringExecFns;

verus! {

/// Why the store could not do what was asked. Each variant holds the
/// failure beneath it.
#[derive(Debug)]
pub enum Error {
    /// The file, named second, could not be read.
    ReadFile(Failure, String),
    /// The file, named second, could not be written.
    WriteFile(Failure, String),
    /// The file, named second, could not be removed.
    RemoveFile(Failure, String),
    /// The text of the file, given second, is no record.
    Decode(Failure, String),
    /// The state, rendered second, could not be written as a record.
    Encode(Failure, String),
    /// The path of the executable names no file to derive a location from.
    ExeStem(Failure),
}

/// What reading the file of the store gave.
#[derive(Debug)]
pub enum FileRead {
    /// The text of the file.
    Text(String),
    /// There is no such file.
    Missing,
    /// The file could not be read.
    Failed(Failure),
}

/// Where `c` occurs last in `text`; -1 where it does not occur.
pub open spec fn last_position(text: Seq<char>, c: char) -> int
    decreases text.len(),
{
    if text.len() == 0 {
        -1
    } else if text.last() == c {
        text.len() - 1
    } else {
        last_position(text.drop_last(), c)
    }
}

/// The last position lies in the text, `c` stands there, and it does not
/// occur behind it.
pub proof fn lemma_last_position(text: Seq<char>, c: char)
    ensures
        -1 <= last_position(text, c) < text.len(),
        last_position(text, c) >= 0 ==> text[last_position(text, c)] == c,
        forall|i: int| last_position(text, c) < i < text.len() ==> text[i] != c,
    decreases text.len(),
{
    if text.len() > 0 && text.last() != c {
        lemma_last_position(text.drop_last(), c);
        assert forall|i: int| last_position(text, c) < i < text.len() implies text[i] != c by {
            if i < text.len() - 1 {
                assert(text.drop_last()[i] == text[i]);
            }
        }
    }
}

/// The file name of a path: what follows its last `/`.
pub open spec fn file_name(path: Seq<char>) -> Seq<char> {
    path.skip(last_position(path, '/') + 1)
}

/// Whether a path names a file: its file name is not empty and is neither
/// `.` nor `..`.
pub open spec fn names_file(path: Seq<char>) -> bool {
    let name = file_name(path);
    name.len() > 0 && name != seq!['.'] && name != seq!['.', '.']
}

/// Where the extension of the file name begins: at the last `.` of the
/// file name, unless the name begins with it; at the end of the path where
/// the name has no extension.
pub open spec fn stem_end(path: Seq<char>) -> int {
    let dot = last_position(path, '.');
    if dot > last_position(path, '/') + 1 {
        dot
    } else {
        path.len() as int
    }
}

/// The location that belongs to an executable by default: its path with
/// the extension of the file name replaced by `json`.
pub open spec fn default_location(exe: Seq<char>) -> Seq<char> {
    exe.take(stem_end(exe)) + ".json"@
}

/// The positions of the last `/` and of the last `.` in `text`.
fn last_separators(text: &str) -> (r: (usize, Option<usize>, Option<usize>))
    ensures
        r.0 == text@.len(),
        match r.1 {
            Some(i) => i == last_position(text@, '/'),
            None => last_position(text@, '/') == -1,
        },
        match r.2 {
            Some(i) => i == last_position(text@, '.'),
            None => last_position(text@, '.') == -1,
        },
{
    let total = text.unicode_len();
    let mut n: usize = 0;
    let mut slash: Option<usize> = None;
    let mut dot: Option<usize> = None;
    for c in it: text.chars()
        invariant
            n == it.index(),
            it.seq() == text@,
            total == text@.len(),
            match slash {
                Some(i) => i == last_position(text@.take(n as int), '/'),
                None => last_position(text@.take(n as int), '/') == -1,
            },
            match dot {
                Some(i) => i == last_position(text@.take(n as int), '.'),
                None => last_position(text@.take(n as int), '.') == -1,
            },
    {
        proof {
            assert(text@.take(n + 1).drop_last() == text@.take(n as int));
        }
        if c == '/' {
            slash = Some(n);
        }
        if c == '.' {
            dot = Some(n);
        }
        n = n + 1;
    }
    proof {
        assert(text@.take(n as int) == text@);
    }
    (total, slash, dot)
}

/// The path of an executable without the extension of its file name.
/// It fails where the path names no file.
fn exe_stem(exe: &str) -> (r: Result<String, Failure>)
    ensures
        match r {
            Ok(stem) => names_file(exe@) && stem@ == exe@.take(stem_end(exe@)),
            Err(e) => {
                &&& !names_file(exe@)
                &&& e.message@ == "no exe file stem"@
                &&& e.causes@.len() == 0
            },
        },
{
    let (total, slash, dot) = last_separators(exe);
    proof {
        lemma_last_position(exe@, '/');
        lemma_last_position(exe@, '.');
    }
    let start: usize = match slash {
        Some(i) => i + 1,
        None => 0,
    };
    let named = if total - start == 0 {
        false
    } else if total - start == 1 {
        exe.get_char(start) != '.'
    } else if total - start == 2 {
        exe.get_char(start) != '.' || exe.get_char(start + 1) != '.'
    } else {
        true
    };
    proof {
        let name = file_name(exe@);
        if name.len() == 1 {
            assert(name == seq![name[0]]);
        } else if name.len() == 2 {
            assert(name == seq![name[0], name[1]]);
        }
        assert(named == names_file(exe@));
    }
    if !named {
        return Err(Failure { message: String::from_str("no exe file stem"), causes: Vec::new() });
    }
    let end: usize = match dot {
        Some(i) => if i > start {
            i
        } else {
            total
        },
        None => total,
    };
    let stem = exe.substring_char(0, end);
    assert(exe@.subrange(0, end as int) == exe@.take(end as int));
    Ok(String::from_str(stem))
}

/// A store of one JSON file.
#[derive(Debug)]
pub struct JsonStore {
    path: String,
}

impl JsonStore {
    /// The path of the file, as text.
    pub closed spec fn location(&self) -> Seq<char> {
        self.path@
    }

    /// The path of the file.
    pub fn path(&self) -> (path: &str)
        ensures
            path@ == self.location(),
    {
        self.path.as_str()
    }

    /// A store at the location that belongs to the executable `exe` by
    /// default: the path of the executable with the extension of its file
    /// name replaced by `json`. It fails where the path names no file.
    pub fn new(exe: &str) -> (r: Result<JsonStore, Error>)
        ensures
            match r {
                Ok(store) => names_file(exe@) && store.location() == default_location(exe@),
                Err(e) => {
                    &&& !names_file(exe@)
                    &&& e matches Error::ExeStem(cause)
                    &&& cause.message@ == "no exe file stem"@
                    &&& cause.causes@.len() == 0
                },
            },
    {
        match exe_stem(exe) {
            Ok(stem) => {
                let mut path = stem;
                path.append(".json");
                Ok(JsonStore { path })
            },
            Err(e) => Err(Error::ExeStem(e)),
        }
    }

    /// The same store at another location.
    pub fn with_path(self, path: &str) -> (store: JsonStore)
        ensures
            store.location() == path@,
    {
        JsonStore { path: String::from_str(path) }
    }

    /// What a load gives, once the file was read: no checkpoint where there
    /// is no file or the file holds null; the checkpoint that the text of
    /// the file denotes; an error where the file could not be read or its
    /// text is no record.
    pub fn loaded<T: Step>(&self, read: FileRead) -> (r: Result<Option<State<T>>, Error>)
        ensures
            match read {
                FileRead::Missing => r matches Ok(None),
                FileRead::Failed(cause) => r matches Err(Error::ReadFile(e, path)) && e == cause
                    && path@ == self.location(),
                FileRead::Text(text) => match r {
                    Ok(found) => State::<T>::from_json_gives(text@, Ok(found)),
                    Err(Error::Decode(e, json)) => json@ == text@ && State::<T>::from_json_gives(
                        text@,
                        Err(e),
                    ),
                    Err(_) => false,
                },
            },
    {
        match read {
            FileRead::Missing => Ok(None),
            FileRead::Failed(cause) => Err(Error::ReadFile(cause, self.path.clone())),
            FileRead::Text(text) => match State::from_json(text.as_str()) {
                Ok(found) => Ok(found),
                Err(e) => Err(Error::Decode(e, text)),
            },
        }
    }

    /// The text to write for a save: the record of the state. It fails
    /// where the state has no record to write, and nowhere else.
    pub fn encoded<T: Step>(&self, state: &State<T>) -> (r: Result<String, Error>)
        ensures
            match r {
                Ok(text) => state.to_json_gives(Ok(text)),
                Err(Error::Encode(e, rendering)) => state.to_json_gives(Err(e)) && rendering@
                    == state_rendering(state@.step.rendering(), state@.error),
                Err(_) => false,
            },
    {
        match state.to_json() {
            Ok(text) => Ok(text),
            Err(e) => Err(Error::Encode(e, state.describe())),
        }
    }

    /// What a save gives, once the file was written.
    pub fn written(&self, outcome: Result<(), Failure>) -> (r: Result<(), Error>)
        ensures
            match outcome {
                Ok(()) => r is Ok,
                Err(cause) => r matches Err(Error::WriteFile(e, path)) && e == cause && path@
                    == self.location(),
            },
    {
        match outcome {
            Ok(()) => Ok(()),
            Err(cause) => Err(Error::WriteFile(cause, self.path.clone())),
        }
    }

    /// What a clean gives, once the file was removed. That there was no
    /// file to remove is a failure like any other.
    pub fn removed(&self, outcome: Result<(), Failure>) -> (r: Result<(), Error>)
        ensures
            match outcome {
                Ok(()) => r is Ok,
                Err(cause) => r matches Err(Error::RemoveFile(e, path)) && e == cause && path@
                    == self.location(),
            },
    {
        match outcome {
            Ok(()) => Ok(()),
            Err(cause) => Err(Error::RemoveFile(cause, self.path.clone())),
        }
    }
}

} // verus!
