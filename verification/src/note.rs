//! Note-content resolution: a note is keyed by its date's canonical text,
//! a missing note reads as empty, and a persisted note must end with
//! exactly one trailing newline, which is stripped before use.

use vstd::prelude::*;
use crate::date::{Date, date_str};

verus! {

/// What the storage layer found for a note key: the raw persisted text,
/// no entry at all, or an input/output failure other than absence.
#[derive(Debug)]
pub enum ReadOutcome {
    Found(String),
    Absent,
    Failure,
}

/// A server-side fault while resolving note content: an input/output
/// failure, or persisted text that breaks the trailing-newline invariant.
/// Both abort the request with status 500; the invariant break is answered
/// gracefully rather than by stopping the process, so that the service
/// never emits malformed content and never dies on corrupt data.
#[derive(Clone, Copy, Debug, PartialEq, Eq, Structural)]
pub enum NoteError {
    Io,
    Corrupt,
}

/// The logical content a read outcome resolves to: empty for an absent
/// note, the persisted text without its trailing newline otherwise, and
/// nothing for a failed read or text that breaks the newline invariant.
pub open spec fn spec_note_content(read: ReadOutcome) -> Option<Seq<char>> {
    match read {
        ReadOutcome::Absent => Some(Seq::<char>::empty()),
        ReadOutcome::Failure => None,
        ReadOutcome::Found(s) => if s@.len() > 0 && s@.last() == '\n' {
            Some(s@.drop_last())
        } else {
            None
        },
    }
}

/// The storage key of the note for `d`: a path under `data/notes/` named
/// by the canonical date text.
pub fn note_key(d: &Date) -> (r: String)
    requires
        d.valid(),
    ensures
        r@ == "data/notes/"@ + date_str(d.year as int, d.month as int, d.day as int),
{
    let mut s = String::from_str("data/notes/");
    let t = d.format();
    s.append(t.as_str());
    s
}

/// The logical content of a note, from what the storage layer found.
/// Absence is not an error: a never-written date is an empty note. Found
/// text must end with exactly one trailing newline, which is not part of
/// the logical content and is stripped; text without it is corrupt.
pub fn note_text(read: ReadOutcome) -> (r: Result<String, NoteError>)
    ensures
        match read {
            ReadOutcome::Absent => r matches Ok(t) && t@ == Seq::<char>::empty(),
            ReadOutcome::Failure => r == Err::<String, NoteError>(NoteError::Io),
            ReadOutcome::Found(s) => {
                if s@.len() > 0 && s@.last() == '\n' {
                    r matches Ok(t) && t@ == s@.drop_last()
                } else {
                    r == Err::<String, NoteError>(NoteError::Corrupt)
                }
            },
        },
{
    match read {
        ReadOutcome::Absent => Ok(String::new()),
        ReadOutcome::Failure => Err(NoteError::Io),
        ReadOutcome::Found(s) => {
            let n = s.as_str().unicode_len();
            if n == 0 {
                return Err(NoteError::Corrupt);
            }
            if s.as_str().get_char(n - 1) != '\n' {
                return Err(NoteError::Corrupt);
            }
            let t = s.as_str().substring_char(0, n - 1);
            proof {
                assert(t@ =~= s@.drop_last());
            }
            Ok(t.to_owned())
        },
    }
}

} // verus!
