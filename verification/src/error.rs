//! The error value returned by every failing operation.

use vstd::prelude::*;

use crate::decimal::{decimal_text, decimal_value, law_decimal_reads_back, push_decimal};

verus! {

/// Error returned by SERAPH operations: a human-readable message.
#[derive(Debug)]
pub struct Error {
    message: String,
}

impl View for Error {
    type V = Seq<char>;

    closed spec fn view(&self) -> Seq<char> {
        self.message@
    }
}

/// The message used when the engine reports a failure without saying why.
pub open spec fn unknown_error_text() -> Seq<char> {
    "unknown error"@
}

/// The message of a buffer-size failure: `buffer too small: need N, have M`.
pub open spec fn buffer_too_small_text(need: nat, have: nat) -> Seq<char> {
    "buffer too small: need "@ + decimal_text(need) + ", have "@ + decimal_text(have)
}

/// The buffer-size message names both sizes so that they read back: after the
/// fixed opening comes the required size in digits, then `, have `, then the
/// buffer's size in digits, and nothing else.
pub proof fn law_buffer_message_reads_back(need: nat, have: nat)
    ensures
        ({
            let m = buffer_too_small_text(need, have);
            let opening = "buffer too small: need "@;
            let middle = ", have "@;
            let a = opening.len();
            let b = a + decimal_text(need).len();
            let c = b + middle.len();
            &&& m.subrange(0, a as int) == opening
            &&& decimal_value(m.subrange(a as int, b as int)) == need
            &&& m.subrange(b as int, c as int) == middle
            &&& decimal_value(m.subrange(c as int, m.len() as int)) == have
        }),
{
    law_decimal_reads_back(need);
    law_decimal_reads_back(have);
    let m = buffer_too_small_text(need, have);
    let opening = "buffer too small: need "@;
    let middle = ", have "@;
    let dn = decimal_text(need);
    let dh = decimal_text(have);
    let a = opening.len();
    let b = a + dn.len();
    let c = b + middle.len();
    assert(m.subrange(0, a as int) =~= opening);
    assert(m.subrange(a as int, b as int) =~= dn);
    assert(m.subrange(b as int, c as int) =~= middle);
    assert(m.subrange(c as int, m.len() as int) =~= dh);
}

impl Error {
    /// The error for the engine's last failure: its message when the engine
    /// gave one, `unknown error` when it gave none.
    pub fn from_engine(message: Option<String>) -> (e: Error)
        ensures
            e@ == match message {
                Some(m) => m@,
                None => unknown_error_text(),
            },
    {
        match message {
            Some(m) => Error { message: m },
            None => Error { message: String::from_str("unknown error") },
        }
    }

    /// The error for a caller-owned buffer of `have` slots where `need` were required.
    pub fn buffer_too_small(need: usize, have: usize) -> (e: Error)
        ensures
            e@ == buffer_too_small_text(need as nat, have as nat),
    {
        let mut message = String::from_str("buffer too small: need ");
        push_decimal(&mut message, need);
        message.append(", have ");
        push_decimal(&mut message, have);
        Error { message }
    }

    /// The message text (what `Display` prints).
    pub fn message(&self) -> (s: &str)
        ensures
            s@ == self@,
    {
        self.message.as_str()
    }

    /// The message as an owned string (what `to_string` gives).
    pub fn to_string(&self) -> (s: String)
        ensures
            s@ == self@,
    {
        self.message.clone()
    }
}

} // verus!
