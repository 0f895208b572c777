//! The errors of the library. Ending a session by cancelling, by a signal or
//! with an empty answer is not an error: those are results of the chooser.
use vstd::prelude::*;

verus! {

/// Why an operation of the library failed.
#[derive(Debug)]
pub enum Error {
    /// A line of the history listing that does not have the shape
    /// `<digits>\t<value>`.
    InvalidEntry { line: String },
    /// The chooser printed something other than an index.
    InvalidIndex { output: String },
    /// The chooser exited with a code that no key binding has.
    UnknownAction { code: i32 },
    /// The chooser answered with an index that names no entry.
    NoSuchEntry { index: usize },
}

} // verus!
