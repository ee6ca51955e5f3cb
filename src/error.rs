//! The ways in which reading a source can fail.
use vstd::prelude::*;

verus! {

/// A failure while opening, reading or quoting a source.
#[derive(Debug, Clone, PartialEq, Eq)]
pub enum Error {
    /// The characters of the named source were already taken by an earlier stream.
    SourceConsumed(String),
    /// Reading from the underlying byte source failed, for the reason given.
    Io(String),
    /// The source does not hold the text that the span covers.
    ExcerptUnavailable,
    /// The position counters are at their limit and cannot move past another
    /// character.
    PositionOverflow,
}

} // verus!
