use vstd::prelude::*;

verus! {

/// Why a conversion failed.
#[derive(Debug, PartialEq)]
pub enum Error {
    /// A 64-bit integer outside the range that a double holds exactly.
    UnsafeInteger(i128),
    /// A failure reported with a message of its own.
    Custom(String),
}

} // verus!
