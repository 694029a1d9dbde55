use vstd::prelude::*;

verus! {

/// The ways in which a conversion of this crate can fail.
#[derive(Debug, Clone, PartialEq, Eq)]
pub enum CodecError {
    /// A condition mask of 16 or more.
    MaskOutOfRange(u16),
    /// A string that names no condition.
    UnknownMnemonic(String),
    /// A word in a group of the encoding that has no classification rule yet.
    Unclassified(u16),
    /// A variant that has no canonical encoding yet.
    NotEncodable,
}

} // verus!
