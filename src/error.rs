use vstd::prelude::*;

verus! {

/// Error happening when parsing an invalid UUID.
#[derive(Debug, PartialEq, Eq, Clone, Copy, Structural)]
pub enum ParseError {
    /// Input has invalid length: holds the actual length.
    InvalidLength(usize),
    /// A separator is missing: holds the number of the group (1 to 4) that it ends.
    InvalidGroup(u8),
    /// Group has invalid length: holds the group number and the actual length.
    InvalidGroupLen(u8, usize),
    /// Invalid character: holds the character byte and its position, from 0.
    InvalidByte(u8, usize),
}

} // verus!
