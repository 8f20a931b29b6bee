//! What can be wrong with the bytes of a packet.

use vstd::prelude::*;

verus! {

/// Why bytes could not be read.
#[derive(Clone, Copy, Debug, PartialEq, Eq, Structural)]
pub enum ParseError {
    /// The bytes end before the value does.
    UnexpectedEnd,
    /// A length is not given in one to eight bytes.
    InvalidLength,
    /// What should be text is not valid UTF-8.
    InvalidUtf8,
}

} // verus!
