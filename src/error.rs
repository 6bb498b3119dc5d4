use vstd::prelude::*;

verus! {

/// The failures of the library's validating operations.
#[derive(Clone, Copy, Debug, PartialEq, Eq, Structural)]
pub enum HexError {
    /// A letter sequence was empty, or a digit lay outside A to Z.
    InvalidNumeral,
    /// A hexagon was asked for with a side length that is not positive.
    InvalidGeometry,
}

} // verus!
