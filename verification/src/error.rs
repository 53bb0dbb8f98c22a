//! The one way in which building a position can fail.

use vstd::prelude::*;

verus! {

/// Why a text was refused as FEN notation. Nothing is built from a text
/// that is refused.
#[derive(PartialEq, Eq, Clone, Copy, Debug, Structural)]
pub enum InvalidInput {
    /// The text holds no field at all.
    MissingPlacement,
    /// The placement field holds a character that is neither `/`, a digit
    /// from 1 to 8, nor one of the twelve piece letters.
    UnrecognizedCharacter,
    /// A rank of the placement field describes more than eight files.
    RankOverflow,
    /// The placement field does not hold eight ranks.
    RankCount,
    /// The text ends after the placement field.
    MissingTurn,
    /// The field after the placement does not begin with `w` or `b`, in
    /// either case.
    InvalidTurn,
}

} // verus!
