//! Pieces: their colour and kind, the letters that stand for them in FEN
//! notation, and their place on the sprite sheet.

use vstd::prelude::*;
use vstd::std_specs::convert::FromSpecImpl;
use vstd::std_specs::convert::TryFromSpecImpl;
use crate::error::InvalidInput;

verus! {

/// One of the two sides.
#[derive(PartialEq, Eq, Clone, Copy, Debug, Structural)]
pub enum PieceColor {
    White,
    Black,
}

/// The kind of a piece.
#[derive(PartialEq, Eq, Clone, Copy, Debug, Structural)]
pub enum PieceVariant {
    King,
    Queen,
    Rook,
    Bishop,
    Knight,
    Pawn,
}

/// A piece: a value, equal to another when colour and kind agree.
#[derive(PartialEq, Eq, Clone, Copy, Debug, Structural)]
pub struct ChessPiece {
    pub color: PieceColor,
    pub variant: PieceVariant,
}

/// The lower-case letter of a kind.
pub open spec fn variant_letter(variant: PieceVariant) -> char {
    match variant {
        PieceVariant::King => 'k',
        PieceVariant::Queen => 'q',
        PieceVariant::Rook => 'r',
        PieceVariant::Bishop => 'b',
        PieceVariant::Knight => 'n',
        PieceVariant::Pawn => 'p',
    }
}

/// The kind that a lower-case letter stands for.
pub open spec fn letter_variant(c: char) -> Option<PieceVariant> {
    if c == 'k' {
        Some(PieceVariant::King)
    } else if c == 'q' {
        Some(PieceVariant::Queen)
    } else if c == 'r' {
        Some(PieceVariant::Rook)
    } else if c == 'b' {
        Some(PieceVariant::Bishop)
    } else if c == 'n' {
        Some(PieceVariant::Knight)
    } else if c == 'p' {
        Some(PieceVariant::Pawn)
    } else {
        None
    }
}

/// Whether `c` is one of the capitals `A` to `Z`.
pub open spec fn is_ascii_capital(c: char) -> bool {
    'A' <= c <= 'Z'
}

/// The small letter of a capital from `A` to `Z`; any other character is
/// left as it is.
pub open spec fn ascii_lower(c: char) -> char {
    if is_ascii_capital(c) {
        ((c as u32) + 32) as char
    } else {
        c
    }
}

/// The capital of a small letter from `a` to `z`; any other character is
/// left as it is.
pub open spec fn ascii_upper(c: char) -> char {
    if 'a' <= c <= 'z' {
        ((c as u32) - 32) as char
    } else {
        c
    }
}

/// The letter of a piece: that of its kind, as a capital for White.
pub open spec fn piece_letter(piece: ChessPiece) -> char {
    match piece.color {
        PieceColor::White => ascii_upper(variant_letter(piece.variant)),
        PieceColor::Black => variant_letter(piece.variant),
    }
}

/// The piece that a letter stands for: one of `kqrbnp` for Black, one of
/// `KQRBNP` for White, and no other character for any piece.
pub open spec fn letter_piece(c: char) -> Option<ChessPiece> {
    match letter_variant(ascii_lower(c)) {
        Some(variant) => Some(
            ChessPiece {
                color: if is_ascii_capital(c) {
                    PieceColor::White
                } else {
                    PieceColor::Black
                },
                variant,
            },
        ),
        None => None,
    }
}

/// The side that a letter of the turn field stands for: `w` or `b`, in
/// either case.
pub open spec fn letter_color(c: char) -> Option<PieceColor> {
    if ascii_lower(c) == 'w' {
        Some(PieceColor::White)
    } else if ascii_lower(c) == 'b' {
        Some(PieceColor::Black)
    } else {
        None
    }
}

/// The letter of a side in the turn field.
pub open spec fn color_letter(color: PieceColor) -> char {
    match color {
        PieceColor::White => 'w',
        PieceColor::Black => 'b',
    }
}

/// The place of a piece on the sprite sheet: king, queen, bishop, knight,
/// rook, pawn from 0 to 5 for White, and six further on for Black.
pub open spec fn sprite_index(piece: ChessPiece) -> int {
    let kind: int = match piece.variant {
        PieceVariant::King => 0,
        PieceVariant::Queen => 1,
        PieceVariant::Bishop => 2,
        PieceVariant::Knight => 3,
        PieceVariant::Rook => 4,
        PieceVariant::Pawn => 5,
    };
    match piece.color {
        PieceColor::White => kind,
        PieceColor::Black => kind + 6,
    }
}

impl PieceColor {
    /// The other side.
    pub open spec fn spec_opposite(self) -> PieceColor {
        match self {
            PieceColor::White => PieceColor::Black,
            PieceColor::Black => PieceColor::White,
        }
    }

    /// The other side.
    #[verifier::when_used_as_spec(spec_opposite)]
    pub fn opposite(self) -> (other: PieceColor)
        ensures
            other == self.spec_opposite(),
    {
        match self {
            PieceColor::White => PieceColor::Black,
            PieceColor::Black => PieceColor::White,
        }
    }
}

impl Default for PieceColor {
    fn default() -> (color: PieceColor)
        ensures
            color == PieceColor::White,
    {
        PieceColor::White
    }
}

impl TryFrom<char> for PieceColor {
    type Error = InvalidInput;

    /// Reads the letter of the turn field: the side for `w` or `b` in
    /// either case, and for any other character the fault of an invalid
    /// turn.
    fn try_from(c: char) -> (r: Result<PieceColor, InvalidInput>)
        ensures
            r == match letter_color(c) {
                Some(color) => Ok::<PieceColor, InvalidInput>(color),
                None => Err(InvalidInput::InvalidTurn),
            },
    {
        if c == 'w' || c == 'W' {
            Ok(PieceColor::White)
        } else if c == 'b' || c == 'B' {
            Ok(PieceColor::Black)
        } else {
            Err(InvalidInput::InvalidTurn)
        }
    }
}

impl TryFromSpecImpl<char> for PieceColor {
    open spec fn obeys_try_from_spec() -> bool {
        true
    }

    open spec fn try_from_spec(c: char) -> Result<PieceColor, InvalidInput> {
        match letter_color(c) {
            Some(color) => Ok(color),
            None => Err(InvalidInput::InvalidTurn),
        }
    }
}

impl From<ChessPiece> for char {
    /// The letter of the piece.
    fn from(piece: ChessPiece) -> (c: char)
        ensures
            c == piece_letter(piece),
    {
        match (piece.color, piece.variant) {
            (PieceColor::White, PieceVariant::King) => 'K',
            (PieceColor::White, PieceVariant::Queen) => 'Q',
            (PieceColor::White, PieceVariant::Rook) => 'R',
            (PieceColor::White, PieceVariant::Bishop) => 'B',
            (PieceColor::White, PieceVariant::Knight) => 'N',
            (PieceColor::White, PieceVariant::Pawn) => 'P',
            (PieceColor::Black, PieceVariant::King) => 'k',
            (PieceColor::Black, PieceVariant::Queen) => 'q',
            (PieceColor::Black, PieceVariant::Rook) => 'r',
            (PieceColor::Black, PieceVariant::Bishop) => 'b',
            (PieceColor::Black, PieceVariant::Knight) => 'n',
            (PieceColor::Black, PieceVariant::Pawn) => 'p',
        }
    }
}

impl FromSpecImpl<ChessPiece> for char {
    open spec fn obeys_from_spec() -> bool {
        true
    }

    open spec fn from_spec(piece: ChessPiece) -> char {
        piece_letter(piece)
    }
}

impl From<ChessPiece> for usize {
    /// The place of the piece on the sprite sheet.
    fn from(piece: ChessPiece) -> (index: usize)
        ensures
            index == sprite_index(piece),
    {
        let kind: usize = match piece.variant {
            PieceVariant::King => 0,
            PieceVariant::Queen => 1,
            PieceVariant::Bishop => 2,
            PieceVariant::Knight => 3,
            PieceVariant::Rook => 4,
            PieceVariant::Pawn => 5,
        };
        match piece.color {
            PieceColor::White => kind,
            PieceColor::Black => kind + 6,
        }
    }
}

impl FromSpecImpl<ChessPiece> for usize {
    open spec fn obeys_from_spec() -> bool {
        true
    }

    open spec fn from_spec(piece: ChessPiece) -> usize {
        sprite_index(piece) as usize
    }
}

impl TryFrom<char> for ChessPiece {
    type Error = InvalidInput;

    /// Reads a piece letter: the piece for one of the twelve letters, and
    /// for any other character the fault of an unrecognized one.
    fn try_from(c: char) -> (r: Result<ChessPiece, InvalidInput>)
        ensures
            r == match letter_piece(c) {
                Some(piece) => Ok::<ChessPiece, InvalidInput>(piece),
                None => Err(InvalidInput::UnrecognizedCharacter),
            },
    {
        if c == 'K' {
            Ok(ChessPiece { color: PieceColor::White, variant: PieceVariant::King })
        } else if c == 'Q' {
            Ok(ChessPiece { color: PieceColor::White, variant: PieceVariant::Queen })
        } else if c == 'R' {
            Ok(ChessPiece { color: PieceColor::White, variant: PieceVariant::Rook })
        } else if c == 'B' {
            Ok(ChessPiece { color: PieceColor::White, variant: PieceVariant::Bishop })
        } else if c == 'N' {
            Ok(ChessPiece { color: PieceColor::White, variant: PieceVariant::Knight })
        } else if c == 'P' {
            Ok(ChessPiece { color: PieceColor::White, variant: PieceVariant::Pawn })
        } else if c == 'k' {
            Ok(ChessPiece { color: PieceColor::Black, variant: PieceVariant::King })
        } else if c == 'q' {
            Ok(ChessPiece { color: PieceColor::Black, variant: PieceVariant::Queen })
        } else if c == 'r' {
            Ok(ChessPiece { color: PieceColor::Black, variant: PieceVariant::Rook })
        } else if c == 'b' {
            Ok(ChessPiece { color: PieceColor::Black, variant: PieceVariant::Bishop })
        } else if c == 'n' {
            Ok(ChessPiece { color: PieceColor::Black, variant: PieceVariant::Knight })
        } else if c == 'p' {
            Ok(ChessPiece { color: PieceColor::Black, variant: PieceVariant::Pawn })
        } else {
            Err(InvalidInput::UnrecognizedCharacter)
        }
    }
}

impl TryFromSpecImpl<char> for ChessPiece {
    open spec fn obeys_try_from_spec() -> bool {
        true
    }

    open spec fn try_from_spec(c: char) -> Result<ChessPiece, InvalidInput> {
        match letter_piece(c) {
            Some(piece) => Ok(piece),
            None => Err(InvalidInput::UnrecognizedCharacter),
        }
    }
}

} // verus!
