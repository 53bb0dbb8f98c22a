//! FEN notation: what a text means as a position, when it means none, and
//! how a position is written down.
//!
//! A text is cut at white space into fields. The first field is the
//! placement: eight ranks, from the eighth down to the first, with `/`
//! between them; in a rank a digit from 1 to 8 stands for that many empty
//! squares and a letter for a piece. A rank may describe up to eight files;
//! the files that it does not describe are empty. The second field begins
//! with the side to move. Whatever follows is not read.

use vstd::prelude::*;
use crate::error::InvalidInput;
use crate::piece::{ChessPiece, PieceColor, letter_piece, letter_color};

pub mod laws;
pub mod read;
pub mod write;

verus! {

/// A position as a mathematical value: what stands on each of the 64
/// squares, and the side to move.
pub struct PositionView {
    pub squares: Seq<Option<ChessPiece>>,
    pub turn: PieceColor,
}

/// The characters that separate fields: those with the Unicode property
/// `White_Space`.
pub open spec fn is_whitespace(c: char) -> bool {
    let u = c as u32;
    ||| 0x09 <= u <= 0x0D
    ||| u == 0x20
    ||| u == 0x85
    ||| u == 0xA0
    ||| u == 0x1680
    ||| 0x2000 <= u <= 0x200A
    ||| u == 0x2028
    ||| u == 0x2029
    ||| u == 0x202F
    ||| u == 0x205F
    ||| u == 0x3000
}

/// The first place at or after `from` that holds no white space, or the
/// length of `text` if there is none.
pub open spec fn skip_whitespace(text: Seq<char>, from: int) -> int
    decreases text.len() - from,
{
    if 0 <= from < text.len() && is_whitespace(text[from]) {
        skip_whitespace(text, from + 1)
    } else {
        from
    }
}

/// The first place at or after `from` that holds white space, or the length
/// of `text` if there is none.
pub open spec fn skip_field(text: Seq<char>, from: int) -> int
    decreases text.len() - from,
{
    if 0 <= from < text.len() && !is_whitespace(text[from]) {
        skip_field(text, from + 1)
    } else {
        from
    }
}

/// Where the placement field begins.
pub open spec fn placement_start(text: Seq<char>) -> int {
    skip_whitespace(text, 0)
}

/// Where the placement field ends.
pub open spec fn placement_end(text: Seq<char>) -> int {
    skip_field(text, placement_start(text))
}

/// The placement field: the first run of characters that are no white
/// space. It is empty only where the text holds nothing else.
pub open spec fn placement(text: Seq<char>) -> Seq<char> {
    text.subrange(placement_start(text), placement_end(text))
}

/// Where the turn field begins; the length of the text if it has none.
pub open spec fn turn_start(text: Seq<char>) -> int {
    skip_whitespace(text, placement_end(text))
}

/// Whether `c` is a digit from 1 to 8.
pub open spec fn is_gap_digit(c: char) -> bool {
    '1' <= c <= '8'
}

/// The number that a digit stands for.
pub open spec fn digit_value(c: char) -> int {
    c as u32 - '0' as u32
}

/// Whether `c` may stand in a rank: a digit from 1 to 8 or a piece letter.
pub open spec fn is_rank_symbol(c: char) -> bool {
    is_gap_digit(c) || letter_piece(c) is Some
}

/// The squares that one character of a rank describes.
pub open spec fn symbol_squares(c: char) -> Seq<Option<ChessPiece>> {
    if is_gap_digit(c) {
        Seq::new(digit_value(c) as nat, |i: int| None)
    } else if letter_piece(c) is Some {
        seq![letter_piece(c)]
    } else {
        Seq::empty()
    }
}

/// The squares that a rank describes, from the first file on.
pub open spec fn rank_squares(rank: Seq<char>) -> Seq<Option<ChessPiece>>
    decreases rank.len(),
{
    if rank.len() == 0 {
        Seq::empty()
    } else {
        rank_squares(rank.drop_last()) + symbol_squares(rank.last())
    }
}

/// The ranks of a placement: what stands between its `/`.
pub open spec fn ranks(placement: Seq<char>) -> Seq<Seq<char>>
    decreases placement.len(),
{
    if placement.len() == 0 {
        seq![Seq::empty()]
    } else {
        let before = ranks(placement.drop_last());
        if placement.last() == '/' {
            before.push(Seq::empty())
        } else {
            before.update(before.len() - 1, before.last().push(placement.last()))
        }
    }
}

/// The board that ranks describe: square `8 * r + f` holds what rank `r`
/// says of file `f`, and nothing where the rank says nothing.
pub open spec fn grid(ranks: Seq<Seq<char>>) -> Seq<Option<ChessPiece>> {
    Seq::new(
        64,
        |k: int|
            if k / 8 < ranks.len() && k % 8 < rank_squares(ranks[k / 8]).len() {
                rank_squares(ranks[k / 8])[k % 8]
            } else {
                None
            },
    )
}

/// Whether some character of the placement is neither `/` nor fit for a
/// rank.
pub open spec fn has_unrecognized(placement: Seq<char>) -> bool {
    exists|k: int|
        0 <= k < placement.len() && placement[k] != '/' && !is_rank_symbol(#[trigger] placement[k])
}

/// Whether some rank describes more than eight files.
pub open spec fn has_overflow(ranks: Seq<Seq<char>>) -> bool {
    exists|r: int| 0 <= r < ranks.len() && (#[trigger] rank_squares(ranks[r])).len() > 8
}

/// What is wrong with a text, if anything. Of several faults the one that
/// is named first in [`InvalidInput`] is reported.
pub open spec fn fen_fault(text: Seq<char>) -> Option<InvalidInput> {
    let field = placement(text);
    if field.len() == 0 {
        Some(InvalidInput::MissingPlacement)
    } else if has_unrecognized(field) {
        Some(InvalidInput::UnrecognizedCharacter)
    } else if has_overflow(ranks(field)) {
        Some(InvalidInput::RankOverflow)
    } else if ranks(field).len() != 8 {
        Some(InvalidInput::RankCount)
    } else if turn_start(text) >= text.len() {
        Some(InvalidInput::MissingTurn)
    } else if letter_color(text[turn_start(text)]) is None {
        Some(InvalidInput::InvalidTurn)
    } else {
        None
    }
}

/// The meaning of a text: the position that it describes, or the reason
/// why it describes none.
pub open spec fn parse_fen(text: Seq<char>) -> Result<PositionView, InvalidInput> {
    match fen_fault(text) {
        Some(fault) => Err(fault),
        None => Ok(
            PositionView {
                squares: grid(ranks(placement(text))),
                turn: letter_color(text[turn_start(text)])->0,
            },
        ),
    }
}

} // verus!
