//! Positions: 64 squares and the side to move.
//!
//! Square 0 is the first square that FEN notation names, the queen's rook
//! corner of Black; square 63 is the king's rook corner of White.

use vstd::prelude::*;
use vstd::pervasive::unreached;
use crate::error::InvalidInput;
use crate::fen::{PositionView, parse_fen, placement};
use crate::fen::laws::{
    lemma_fen_text_parses, lemma_parse_counts, lemma_rank_text_full, lemma_rank_text_empty,
    occupied, piece_letters,
};
use crate::fen::read::{chars_of, read_fields};
use crate::fen::write::{fen_text, placement_text, rank_of, write_fen};
use crate::piece::{ChessPiece, PieceColor, PieceVariant, piece_letter};

verus! {

/// A position read from FEN notation.
#[derive(Clone, Copy, Debug, PartialEq, Eq)]
pub struct ChessPosition {
    pub pieces: [Option<ChessPiece>; 64],
    pub _turn: PieceColor,
}

/// The position of a board in play: the one record that a move changes.
#[derive(Clone, Copy, Debug, PartialEq, Eq)]
pub struct ChessBoardPosition {
    pub pieces: [Option<ChessPiece>; 64],
    pub turn: PieceColor,
}

impl View for ChessPosition {
    type V = PositionView;

    open spec fn view(&self) -> PositionView {
        PositionView { squares: self.pieces@, turn: self._turn }
    }
}

impl View for ChessBoardPosition {
    type V = PositionView;

    open spec fn view(&self) -> PositionView {
        PositionView { squares: self.pieces@, turn: self.turn }
    }
}

impl ChessPosition {
    /// The starting position with Black to move.
    pub const DEFAULT_BLACK_FEN: &'static str =
        "rnbqkbnr/pppppppp/8/8/8/8/PPPPPPPP/RNBQKBNR b KQkq - 0 1";

    /// The starting position with White to move.
    pub const DEFAULT_WHITE_FEN: &'static str =
        "rnbqkbnr/pppppppp/8/8/8/8/PPPPPPPP/RNBQKBNR w KQkq - 0 1";

    /// Reads a position from FEN notation. The result is the one that
    /// [`parse_fen`] gives for the characters of `fen`: the position where
    /// the text is well formed, and else the reason why it is not.
    pub fn from_fen(fen: &str) -> (r: Result<ChessPosition, InvalidInput>)
        ensures
            parse_fen(fen@) == match r {
                Ok(position) => Ok::<PositionView, InvalidInput>(position@),
                Err(fault) => Err(fault),
            },
            r matches Ok(position) ==> occupied(position@.squares) == piece_letters(
                placement(fen@),
            ),
    {
        let text = chars_of(fen);
        proof {
            lemma_parse_counts(fen@);
        }
        match read_fields(&text) {
            Ok((pieces, turn)) => Ok(ChessPosition { pieces, _turn: turn }),
            Err(fault) => Err(fault),
        }
    }

    /// Writes the position in FEN notation: the placement and the side to
    /// move. Reading the text gives the position back.
    pub fn to_fen(&self) -> (fen: String)
        ensures
            fen@ == fen_text(self@),
            parse_fen(fen@) == Ok::<PositionView, InvalidInput>(self@),
    {
        proof {
            lemma_fen_text_parses(self@, Seq::empty());
            assert(fen_text(self@) + Seq::<char>::empty() == fen_text(self@));
        }
        write_fen(&self.pieces, self._turn)
    }

    /// Draws the position as text: a border line, then for each rank from
    /// the last square back to the first a line of its squares and another
    /// border line.
    pub fn to_string(&self) -> (text: String)
        ensures
            text@ == board_text(self.pieces@),
    {
        write_board(&self.pieces)
    }
}

impl Default for ChessBoardPosition {
    /// The starting position, with White to move.
    fn default() -> (position: ChessBoardPosition)
        ensures
            position@ == starting_position(PieceColor::White),
    {
        proof {
            lemma_default_fen();
        }
        match ChessBoardPosition::from_fen(ChessBoardPosition::DEFAULT_WHITE_FEN) {
            Ok(position) => position,
            Err(_) => unreached(),
        }
    }
}

impl ChessBoardPosition {
    /// The starting position with Black to move.
    pub const DEFAULT_BLACK_FEN: &'static str =
        "rnbqkbnr/pppppppp/8/8/8/8/PPPPPPPP/RNBQKBNR b KQkq - 0 1";

    /// The starting position with White to move.
    pub const DEFAULT_WHITE_FEN: &'static str =
        "rnbqkbnr/pppppppp/8/8/8/8/PPPPPPPP/RNBQKBNR w KQkq - 0 1";

    /// Reads a position from FEN notation. The result is the one that
    /// [`parse_fen`] gives for the characters of `fen`: the position where
    /// the text is well formed, and else the reason why it is not.
    pub fn from_fen(fen: &str) -> (r: Result<ChessBoardPosition, InvalidInput>)
        ensures
            parse_fen(fen@) == match r {
                Ok(position) => Ok::<PositionView, InvalidInput>(position@),
                Err(fault) => Err(fault),
            },
            r matches Ok(position) ==> occupied(position@.squares) == piece_letters(
                placement(fen@),
            ),
    {
        match ChessPosition::from_fen(fen) {
            Ok(position) => Ok(
                ChessBoardPosition { pieces: position.pieces, turn: position._turn },
            ),
            Err(fault) => Err(fault),
        }
    }

    /// Writes the position in FEN notation: the placement and the side to
    /// move. Reading the text gives the position back.
    pub fn to_fen(&self) -> (fen: String)
        ensures
            fen@ == fen_text(self@),
            parse_fen(fen@) == Ok::<PositionView, InvalidInput>(self@),
    {
        proof {
            lemma_fen_text_parses(self@, Seq::empty());
            assert(fen_text(self@) + Seq::<char>::empty() == fen_text(self@));
        }
        write_fen(&self.pieces, self.turn)
    }

    /// Draws the position as text: a border line, then for each rank from
    /// the last square back to the first a line of its squares and another
    /// border line.
    pub fn to_string(&self) -> (text: String)
        ensures
            text@ == board_text(self.pieces@),
    {
        write_board(&self.pieces)
    }

    /// Passes the turn to the other side. The squares stay as they are.
    pub fn change_turn(&mut self)
        ensures
            final(self).turn == old(self).turn.spec_opposite(),
            final(self).pieces == old(self).pieces,
    {
        self.turn = if self.turn == PieceColor::White {
            PieceColor::Black
        } else {
            PieceColor::White
        };
    }
}

/// The border line of a drawn board.
pub open spec fn border_text() -> Seq<char> {
    Seq::new(
        18,
        |k: int|
            if k == 17 {
                '\n'
            } else if k % 2 == 0 {
                '+'
            } else {
                '-'
            },
    )
}

/// How a square is drawn: the letter of its piece, or a blank.
pub open spec fn square_char(square: Option<ChessPiece>) -> char {
    match square {
        Some(piece) => piece_letter(piece),
        None => ' ',
    }
}

/// The line of rank `rank` of a drawn board: its squares from the last back
/// to the first, each behind a bar, and a bar at the end.
pub open spec fn row_text(squares: Seq<Option<ChessPiece>>, rank: int) -> Seq<char> {
    Seq::new(
        18,
        |k: int|
            if k == 17 {
                '\n'
            } else if k % 2 == 0 {
                '|'
            } else {
                square_char(squares[8 * rank + 7 - k / 2])
            },
    )
}

/// The first `count` ranks of a drawn board, from the last rank back, each
/// with the border line below it.
pub open spec fn rows_text(squares: Seq<Option<ChessPiece>>, count: int) -> Seq<char>
    decreases count,
{
    if count <= 0 {
        Seq::empty()
    } else {
        rows_text(squares, count - 1) + row_text(squares, 8 - count) + border_text()
    }
}

/// A board drawn as text.
pub open spec fn board_text(squares: Seq<Option<ChessPiece>>) -> Seq<char> {
    border_text() + rows_text(squares, 8)
}

/// Writes the border line.
fn write_border(text: &mut String)
    ensures
        final(text)@ == old(text)@ + border_text(),
{
    let mut k: usize = 0;
    while k < 8
        invariant
            k <= 8,
            text@ == old(text)@ + border_text().subrange(0, 2 * k),
        decreases 8 - k,
    {
        text.push('+');
        text.push('-');
        k += 1;
    }
    text.push('+');
    text.push('\n');
    assert(text@ == old(text)@ + border_text());
}

/// Writes the line of one rank.
fn write_row(text: &mut String, squares: &[Option<ChessPiece>; 64], rank: usize)
    requires
        rank < 8,
    ensures
        final(text)@ == old(text)@ + row_text(squares@, rank as int),
{
    let ghost row = row_text(squares@, rank as int);
    let mut k: usize = 0;
    while k < 8
        invariant
            k <= 8,
            rank < 8,
            row == row_text(squares@, rank as int),
            text@ == old(text)@ + row.subrange(0, 2 * k),
        decreases 8 - k,
    {
        let c = match squares[8 * rank + 7 - k] {
            Some(piece) => char::from(piece),
            None => ' ',
        };
        text.push('|');
        text.push(c);
        k += 1;
    }
    text.push('|');
    text.push('\n');
    assert(text@ == old(text)@ + row);
}

/// Draws a board as text.
fn write_board(squares: &[Option<ChessPiece>; 64]) -> (text: String)
    ensures
        text@ == board_text(squares@),
{
    let mut text = String::new();
    write_border(&mut text);
    let mut count: usize = 0;
    while count < 8
        invariant
            count <= 8,
            text@ == border_text() + rows_text(squares@, count as int),
        decreases 8 - count,
    {
        write_row(&mut text, squares, 7 - count);
        write_border(&mut text);
        count += 1;
    }
    text
}

/// The kind of the piece that starts on file `file` of a back rank.
pub open spec fn back_rank_variant(file: int) -> PieceVariant {
    if file == 0 || file == 7 {
        PieceVariant::Rook
    } else if file == 1 || file == 6 {
        PieceVariant::Knight
    } else if file == 2 || file == 5 {
        PieceVariant::Bishop
    } else if file == 3 {
        PieceVariant::Queen
    } else {
        PieceVariant::King
    }
}

/// What stands on square `square` when a game begins: Black on the first
/// sixteen squares, White on the last sixteen, pawns on the inner ranks.
pub open spec fn starting_square(square: int) -> Option<ChessPiece> {
    if 0 <= square < 8 {
        Some(ChessPiece { color: PieceColor::Black, variant: back_rank_variant(square) })
    } else if 8 <= square < 16 {
        Some(ChessPiece { color: PieceColor::Black, variant: PieceVariant::Pawn })
    } else if 48 <= square < 56 {
        Some(ChessPiece { color: PieceColor::White, variant: PieceVariant::Pawn })
    } else if 56 <= square < 64 {
        Some(ChessPiece { color: PieceColor::White, variant: back_rank_variant(square - 56) })
    } else {
        None
    }
}

/// The position in which a game begins, with `turn` to move.
pub open spec fn starting_position(turn: PieceColor) -> PositionView {
    PositionView { squares: Seq::new(64, |square: int| starting_square(square)), turn }
}

/// The placement of the starting position is written as the first field of
/// the two default texts.
pub proof fn lemma_starting_placement()
    ensures
        placement_text(starting_position(PieceColor::White).squares, 8)
            == "rnbqkbnr/pppppppp/8/8/8/8/PPPPPPPP/RNBQKBNR"@,
{
    let squares = starting_position(PieceColor::White).squares;
    reveal_strlit("rnbqkbnr/pppppppp/8/8/8/8/PPPPPPPP/RNBQKBNR");
    lemma_rank_text_full(rank_of(squares, 0));
    lemma_rank_text_full(rank_of(squares, 1));
    lemma_rank_text_empty(rank_of(squares, 2), 0);
    lemma_rank_text_empty(rank_of(squares, 3), 0);
    lemma_rank_text_empty(rank_of(squares, 4), 0);
    lemma_rank_text_empty(rank_of(squares, 5), 0);
    lemma_rank_text_full(rank_of(squares, 6));
    lemma_rank_text_full(rank_of(squares, 7));
    reveal_with_fuel(placement_text, 9);
    assert(placement_text(squares, 8) =~= "rnbqkbnr/pppppppp/8/8/8/8/PPPPPPPP/RNBQKBNR"@);
}

/// The two default texts are read as the starting position, with White and
/// with Black to move.
pub proof fn lemma_default_fen()
    ensures
        parse_fen(ChessPosition::DEFAULT_WHITE_FEN@) == Ok::<PositionView, InvalidInput>(
            starting_position(PieceColor::White),
        ),
        parse_fen(ChessPosition::DEFAULT_BLACK_FEN@) == Ok::<PositionView, InvalidInput>(
            starting_position(PieceColor::Black),
        ),
        ChessBoardPosition::DEFAULT_WHITE_FEN@ == ChessPosition::DEFAULT_WHITE_FEN@,
        ChessBoardPosition::DEFAULT_BLACK_FEN@ == ChessPosition::DEFAULT_BLACK_FEN@,
{
    let rest = " KQkq - 0 1"@;
    reveal_strlit(" KQkq - 0 1");
    reveal_strlit("rnbqkbnr/pppppppp/8/8/8/8/PPPPPPPP/RNBQKBNR");
    reveal_strlit("rnbqkbnr/pppppppp/8/8/8/8/PPPPPPPP/RNBQKBNR w KQkq - 0 1");
    reveal_strlit("rnbqkbnr/pppppppp/8/8/8/8/PPPPPPPP/RNBQKBNR b KQkq - 0 1");
    lemma_starting_placement();
    let white = starting_position(PieceColor::White);
    let black = starting_position(PieceColor::Black);
    assert(ChessPosition::DEFAULT_WHITE_FEN@ =~= fen_text(white) + rest);
    assert(ChessPosition::DEFAULT_BLACK_FEN@ =~= fen_text(black) + rest);
    lemma_fen_text_parses(white, rest);
    lemma_fen_text_parses(black, rest);
}

} // verus!
