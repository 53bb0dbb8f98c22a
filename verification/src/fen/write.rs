//! Writing FEN notation: the one text that this library writes for a
//! position.

use vstd::prelude::*;
use crate::fen::PositionView;
use crate::piece::{ChessPiece, PieceColor, piece_letter, color_letter};

verus! {

/// The digit for a number from 1 to 8.
pub open spec fn gap_digit(gap: int) -> char {
    (gap + 0x30) as char
}

/// How a run of `gap` empty squares is written: as one digit, or not at all
/// where there is none.
pub open spec fn gap_text(gap: int) -> Seq<char> {
    if gap > 0 {
        seq![gap_digit(gap)]
    } else {
        Seq::empty()
    }
}

/// How the squares of a rank are written when `gap` empty squares stand
/// before them: each piece as its letter, each longest run of empty squares
/// as its length.
pub open spec fn rank_text(squares: Seq<Option<ChessPiece>>, gap: int) -> Seq<char>
    decreases squares.len(),
{
    if squares.len() == 0 {
        gap_text(gap)
    } else {
        match squares[0] {
            None => rank_text(squares.drop_first(), gap + 1),
            Some(piece) => gap_text(gap) + seq![piece_letter(piece)] + rank_text(
                squares.drop_first(),
                0,
            ),
        }
    }
}

/// The squares of rank `rank`, counted from 0 at the top.
pub open spec fn rank_of(squares: Seq<Option<ChessPiece>>, rank: int) -> Seq<Option<ChessPiece>> {
    squares.subrange(8 * rank, 8 * rank + 8)
}

/// How the first `count` ranks are written, with `/` between them.
pub open spec fn placement_text(squares: Seq<Option<ChessPiece>>, count: int) -> Seq<char>
    decreases count,
{
    if count <= 0 {
        Seq::empty()
    } else if count == 1 {
        rank_text(rank_of(squares, 0), 0)
    } else {
        placement_text(squares, count - 1) + seq!['/'] + rank_text(rank_of(squares, count - 1), 0)
    }
}

/// How a position is written: the eight ranks, a blank, and the letter of
/// the side to move.
pub open spec fn fen_text(position: PositionView) -> Seq<char> {
    placement_text(position.squares, 8) + seq![' ', color_letter(position.turn)]
}

/// `String::push` of the standard library adds one character at the end of
/// the string and leaves the rest as it is.
pub assume_specification[ String::push ](text: &mut String, c: char)
    ensures
        final(text)@ == old(text)@.push(c),
;

/// The letter of a side in the turn field.
pub fn turn_letter(turn: PieceColor) -> (c: char)
    ensures
        c == color_letter(turn),
{
    match turn {
        PieceColor::White => 'w',
        PieceColor::Black => 'b',
    }
}

/// Writes a run of empty squares, if there is one.
fn write_gap(text: &mut String, gap: u8)
    requires
        gap <= 8,
    ensures
        final(text)@ == old(text)@ + gap_text(gap as int),
{
    if gap > 0 {
        let digit = match gap {
            1 => '1',
            2 => '2',
            3 => '3',
            4 => '4',
            5 => '5',
            6 => '6',
            7 => '7',
            _ => '8',
        };
        text.push(digit);
    }
}

/// Writes rank `rank` of a board.
fn write_rank(text: &mut String, squares: &[Option<ChessPiece>; 64], rank: usize)
    requires
        rank < 8,
    ensures
        final(text)@ == old(text)@ + rank_text(rank_of(squares@, rank as int), 0),
{
    let ghost all = rank_of(squares@, rank as int);
    let mut gap: u8 = 0;
    let mut file: usize = 0;
    proof {
        assert(all.subrange(0, 8) == all);
    }
    while file < 8
        invariant
            rank < 8,
            file <= 8,
            gap <= file,
            all == rank_of(squares@, rank as int),
            text@ + rank_text(all.subrange(file as int, 8), gap as int) == old(text)@ + rank_text(
                all,
                0,
            ),
        decreases 8 - file,
    {
        let ghost rest = all.subrange(file as int, 8);
        proof {
            assert(all.subrange(file + 1, 8) == rest.drop_first());
            assert(rest[0] == squares@[8 * rank + file]);
        }
        match squares[8 * rank + file] {
            None => {
                gap += 1;
            },
            Some(piece) => {
                let ghost before = text@;
                write_gap(text, gap);
                text.push(char::from(piece));
                proof {
                    assert(text@ + rank_text(rest.drop_first(), 0) == before + rank_text(
                        rest,
                        gap as int,
                    )) by {
                        assert(text@ == before + (gap_text(gap as int) + seq![
                            piece_letter(piece),
                        ]));
                    }
                }
                gap = 0;
            },
        }
        file += 1;
    }
    write_gap(text, gap);
    proof {
        assert(all.subrange(8, 8) == Seq::<Option<ChessPiece>>::empty());
    }
}

/// Writes a position in FEN notation.
pub fn write_fen(squares: &[Option<ChessPiece>; 64], turn: PieceColor) -> (text: String)
    ensures
        text@ == fen_text(PositionView { squares: squares@, turn }),
{
    let mut text = String::new();
    let mut rank: usize = 0;
    while rank < 8
        invariant
            rank <= 8,
            text@ == placement_text(squares@, rank as int),
        decreases 8 - rank,
    {
        if rank > 0 {
            text.push('/');
        }
        write_rank(&mut text, squares, rank);
        rank += 1;
    }
    text.push(' ');
    text.push(turn_letter(turn));
    text
}

} // verus!
