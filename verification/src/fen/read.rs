//! Reading FEN notation: one pass over the fields, and what that pass
//! knows at each character.

use vstd::prelude::*;
use crate::error::InvalidInput;
use crate::fen::{
    PositionView, is_whitespace, skip_whitespace, skip_field, is_gap_digit, is_rank_symbol,
    symbol_squares, rank_squares, ranks, grid, has_unrecognized, has_overflow, parse_fen,
};
use crate::piece::{ChessPiece, PieceColor, letter_piece};

verus! {

/// Whether `c` separates fields.
pub fn char_is_whitespace(c: char) -> (b: bool)
    ensures
        b == is_whitespace(c),
{
    let u: u32 = c as u32;
    (0x09 <= u && u <= 0x0D) || u == 0x20 || u == 0x85 || u == 0xA0 || u == 0x1680 || (0x2000 <= u
        && u <= 0x200A) || u == 0x2028 || u == 0x2029 || u == 0x202F || u == 0x205F || u == 0x3000
}

/// The characters of a text, in order.
pub fn chars_of(text: &str) -> (chars: Vec<char>)
    ensures
        chars@ == text@,
{
    let mut chars: Vec<char> = Vec::new();
    for c in it: text.chars()
        invariant
            chars@ == it.seq().subrange(0, it.index() as int),
            it.seq() == text@,
    {
        chars.push(c);
    }
    chars
}

/// Finds the end of the white space that begins at `from`.
fn scan_whitespace(text: &Vec<char>, from: usize) -> (to: usize)
    requires
        from <= text.len(),
    ensures
        to == skip_whitespace(text@, from as int),
        from <= to <= text.len(),
{
    let mut at: usize = from;
    while at < text.len() && char_is_whitespace(text[at])
        invariant
            from <= at <= text.len(),
            skip_whitespace(text@, at as int) == skip_whitespace(text@, from as int),
        decreases text.len() - at,
    {
        at += 1;
    }
    at
}

/// Finds the end of the field that begins at `from`.
fn scan_field(text: &Vec<char>, from: usize) -> (to: usize)
    requires
        from <= text.len(),
    ensures
        to == skip_field(text@, from as int),
        from <= to <= text.len(),
{
    let mut at: usize = from;
    while at < text.len() && !char_is_whitespace(text[at])
        invariant
            from <= at <= text.len(),
            skip_field(text@, at as int) == skip_field(text@, from as int),
        decreases text.len() - at,
    {
        at += 1;
    }
    at
}

/// A placement always has at least one rank, and a further character
/// either opens a new rank or is added to the last one.
pub proof fn lemma_ranks_push(placement: Seq<char>, c: char)
    ensures
        ranks(placement).len() >= 1,
        c == '/' ==> ranks(placement.push(c)) == ranks(placement).push(Seq::empty()),
        c != '/' ==> ranks(placement.push(c)) == ranks(placement).update(
            ranks(placement).len() - 1,
            ranks(placement).last().push(c),
        ),
    decreases placement.len(),
{
    if placement.len() > 0 {
        lemma_ranks_push(placement.drop_last(), placement.last());
    }
    assert(placement.push(c).drop_last() == placement);
}

/// A further character of a rank adds its squares behind those of the
/// characters before it.
pub proof fn lemma_rank_squares_push(rank: Seq<char>, c: char)
    ensures
        rank_squares(rank.push(c)) == rank_squares(rank) + symbol_squares(c),
{
    assert(rank.push(c).drop_last() == rank);
}

/// What the scan of a placement knows after some of its characters.
pub(crate) open spec fn scanned(
    seen: Seq<char>,
    rank: int,
    file: int,
    unrecognized: bool,
    overflow: bool,
    squares: Seq<Option<ChessPiece>>,
) -> bool {
    &&& ranks(seen).len() == rank + 1
    &&& unrecognized == has_unrecognized(seen)
    &&& overflow == has_overflow(ranks(seen))
    &&& !overflow ==> {
        &&& file == rank_squares(ranks(seen).last()).len()
        &&& squares == grid(ranks(seen))
    }
}

/// Nothing has been scanned yet: one empty rank, an empty board.
pub(crate) proof fn lemma_scanned_nothing(squares: Seq<Option<ChessPiece>>)
    requires
        squares.len() == 64,
        forall|k: int| 0 <= k < 64 ==> squares[k] is None,
    ensures
        scanned(Seq::empty(), 0, 0, false, false, squares),
{
    let seen = Seq::<char>::empty();
    assert(ranks(seen) == seq![Seq::<char>::empty()]);
    assert(rank_squares(ranks(seen)[0]).len() == 0);
    assert(squares =~= grid(ranks(seen)));
}

/// The scan goes over a `/`: a new rank begins.
pub(crate) proof fn lemma_scanned_slash(
    seen: Seq<char>,
    rank: int,
    file: int,
    unrecognized: bool,
    overflow: bool,
    squares: Seq<Option<ChessPiece>>,
)
    requires
        scanned(seen, rank, file, unrecognized, overflow, squares),
    ensures
        scanned(seen.push('/'), rank + 1, 0, unrecognized, overflow, squares),
{
    let next = seen.push('/');
    let before = ranks(seen);
    let after = ranks(next);
    lemma_ranks_push(seen, '/');
    assert(rank_squares(after[rank + 1]).len() == 0);
    assert forall|r: int| 0 <= r <= rank implies after[r] == before[r] by {}
    if has_unrecognized(seen) {
        let k = choose|k: int|
            0 <= k < seen.len() && seen[k] != '/' && !is_rank_symbol(#[trigger] seen[k]);
        assert(next[k] == seen[k]);
    }
    if has_unrecognized(next) {
        let k = choose|k: int|
            0 <= k < next.len() && next[k] != '/' && !is_rank_symbol(#[trigger] next[k]);
        assert(seen[k] == next[k]);
    }
    if has_overflow(before) {
        let r = choose|r: int|
            0 <= r < before.len() && (#[trigger] rank_squares(before[r])).len() > 8;
        assert(rank_squares(after[r]).len() > 8);
    }
    if has_overflow(after) {
        let r = choose|r: int|
            0 <= r < after.len() && (#[trigger] rank_squares(after[r])).len() > 8;
        assert(rank_squares(before[r]).len() > 8);
    }
    if !overflow {
        assert(grid(after) =~= grid(before));
    }
}

/// The scan goes over a character other than `/`: the last rank grows by
/// the squares of that character.
pub(crate) proof fn lemma_scanned_symbol(
    seen: Seq<char>,
    c: char,
    rank: int,
    file: int,
    unrecognized: bool,
    overflow: bool,
    squares: Seq<Option<ChessPiece>>,
)
    requires
        scanned(seen, rank, file, unrecognized, overflow, squares),
        c != '/',
    ensures
        ({
            let width = file + symbol_squares(c).len();
            let fits = !overflow && width <= 8;
            scanned(
                seen.push(c),
                rank,
                if fits { width } else { file },
                unrecognized || !is_rank_symbol(c),
                !fits,
                if fits && rank < 8 && letter_piece(c) is Some && !is_gap_digit(c) {
                    squares.update(8 * rank + file, letter_piece(c))
                } else {
                    squares
                },
            )
        }),
{
    let next = seen.push(c);
    let before = ranks(seen);
    let after = ranks(next);
    lemma_ranks_push(seen, c);
    lemma_rank_squares_push(before[rank], c);
    assert(after[rank] == before[rank].push(c));
    assert forall|r: int| 0 <= r < rank implies after[r] == before[r] by {}
    if has_unrecognized(seen) {
        let k = choose|k: int|
            0 <= k < seen.len() && seen[k] != '/' && !is_rank_symbol(#[trigger] seen[k]);
        assert(next[k] == seen[k]);
    }
    if !is_rank_symbol(c) {
        assert(next[seen.len() as int] == c);
    }
    if has_unrecognized(next) {
        let k = choose|k: int|
            0 <= k < next.len() && next[k] != '/' && !is_rank_symbol(#[trigger] next[k]);
        if k < seen.len() {
            assert(seen[k] == next[k]);
        }
    }
    if has_overflow(before) {
        let r = choose|r: int|
            0 <= r < before.len() && (#[trigger] rank_squares(before[r])).len() > 8;
        assert(rank_squares(after[r]).len() > 8);
    }
    if has_overflow(after) && !overflow {
        let r = choose|r: int|
            0 <= r < after.len() && (#[trigger] rank_squares(after[r])).len() > 8;
        if r < rank {
            assert(rank_squares(before[r]).len() > 8);
        }
    }
    let width = file + symbol_squares(c).len();
    if !overflow && width > 8 {
        assert(rank_squares(after[rank]).len() > 8);
    }
    if !overflow && width <= 8 {
        let placed = if rank < 8 && letter_piece(c) is Some && !is_gap_digit(c) {
            squares.update(8 * rank + file, letter_piece(c))
        } else {
            squares
        };
        assert(placed =~= grid(after)) by {
            assert forall|k: int| 0 <= k < 64 implies placed[k] == grid(after)[k] by {
                if k / 8 != rank {
                    assert(after[k / 8] == before[k / 8] || k / 8 >= after.len());
                }
            }
        }
    }
}

/// A board on which nothing stands.
pub fn empty_board() -> (squares: [Option<ChessPiece>; 64])
    ensures
        forall|k: int| 0 <= k < 64 ==> squares@[k] is None,
{
    let squares: [Option<ChessPiece>; 64] = [None;64];
    proof {
        vstd::array::axiom_spec_array_fill_for_copy_type::<Option<ChessPiece>, 64>(None);
    }
    squares
}

/// Reads the placement that stands in `text` from `start` up to `end`.
fn read_placement(text: &Vec<char>, start: usize, end: usize) -> (r: Result<
    [Option<ChessPiece>; 64],
    InvalidInput,
>)
    requires
        start <= end <= text.len(),
    ensures
        ({
            let field = text@.subrange(start as int, end as int);
            match r {
                Ok(squares) => {
                    &&& !has_unrecognized(field)
                    &&& !has_overflow(ranks(field))
                    &&& ranks(field).len() == 8
                    &&& squares@ == grid(ranks(field))
                },
                Err(fault) => fault == (if has_unrecognized(field) {
                    InvalidInput::UnrecognizedCharacter
                } else if has_overflow(ranks(field)) {
                    InvalidInput::RankOverflow
                } else {
                    InvalidInput::RankCount
                }) && (has_unrecognized(field) || has_overflow(ranks(field)) || ranks(field).len()
                    != 8),
            }
        }),
{
    let mut squares = empty_board();
    let mut rank: usize = 0;
    let mut file: usize = 0;
    let mut unrecognized = false;
    let mut overflow = false;
    let mut at: usize = start;
    proof {
        lemma_scanned_nothing(squares@);
        assert(text@.subrange(start as int, start as int) == Seq::<char>::empty());
    }
    while at < end
        invariant
            start <= at <= end <= text.len(),
            rank <= at - start,
            !overflow ==> file <= 8,
            scanned(
                text@.subrange(start as int, at as int),
                rank as int,
                file as int,
                unrecognized,
                overflow,
                squares@,
            ),
        decreases end - at,
    {
        let c = text[at];
        let ghost seen = text@.subrange(start as int, at as int);
        proof {
            assert(text@.subrange(start as int, at + 1) == seen.push(c));
            if c == '/' {
                lemma_scanned_slash(
                    seen,
                    rank as int,
                    file as int,
                    unrecognized,
                    overflow,
                    squares@,
                );
            } else {
                lemma_scanned_symbol(
                    seen,
                    c,
                    rank as int,
                    file as int,
                    unrecognized,
                    overflow,
                    squares@,
                );
            }
        }
        if c == '/' {
            rank += 1;
            file = 0;
        } else {
            let code: u32 = c as u32;
            if 0x31 <= code && code <= 0x38 {
                let gap: usize = (code - 0x30) as usize;
                if !overflow && file + gap <= 8 {
                    file += gap;
                } else {
                    overflow = true;
                }
            } else {
                match ChessPiece::try_from(c) {
                    Ok(piece) => {
                        if !overflow && file < 8 {
                            if rank < 8 {
                                squares[8 * rank + file] = Some(piece);
                            }
                            file += 1;
                        } else {
                            overflow = true;
                        }
                    },
                    Err(_) => {
                        unrecognized = true;
                    },
                }
            }
        }
        at += 1;
    }
    assert(text@.subrange(start as int, at as int) == text@.subrange(start as int, end as int));
    if unrecognized {
        Err(InvalidInput::UnrecognizedCharacter)
    } else if overflow {
        Err(InvalidInput::RankOverflow)
    } else if rank != 7 {
        Err(InvalidInput::RankCount)
    } else {
        Ok(squares)
    }
}

/// Reads the two fields of a text that count: the placement and the side to
/// move.
pub fn read_fields(text: &Vec<char>) -> (r: Result<
    ([Option<ChessPiece>; 64], PieceColor),
    InvalidInput,
>)
    ensures
        parse_fen(text@) == match r {
            Ok(read) => Ok::<PositionView, InvalidInput>(
                PositionView { squares: read.0@, turn: read.1 },
            ),
            Err(fault) => Err(fault),
        },
{
    let start = scan_whitespace(text, 0);
    let end = scan_field(text, start);
    if start == end {
        return Err(InvalidInput::MissingPlacement);
    }
    let squares = match read_placement(text, start, end) {
        Ok(squares) => squares,
        Err(fault) => {
            return Err(fault);
        },
    };
    let turn_at = scan_whitespace(text, end);
    if turn_at >= text.len() {
        return Err(InvalidInput::MissingTurn);
    }
    match PieceColor::try_from(text[turn_at]) {
        Ok(turn) => Ok((squares, turn)),
        Err(fault) => Err(fault),
    }
}

} // verus!
