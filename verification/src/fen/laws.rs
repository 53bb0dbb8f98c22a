//! What holds between reading and writing: a position that is written and
//! read again is the same position, and reading puts one piece on the board
//! for each piece letter of the placement.

use vstd::prelude::*;
use crate::error::InvalidInput;
use crate::fen::{
    PositionView, is_whitespace, skip_whitespace, skip_field, placement, placement_start,
    placement_end, turn_start, is_gap_digit,
    digit_value, is_rank_symbol, symbol_squares, rank_squares, ranks, grid, has_unrecognized,
    has_overflow, parse_fen,
};
use crate::fen::read::{
    lemma_ranks_push, lemma_rank_squares_push, lemma_scanned_slash, lemma_scanned_symbol,
};
use crate::fen::write::{gap_digit, gap_text, rank_text, rank_of, placement_text, fen_text};
use crate::piece::{
    ChessPiece, PieceColor, PieceVariant, letter_piece, piece_letter, letter_color, color_letter,
};

verus! {

/// A run of `count` empty squares.
pub open spec fn empty_squares(count: int) -> Seq<Option<ChessPiece>> {
    Seq::new(count as nat, |i: int| None)
}

/// The letter of a piece stands for that piece, and for nothing else that a
/// text may hold.
pub proof fn lemma_piece_letter(piece: ChessPiece)
    ensures
        letter_piece(piece_letter(piece)) == Some(piece),
        !is_gap_digit(piece_letter(piece)),
        is_rank_symbol(piece_letter(piece)),
        piece_letter(piece) != '/',
        !is_whitespace(piece_letter(piece)),
        symbol_squares(piece_letter(piece)) == seq![Some(piece)],
{
    match piece.variant {
        PieceVariant::King => {},
        PieceVariant::Queen => {},
        PieceVariant::Rook => {},
        PieceVariant::Bishop => {},
        PieceVariant::Knight => {},
        PieceVariant::Pawn => {},
    }
}

/// The digit of a run stands for a run of that length.
pub proof fn lemma_gap_digit(gap: int)
    requires
        1 <= gap <= 8,
    ensures
        is_gap_digit(gap_digit(gap)),
        digit_value(gap_digit(gap)) == gap,
        is_rank_symbol(gap_digit(gap)),
        gap_digit(gap) != '/',
        !is_whitespace(gap_digit(gap)),
        symbol_squares(gap_digit(gap)) == empty_squares(gap),
{
}

/// The letter of a side stands for that side.
pub proof fn lemma_color_letter(color: PieceColor)
    ensures
        letter_color(color_letter(color)) == Some(color),
        !is_whitespace(color_letter(color)),
{
}

/// The squares of two pieces of a rank, one behind the other.
pub proof fn lemma_rank_squares_concat(front: Seq<char>, back: Seq<char>)
    ensures
        rank_squares(front + back) == rank_squares(front) + rank_squares(back),
    decreases back.len(),
{
    if back.len() == 0 {
        assert(front + back == front);
        assert(rank_squares(front) + rank_squares(back) == rank_squares(front));
    } else {
        lemma_rank_squares_concat(front, back.drop_last());
        assert((front + back).drop_last() == front + back.drop_last());
        assert(rank_squares(front + back) == rank_squares(front) + rank_squares(back.drop_last())
            + symbol_squares(back.last()));
        assert(rank_squares(front) + rank_squares(back.drop_last()) + symbol_squares(back.last())
            == rank_squares(front) + (rank_squares(back.drop_last()) + symbol_squares(
            back.last(),
        )));
    }
}

/// The squares of a rank of one character.
pub proof fn lemma_rank_squares_one(c: char)
    ensures
        rank_squares(seq![c]) == symbol_squares(c),
{
    lemma_rank_squares_push(Seq::empty(), c);
    assert(Seq::<char>::empty().push(c) == seq![c]);
    assert(rank_squares(Seq::<char>::empty()) + symbol_squares(c) == symbol_squares(c));
}

/// A rank that is written and read again: the text holds only digits from
/// 1 to 8 and piece letters, and it describes the squares that were
/// written, behind the empty squares that stood before them.
pub proof fn lemma_rank_text(squares: Seq<Option<ChessPiece>>, gap: int)
    requires
        0 <= gap,
        gap + squares.len() <= 8,
    ensures
        rank_squares(rank_text(squares, gap)) == empty_squares(gap) + squares,
        forall|i: int|
            0 <= i < rank_text(squares, gap).len() ==> is_rank_symbol(
                #[trigger] rank_text(squares, gap)[i],
            ) && rank_text(squares, gap)[i] != '/' && !is_whitespace(rank_text(squares, gap)[i]),
        gap + squares.len() > 0 ==> rank_text(squares, gap).len() > 0,
    decreases squares.len(),
{
    let text = rank_text(squares, gap);
    if gap > 0 {
        lemma_gap_digit(gap);
        lemma_rank_squares_one(gap_digit(gap));
    } else {
        assert(rank_squares(gap_text(gap)) == empty_squares(gap));
    }
    if squares.len() == 0 {
        assert(empty_squares(gap) + squares == empty_squares(gap));
    } else {
        let rest = squares.drop_first();
        match squares[0] {
            None => {
                lemma_rank_text(rest, gap + 1);
                assert(empty_squares(gap + 1) + rest == empty_squares(gap) + squares);
            },
            Some(piece) => {
                lemma_rank_text(rest, 0);
                lemma_piece_letter(piece);
                let letter = seq![piece_letter(piece)];
                lemma_rank_squares_one(piece_letter(piece));
                lemma_rank_squares_concat(gap_text(gap) + letter, rank_text(rest, 0));
                lemma_rank_squares_concat(gap_text(gap), letter);
                assert(empty_squares(gap) + seq![Some(piece)] + (empty_squares(0) + rest)
                    == empty_squares(gap) + squares);
            },
        }
    }
}

/// Ranks written one behind the other with `/` between them.
pub open spec fn joined(ranks: Seq<Seq<char>>) -> Seq<char>
    decreases ranks.len(),
{
    if ranks.len() == 0 {
        Seq::empty()
    } else if ranks.len() == 1 {
        ranks[0]
    } else {
        joined(ranks.drop_last()) + seq!['/'] + ranks.last()
    }
}

/// The ranks of a placement are its pieces between the `/`: none of them
/// holds a `/`, there is one more of them than there are `/`, and joined
/// with `/` they give the placement back.
pub proof fn lemma_ranks_split(placement: Seq<char>)
    ensures
        joined(ranks(placement)) == placement,
        ranks(placement).len() == 1 + placement.filter(|c: char| c == '/').len(),
        forall|r: int, i: int|
            0 <= r < ranks(placement).len() && 0 <= i < ranks(placement)[r].len() ==> (
            #[trigger] ranks(placement)[r][i]) != '/',
    decreases placement.len(),
{
    reveal(Seq::filter);
    if placement.len() > 0 {
        let before = placement.drop_last();
        let c = placement.last();
        let split = ranks(before);
        lemma_ranks_split(before);
        lemma_ranks_push(before, c);
        assert(before.push(c) == placement);
        let last = split.len() - 1;
        if c == '/' {
            assert(split.push(Seq::empty()).drop_last() == split);
            assert(joined(split) + seq!['/'] + Seq::<char>::empty() == placement);
        } else {
            let grown = split.update(last, split[last].push(c));
            if split.len() > 1 {
                assert(grown.drop_last() == split.drop_last());
                assert(joined(split.drop_last()) + seq!['/'] + split[last].push(c) == (joined(
                    split.drop_last(),
                ) + seq!['/'] + split[last]).push(c));
            }
        }
    }
}

/// A text without `/` is one rank.
pub proof fn lemma_ranks_single(rank: Seq<char>)
    requires
        forall|i: int| 0 <= i < rank.len() ==> rank[i] != '/',
    ensures
        ranks(rank) == seq![rank],
    decreases rank.len(),
{
    if rank.len() > 0 {
        let shorter = rank.drop_last();
        lemma_ranks_single(shorter);
        assert(shorter.push(rank.last()) == rank);
        assert(seq![shorter].update(0, shorter.push(rank.last())) == seq![rank]);
    } else {
        assert(rank == Seq::<char>::empty());
    }
}

/// A `/` and a text without `/` behind a placement add one rank to it.
pub proof fn lemma_ranks_append(front: Seq<char>, rank: Seq<char>)
    requires
        forall|i: int| 0 <= i < rank.len() ==> rank[i] != '/',
    ensures
        ranks(front + seq!['/'] + rank) == ranks(front).push(rank),
    decreases rank.len(),
{
    if rank.len() == 0 {
        lemma_ranks_push(front, '/');
        assert(front + seq!['/'] + rank == front.push('/'));
        assert(rank == Seq::<char>::empty());
    } else {
        let shorter = rank.drop_last();
        let before = ranks(front);
        lemma_ranks_append(front, shorter);
        lemma_ranks_push(front + seq!['/'] + shorter, rank.last());
        assert((front + seq!['/'] + shorter).push(rank.last()) == front + seq!['/'] + rank);
        assert(shorter.push(rank.last()) == rank);
        assert(before.push(shorter).update(before.len() as int, shorter.push(rank.last()))
            == before.push(rank));
    }
}

/// The ranks of a board that is written are the texts of its ranks, and
/// the text holds nothing but `/`, digits from 1 to 8 and piece letters.
pub proof fn lemma_placement_text(squares: Seq<Option<ChessPiece>>, count: int)
    requires
        squares.len() == 64,
        1 <= count <= 8,
    ensures
        ranks(placement_text(squares, count)) == Seq::new(
            count as nat,
            |r: int| rank_text(rank_of(squares, r), 0),
        ),
        placement_text(squares, count).len() > 0,
        forall|i: int|
            0 <= i < placement_text(squares, count).len() ==> !is_whitespace(
                #[trigger] placement_text(squares, count)[i],
            ) && (placement_text(squares, count)[i] == '/' || is_rank_symbol(
                placement_text(squares, count)[i],
            )),
    decreases count,
{
    let last = rank_text(rank_of(squares, count - 1), 0);
    lemma_rank_text(rank_of(squares, count - 1), 0);
    if count == 1 {
        lemma_ranks_single(last);
        assert(seq![last] == Seq::new(1, |r: int| rank_text(rank_of(squares, r), 0)));
    } else {
        let front = placement_text(squares, count - 1);
        lemma_placement_text(squares, count - 1);
        lemma_ranks_append(front, last);
        assert(ranks(front).push(last) == Seq::new(
            count as nat,
            |r: int| rank_text(rank_of(squares, r), 0),
        ));
    }
}

/// What skipping white space finds: white space up to the place that it
/// returns, and none there.
pub proof fn lemma_skipped_whitespace(text: Seq<char>, from: int)
    requires
        0 <= from <= text.len(),
    ensures
        from <= skip_whitespace(text, from) <= text.len(),
        forall|i: int|
            from <= i < skip_whitespace(text, from) ==> is_whitespace(#[trigger] text[i]),
        skip_whitespace(text, from) < text.len() ==> !is_whitespace(
            text[skip_whitespace(text, from)],
        ),
    decreases text.len() - from,
{
    if from < text.len() && is_whitespace(text[from]) {
        lemma_skipped_whitespace(text, from + 1);
    }
}

/// What skipping a field finds: no white space up to the place that it
/// returns, and white space there.
pub proof fn lemma_skipped_field(text: Seq<char>, from: int)
    requires
        0 <= from <= text.len(),
    ensures
        from <= skip_field(text, from) <= text.len(),
        forall|i: int| from <= i < skip_field(text, from) ==> !is_whitespace(#[trigger] text[i]),
        skip_field(text, from) < text.len() ==> is_whitespace(text[skip_field(text, from)]),
    decreases text.len() - from,
{
    if from < text.len() && !is_whitespace(text[from]) {
        lemma_skipped_field(text, from + 1);
    }
}

/// The fields of a text: the placement is the first run of characters that
/// are no white space, and the turn field begins at the next such
/// character.
pub proof fn lemma_fields(text: Seq<char>)
    ensures
        0 <= placement_start(text) <= placement_end(text) <= turn_start(text) <= text.len(),
        forall|i: int| 0 <= i < placement_start(text) ==> is_whitespace(#[trigger] text[i]),
        forall|i: int|
            placement_start(text) <= i < placement_end(text) ==> !is_whitespace(
                #[trigger] text[i],
            ),
        forall|i: int|
            placement_end(text) <= i < turn_start(text) ==> is_whitespace(#[trigger] text[i]),
        turn_start(text) < text.len() ==> !is_whitespace(text[turn_start(text)]),
        forall|i: int| 0 <= i < placement(text).len() ==> !is_whitespace(placement(text)[i]),
        placement(text).len() == 0 <==> forall|i: int|
            0 <= i < text.len() ==> is_whitespace(#[trigger] text[i]),
{
    lemma_skipped_whitespace(text, 0);
    lemma_skipped_field(text, placement_start(text));
    lemma_skipped_whitespace(text, placement_end(text));
}

/// Where a run of white space ends.
pub proof fn lemma_skip_whitespace(text: Seq<char>, from: int, to: int)
    requires
        0 <= from <= to <= text.len(),
        forall|i: int| from <= i < to ==> is_whitespace(#[trigger] text[i]),
        to < text.len() ==> !is_whitespace(text[to]),
    ensures
        skip_whitespace(text, from) == to,
    decreases to - from,
{
    if from < to {
        lemma_skip_whitespace(text, from + 1, to);
    }
}

/// Where a field ends.
pub proof fn lemma_skip_field(text: Seq<char>, from: int, to: int)
    requires
        0 <= from <= to <= text.len(),
        forall|i: int| from <= i < to ==> !is_whitespace(#[trigger] text[i]),
        to < text.len() ==> is_whitespace(text[to]),
    ensures
        skip_field(text, from) == to,
    decreases to - from,
{
    if from < to {
        lemma_skip_field(text, from + 1, to);
    }
}

/// Writing, then reading: the text that is written for a position is read
/// as that position, also where further fields stand behind it.
pub proof fn lemma_fen_text_parses(position: PositionView, rest: Seq<char>)
    requires
        position.squares.len() == 64,
        rest.len() > 0 ==> is_whitespace(rest[0]),
    ensures
        parse_fen(fen_text(position) + rest) == Ok::<PositionView, InvalidInput>(position),
{
    let squares = position.squares;
    let field = placement_text(squares, 8);
    let text = fen_text(position) + rest;
    let n = field.len() as int;
    lemma_placement_text(squares, 8);
    lemma_color_letter(position.turn);
    assert(text.len() == n + 2 + rest.len());
    assert forall|i: int| 0 <= i < n implies !is_whitespace(#[trigger] text[i]) by {
        assert(text[i] == field[i]);
    }
    assert(text[n] == ' ');
    assert(text[n + 1] == color_letter(position.turn));
    if rest.len() > 0 {
        assert(text[n + 2] == rest[0]);
    }
    lemma_skip_whitespace(text, 0, 0);
    lemma_skip_field(text, 0, n);
    lemma_skip_whitespace(text, n, n + 1);
    assert(placement(text) == field);
    assert(turn_start(text) == n + 1);
    let texts = ranks(field);
    assert forall|r: int| 0 <= r < 8 implies rank_squares(#[trigger] texts[r]) == rank_of(
        squares,
        r,
    ) by {
        lemma_rank_text(rank_of(squares, r), 0);
        assert(empty_squares(0) + rank_of(squares, r) == rank_of(squares, r));
    }
    assert(grid(texts) == squares);
}

/// Reading, writing and reading again gives what the first reading gave.
pub proof fn lemma_read_write_read(text: Seq<char>)
    ensures
        parse_fen(text) matches Ok(position) ==> parse_fen(fen_text(position)) == parse_fen(text),
{
    if let Ok(position) = parse_fen(text) {
        lemma_fen_text_parses(position, Seq::empty());
        assert(fen_text(position) + Seq::<char>::empty() == fen_text(position));
    }
}

/// Whether a square holds a piece.
pub open spec fn is_occupied() -> spec_fn(Option<ChessPiece>) -> bool {
    |square: Option<ChessPiece>| square is Some
}

/// Whether a character is a piece letter.
pub open spec fn is_piece_letter() -> spec_fn(char) -> bool {
    |c: char| letter_piece(c) is Some
}

/// The number of squares that hold a piece.
pub open spec fn occupied(squares: Seq<Option<ChessPiece>>) -> nat {
    squares.filter(is_occupied()).len()
}

/// The number of piece letters in a text.
pub open spec fn piece_letters(text: Seq<char>) -> nat {
    text.filter(is_piece_letter()).len()
}

/// One more square: one more piece if it holds one.
pub proof fn lemma_occupied_push(squares: Seq<Option<ChessPiece>>, square: Option<ChessPiece>)
    ensures
        occupied(squares.push(square)) == occupied(squares) + if square is Some {
            1nat
        } else {
            0nat
        },
{
    reveal(Seq::filter);
    assert(squares.push(square).drop_last() == squares);
}

/// One more character: one more piece letter if it is one.
pub proof fn lemma_piece_letters_push(text: Seq<char>, c: char)
    ensures
        piece_letters(text.push(c)) == piece_letters(text) + if letter_piece(c) is Some {
            1nat
        } else {
            0nat
        },
{
    reveal(Seq::filter);
    assert(text.push(c).drop_last() == text);
}

/// A piece put on an empty square is one piece more.
pub proof fn lemma_occupied_update(squares: Seq<Option<ChessPiece>>, at: int, piece: ChessPiece)
    requires
        0 <= at < squares.len(),
        squares[at] is None,
    ensures
        occupied(squares.update(at, Some(piece))) == occupied(squares) + 1,
    decreases squares.len(),
{
    let last = squares.len() - 1;
    let shorter = squares.drop_last();
    let placed = squares.update(at, Some(piece));
    if at == last {
        assert(placed == shorter.push(Some(piece)));
        assert(squares == shorter.push(None));
        lemma_occupied_push(shorter, Some(piece));
        lemma_occupied_push(shorter, None);
    } else {
        lemma_occupied_update(shorter, at, piece);
        assert(placed == shorter.update(at, Some(piece)).push(squares[last]));
        assert(squares == shorter.push(squares[last]));
        lemma_occupied_push(shorter.update(at, Some(piece)), squares[last]);
        lemma_occupied_push(shorter, squares[last]);
    }
}

/// Squares that are all empty hold no piece.
pub proof fn lemma_occupied_none(squares: Seq<Option<ChessPiece>>)
    requires
        forall|i: int| 0 <= i < squares.len() ==> squares[i] is None,
    ensures
        occupied(squares) == 0,
    decreases squares.len(),
{
    reveal(Seq::filter);
    if squares.len() > 0 {
        lemma_occupied_none(squares.drop_last());
    }
}

/// As long as no rank overflows and there are at most eight of them, the
/// board holds one piece for each piece letter of the placement.
pub proof fn lemma_grid_counts(field: Seq<char>)
    requires
        !has_overflow(ranks(field)),
        ranks(field).len() <= 8,
    ensures
        occupied(grid(ranks(field))) == piece_letters(field),
    decreases field.len(),
{
    if field.len() == 0 {
        reveal(Seq::filter);
        assert(rank_squares(ranks(field)[0]).len() == 0);
        lemma_occupied_none(grid(ranks(field)));
    } else {
        let seen = field.drop_last();
        let c = field.last();
        assert(seen.push(c) == field);
        lemma_ranks_push(seen, c);
        let rank = ranks(seen).len() - 1;
        let unrecognized = has_unrecognized(seen);
        if has_overflow(ranks(seen)) {
            let any = grid(ranks(seen));
            if c == '/' {
                lemma_scanned_slash(seen, rank, 0, unrecognized, true, any);
            } else {
                lemma_scanned_symbol(seen, c, rank, 0, unrecognized, true, any);
            }
            assert(false);
        }
        lemma_grid_counts(seen);
        let file = rank_squares(ranks(seen).last()).len() as int;
        let squares = grid(ranks(seen));
        lemma_piece_letters_push(seen, c);
        if c == '/' {
            lemma_scanned_slash(seen, rank, file, unrecognized, false, squares);
        } else {
            lemma_scanned_symbol(seen, c, rank, file, unrecognized, false, squares);
            if letter_piece(c) is Some {
                lemma_occupied_update(squares, 8 * rank + file, letter_piece(c)->0);
            }
        }
    }
}

/// Reading puts exactly one piece on the board for each piece letter of the
/// placement field.
pub proof fn lemma_parse_counts(text: Seq<char>)
    ensures
        parse_fen(text) matches Ok(position) ==> position.squares.len() == 64 && occupied(
            position.squares,
        ) == piece_letters(placement(text)),
{
    if parse_fen(text) is Ok {
        lemma_grid_counts(placement(text));
    }
}

/// A rank of eight pieces is written as their eight letters.
pub proof fn lemma_rank_text_full(squares: Seq<Option<ChessPiece>>)
    requires
        forall|i: int| 0 <= i < squares.len() ==> squares[i] is Some,
    ensures
        rank_text(squares, 0) == Seq::new(squares.len(), |i: int| piece_letter(squares[i]->0)),
    decreases squares.len(),
{
    if squares.len() > 0 {
        let rest = squares.drop_first();
        lemma_rank_text_full(rest);
        assert(gap_text(0) + seq![piece_letter(squares[0]->0)] + Seq::new(
            rest.len(),
            |i: int| piece_letter(rest[i]->0),
        ) == Seq::new(squares.len(), |i: int| piece_letter(squares[i]->0)));
    }
}

/// A run of empty squares at the end of a rank is written as one digit.
pub proof fn lemma_rank_text_empty(squares: Seq<Option<ChessPiece>>, gap: int)
    requires
        forall|i: int| 0 <= i < squares.len() ==> squares[i] is None,
    ensures
        rank_text(squares, gap) == gap_text(gap + squares.len()),
    decreases squares.len(),
{
    if squares.len() > 0 {
        lemma_rank_text_empty(squares.drop_first(), gap + 1);
    }
}

} // verus!
