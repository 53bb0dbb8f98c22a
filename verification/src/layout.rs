//! The layout of a board: which square of the position each tile shows,
//! where the tiles lie, and which tile a point falls on.
//!
//! A board of size `s` is a square of side `s` around its origin, with the
//! y axis pointing up. It is cut into 8 by 8 tiles; tile `8 * row + col`
//! lies in row `row` from the bottom and column `col` from the left. The
//! centre of a tile is `((col - 3.5) * s / 8, (row - 3.5) * s / 8)`, which
//! is a whole number of sixteenths of the unit in which `s` is given. So
//! the lengths that this module hands out are in sixteenths of that unit,
//! and nothing is rounded.

use vstd::prelude::*;
use crate::piece::PieceColor;

verus! {

/// The side whose home rank is shown at the bottom of the board.
#[derive(Clone, Copy, Debug, PartialEq, Eq, Structural)]
pub struct ChessBoardOrientation(pub PieceColor);

/// The length of the board's side, in a unit of the caller's choice.
#[derive(Clone, Copy, Debug, PartialEq, Eq, Structural)]
pub struct ChessBoardSize(pub u32);

/// Where the pointer is, relative to the origin of the board and in the
/// unit of the board's size.
#[derive(Clone, Copy, Debug, PartialEq, Eq, Structural)]
pub struct CursorPosition {
    pub x: i32,
    pub y: i32,
}

/// A point or an offset in sixteenths of the unit of the board's size.
#[derive(Clone, Copy, Debug, PartialEq, Eq, Structural)]
pub struct Sixteenths {
    pub x: i64,
    pub y: i64,
}

/// The square of the position that the tile in row `row` and column `col`
/// shows: with White at the bottom the rows are mirrored, with Black at the
/// bottom the columns are.
pub open spec fn square_index(orientation: PieceColor, row: int, col: int) -> int {
    match orientation {
        PieceColor::White => (7 - row) * 8 + col,
        PieceColor::Black => row * 8 + (7 - col),
    }
}

/// The square that tile `tile` shows.
pub open spec fn tile_square(orientation: PieceColor, tile: int) -> int {
    square_index(orientation, tile / 8, tile % 8)
}

/// The tile that shows square `square`.
pub open spec fn square_tile(orientation: PieceColor, square: int) -> int {
    match orientation {
        PieceColor::White => (7 - square / 8) * 8 + square % 8,
        PieceColor::Black => (square / 8) * 8 + (7 - square % 8),
    }
}

/// Sixteen times the distance of the middle of column or row `at` from the
/// origin of a board of size `size`.
pub open spec fn center_x16(size: int, at: int) -> int {
    (2 * at - 7) * size
}

/// Whether `at`, a coordinate of a point, lies within column or row `lane`
/// of a board of size `size`: no further from its middle than half a tile.
/// The edges count, so a point on the line between two tiles lies within
/// both.
pub open spec fn lane_contains(size: int, lane: int, at: int) -> bool {
    center_x16(size, lane) - size <= 16 * at <= center_x16(size, lane) + size
}

/// Whether the point `(x, y)` lies on tile `tile` of a board of size
/// `size`.
pub open spec fn tile_contains(size: int, tile: int, x: int, y: int) -> bool {
    lane_contains(size, tile % 8, x) && lane_contains(size, tile / 8, y)
}

/// Whether `at` lies within column or row `lane` and not on its edge.
pub open spec fn lane_holds_inside(size: int, lane: int, at: int) -> bool {
    center_x16(size, lane) - size < 16 * at < center_x16(size, lane) + size
}

/// Whether the point `(x, y)` lies on tile `tile` and not on its edge.
pub open spec fn tile_holds_inside(size: int, tile: int, x: int, y: int) -> bool {
    lane_holds_inside(size, tile % 8, x) && lane_holds_inside(size, tile / 8, y)
}

/// Whether a tile is drawn dark: the corner tile at the bottom left is, and
/// the colours alternate from there.
pub open spec fn tile_is_dark(row: int, col: int) -> bool {
    (row + col) % 2 == 0
}

/// Whether a square of the position is drawn dark, whatever the
/// orientation of the board that shows it.
pub open spec fn square_is_dark(square: int) -> bool {
    (square / 8 + square % 8) % 2 == 1
}

impl Default for ChessBoardOrientation {
    fn default() -> (orientation: ChessBoardOrientation)
        ensures
            orientation.0 == PieceColor::White,
    {
        ChessBoardOrientation(PieceColor::White)
    }
}

impl Default for ChessBoardSize {
    fn default() -> (size: ChessBoardSize)
        ensures
            size.0 == 0,
    {
        ChessBoardSize(0)
    }
}

impl ChessBoardOrientation {
    /// The square of the position that the tile in row `row` and column
    /// `col` shows.
    pub fn square_index(&self, row: u8, col: u8) -> (square: u8)
        requires
            row < 8,
            col < 8,
        ensures
            square == square_index(self.0, row as int, col as int),
            square < 64,
    {
        match self.0 {
            PieceColor::White => (7 - row) * 8 + col,
            PieceColor::Black => row * 8 + (7 - col),
        }
    }

    /// The tile that shows square `square`.
    pub fn tile_of(&self, square: u8) -> (tile: u8)
        requires
            square < 64,
        ensures
            tile == square_tile(self.0, square as int),
            tile < 64,
            tile_square(self.0, tile as int) == square,
    {
        match self.0 {
            PieceColor::White => (7 - square / 8) * 8 + square % 8,
            PieceColor::Black => (square / 8) * 8 + (7 - square % 8),
        }
    }
}

impl ChessBoardSize {
    /// The centre of tile `tile`, in sixteenths.
    pub fn tile_center(&self, tile: u8) -> (center: Sixteenths)
        requires
            tile < 64,
        ensures
            center.x == center_x16(self.0 as int, tile as int % 8),
            center.y == center_x16(self.0 as int, tile as int / 8),
            -7 * self.0 <= center.x <= 7 * self.0,
            -7 * self.0 <= center.y <= 7 * self.0,
    {
        let size: i64 = self.0 as i64;
        let col: i64 = (tile % 8) as i64;
        let row: i64 = (tile / 8) as i64;
        assert(-7 * size <= (2 * col - 7) * size <= 7 * size) by (nonlinear_arith)
            requires
                0 <= col < 8,
                0 <= size,
        ;
        assert(-7 * size <= (2 * row - 7) * size <= 7 * size) by (nonlinear_arith)
            requires
                0 <= row < 8,
                0 <= size,
        ;
        Sixteenths { x: (2 * col - 7) * size, y: (2 * row - 7) * size }
    }

    /// Whether the pointer lies on tile `tile`, edges included.
    pub fn contains(&self, tile: u8, cursor: &CursorPosition) -> (hit: bool)
        requires
            tile < 64,
        ensures
            hit == tile_contains(self.0 as int, tile as int, cursor.x as int, cursor.y as int),
    {
        let size: i64 = self.0 as i64;
        let center = self.tile_center(tile);
        let x: i64 = 16 * (cursor.x as i64);
        let y: i64 = 16 * (cursor.y as i64);
        center.x - size <= x && x <= center.x + size && center.y - size <= y && y <= center.y
            + size
    }
}

/// Whether the tile in row `row` and column `col` is drawn dark.
pub fn is_dark_tile(row: u8, col: u8) -> (dark: bool)
    requires
        row < 8,
        col < 8,
    ensures
        dark == tile_is_dark(row as int, col as int),
{
    (row + col) % 2 == 0
}

/// Whether square `square` of the position is drawn dark.
pub fn is_dark_square(square: u8) -> (dark: bool)
    ensures
        dark == square_is_dark(square as int),
{
    (square / 8 + square % 8) % 2 == 1
}

/// The letter of the file that column `col` shows: `A` to `H` from the left
/// with White at the bottom, from the right with Black at the bottom.
pub open spec fn file_label(orientation: PieceColor, col: int) -> char {
    match orientation {
        PieceColor::White => ('A' as u32 + col) as char,
        PieceColor::Black => ('H' as u32 - col) as char,
    }
}

/// The digit of the rank that row `row` shows: `1` to `8` from the bottom
/// with White at the bottom, from the top with Black at the bottom.
pub open spec fn rank_label(orientation: PieceColor, row: int) -> char {
    match orientation {
        PieceColor::White => ('1' as u32 + row) as char,
        PieceColor::Black => ('8' as u32 - row) as char,
    }
}

/// A letter or digit beside the board, and where its middle lies.
#[derive(Clone, Copy, Debug, PartialEq, Eq, Structural)]
pub struct ChessBoardLabel {
    pub text: char,
    pub position: Sixteenths,
}

/// The labels of a board, in the order in which they are made. Each lane
/// has four: its file letter above and below the board, half a tile beyond
/// the edge, and its rank digit to the right and to the left. Label
/// `4 * lane` is the letter above, the next the digit to the right, then
/// the letter below and the digit to the left.
pub open spec fn label_at(orientation: PieceColor, size: int, k: int) -> ChessBoardLabel {
    let lane = k / 4;
    let along = center_x16(size, lane);
    let beyond = if k % 4 < 2 {
        9 * size
    } else {
        -9 * size
    };
    if k % 2 == 0 {
        ChessBoardLabel {
            text: file_label(orientation, lane),
            position: Sixteenths { x: along as i64, y: beyond as i64 },
        }
    } else {
        ChessBoardLabel {
            text: rank_label(orientation, lane),
            position: Sixteenths { x: beyond as i64, y: along as i64 },
        }
    }
}

impl ChessBoardOrientation {
    /// The letter of the file that column `col` shows.
    pub fn file_label(&self, col: u8) -> (letter: char)
        requires
            col < 8,
        ensures
            letter == file_label(self.0, col as int),
    {
        let at = match self.0 {
            PieceColor::White => col,
            PieceColor::Black => 7 - col,
        };
        match at {
            0 => 'A',
            1 => 'B',
            2 => 'C',
            3 => 'D',
            4 => 'E',
            5 => 'F',
            6 => 'G',
            _ => 'H',
        }
    }

    /// The digit of the rank that row `row` shows.
    pub fn rank_label(&self, row: u8) -> (digit: char)
        requires
            row < 8,
        ensures
            digit == rank_label(self.0, row as int),
    {
        let at = match self.0 {
            PieceColor::White => row,
            PieceColor::Black => 7 - row,
        };
        match at {
            0 => '1',
            1 => '2',
            2 => '3',
            3 => '4',
            4 => '5',
            5 => '6',
            6 => '7',
            _ => '8',
        }
    }
}

/// Each orientation shows every square on exactly one tile: the way from
/// tile to square and the way back undo each other.
pub proof fn lemma_tiles_and_squares(orientation: PieceColor, at: int)
    requires
        0 <= at < 64,
    ensures
        0 <= tile_square(orientation, at) < 64,
        0 <= square_tile(orientation, at) < 64,
        square_tile(orientation, tile_square(orientation, at)) == at,
        tile_square(orientation, square_tile(orientation, at)) == at,
{
}

/// No orientation shows one square on two tiles.
pub proof fn lemma_square_index_injective(
    orientation: PieceColor,
    row: int,
    col: int,
    other_row: int,
    other_col: int,
)
    requires
        0 <= row < 8,
        0 <= col < 8,
        0 <= other_row < 8,
        0 <= other_col < 8,
        square_index(orientation, row, col) == square_index(orientation, other_row, other_col),
    ensures
        row == other_row,
        col == other_col,
{
}

/// Every square is shown by some tile, under each orientation.
pub proof fn lemma_square_index_surjective(orientation: PieceColor, square: int)
    requires
        0 <= square < 64,
    ensures
        exists|row: int, col: int|
            0 <= row < 8 && 0 <= col < 8 && #[trigger] square_index(orientation, row, col)
                == square,
{
    let tile = square_tile(orientation, square);
    assert(square_index(orientation, tile / 8, tile % 8) == square);
}

/// Turning the board round shows the same square on the opposite tile.
pub proof fn lemma_orientations_mirror(row: int, col: int)
    requires
        0 <= row < 8,
        0 <= col < 8,
    ensures
        square_index(PieceColor::White, row, col) == square_index(
            PieceColor::Black,
            7 - row,
            7 - col,
        ),
        0 <= square_index(PieceColor::White, row, col) < 64,
{
}

/// A square is drawn in the same colour whichever way the board is turned.
pub proof fn lemma_square_color(orientation: PieceColor, row: int, col: int)
    requires
        0 <= row < 8,
        0 <= col < 8,
    ensures
        square_is_dark(square_index(orientation, row, col)) == tile_is_dark(row, col),
{
}

/// The tiles cover the board and no more: a point on a tile is no further
/// from the origin than half the board's side, along either axis.
pub proof fn lemma_tiles_lie_on_the_board(size: int, tile: int, x: int, y: int)
    requires
        0 <= size,
        0 <= tile < 64,
        tile_contains(size, tile, x, y),
    ensures
        -size <= 2 * x <= size,
        -size <= 2 * y <= size,
{
    lemma_lane_lies_on_the_board(size, tile % 8, x);
    lemma_lane_lies_on_the_board(size, tile / 8, y);
}

/// A column or row lies between the edges of the board.
pub proof fn lemma_lane_lies_on_the_board(size: int, lane: int, at: int)
    requires
        0 <= size,
        0 <= lane < 8,
        lane_contains(size, lane, at),
    ensures
        -size <= 2 * at <= size,
{
    assert(-7 * size <= (2 * lane - 7) * size <= 7 * size) by (nonlinear_arith)
        requires
            0 <= size,
            0 <= lane < 8,
    ;
}

/// A point within the board lies on some tile.
pub proof fn lemma_board_is_covered(size: int, x: int, y: int)
    requires
        0 <= size,
        -size <= 2 * x <= size,
        -size <= 2 * y <= size,
    ensures
        exists|tile: int| 0 <= tile < 64 && #[trigger] tile_contains(size, tile, x, y),
{
    let col = lemma_lane_exists(size, x);
    let row = lemma_lane_exists(size, y);
    let tile = 8 * row + col;
    assert(tile % 8 == col && tile / 8 == row);
    assert(tile_contains(size, tile, x, y));
}

/// A coordinate between the edges of the board lies within some column or
/// row.
pub proof fn lemma_lane_exists(size: int, at: int) -> (lane: int)
    requires
        0 <= size,
        -size <= 2 * at <= size,
    ensures
        0 <= lane < 8,
        lane_contains(size, lane, at),
{
    assert((2 * 0 - 7) * size - size == -8 * size) by (nonlinear_arith);
    lemma_lane_from(size, at, 0)
}

/// A coordinate that lies at or beyond the lower edge of column or row
/// `from`, and within the board, lies within that column or row or a later
/// one.
proof fn lemma_lane_from(size: int, at: int, from: int) -> (lane: int)
    requires
        0 <= size,
        2 * at <= size,
        0 <= from < 8,
        center_x16(size, from) - size <= 16 * at,
    ensures
        from <= lane < 8,
        lane_contains(size, lane, at),
    decreases 8 - from,
{
    assert((2 * from - 7) * size + size == (2 * (from + 1) - 7) * size - size)
        by (nonlinear_arith);
    if from == 7 {
        assert((2 * from - 7) * size + size == 8 * size) by (nonlinear_arith)
            requires
                from == 7,
        ;
        from
    } else if 16 * at <= center_x16(size, from) + size {
        from
    } else {
        lemma_lane_from(size, at, from + 1)
    }
}

/// A coordinate within one column or row, and not on its edge, lies within
/// no other.
pub proof fn lemma_lanes_overlap_on_edges_only(size: int, lane: int, other: int, at: int)
    requires
        0 <= size,
        0 <= lane < 8,
        0 <= other < 8,
        lane != other,
        lane_holds_inside(size, lane, at),
    ensures
        !lane_contains(size, other, at),
{
    assert((2 * lane - 7) * size - size == (2 * lane - 8) * size) by (nonlinear_arith);
    assert((2 * lane - 7) * size + size == (2 * lane - 6) * size) by (nonlinear_arith);
    assert((2 * other - 7) * size - size == (2 * other - 8) * size) by (nonlinear_arith);
    assert((2 * other - 7) * size + size == (2 * other - 6) * size) by (nonlinear_arith);
    if other > lane {
        assert((2 * other - 8) * size >= (2 * lane - 6) * size) by (nonlinear_arith)
            requires
                other >= lane + 1,
                0 <= size,
        ;
    } else {
        assert((2 * other - 6) * size <= (2 * lane - 8) * size) by (nonlinear_arith)
            requires
                other + 1 <= lane,
                0 <= size,
        ;
    }
}

/// Tiles overlap on their edges only: a point on a tile, and not on its
/// edge, lies on no other tile.
pub proof fn lemma_tiles_overlap_on_edges_only(size: int, tile: int, other: int, x: int, y: int)
    requires
        0 <= size,
        0 <= tile < 64,
        0 <= other < 64,
        tile != other,
        tile_holds_inside(size, tile, x, y),
    ensures
        tile_contains(size, tile, x, y),
        !tile_contains(size, other, x, y),
{
    if tile % 8 != other % 8 {
        lemma_lanes_overlap_on_edges_only(size, tile % 8, other % 8, x);
    } else {
        lemma_lanes_overlap_on_edges_only(size, tile / 8, other / 8, y);
    }
}

} // verus!
