//! The steps of a tick, each as a function on the board, and the tick
//! itself. A tick runs them in this order: marks, pick, drag, place, move.

use vstd::prelude::*;
use crate::board::{BoardView, ChessBoard, ChessBoardBundle, ChessBoardSquare, PrimaryButton};
use crate::layout::{
    ChessBoardLabel, ChessBoardOrientation, ChessBoardSize, CursorPosition, Sixteenths, label_at,
    tile_square, lemma_tiles_and_squares,
};
use crate::piece::sprite_index;

verus! {

/// Makes a board: each of the 64 tiles shows the square that the
/// orientation gives it, with the piece that the position has there.
pub fn spawn_board_system(bundle: &ChessBoardBundle) -> (board: ChessBoard)
    ensures
        board.wf(),
        board@ == BoardView::spawned(
            bundle.orientation.0,
            bundle.size.0 as int,
            bundle.position@,
        ),
{
    let mut squares: [ChessBoardSquare; 64] = [ChessBoardSquare { piece: None, index: 0 };64];
    let mut tile: u8 = 0;
    while tile < 64
        invariant
            tile <= 64,
            forall|t: int|
                0 <= t < tile ==> (#[trigger] squares[t]).index == tile_square(
                    bundle.orientation.0,
                    t,
                ) && squares[t].piece == bundle.position.pieces[squares[t].index as int],
        decreases 64 - tile,
    {
        let index = bundle.orientation.square_index(tile / 8, tile % 8);
        squares[tile as usize] = ChessBoardSquare {
            piece: bundle.position.pieces[index as usize],
            index,
        };
        tile += 1;
    }
    let board = ChessBoard {
        orientation: bundle.orientation,
        size: bundle.size,
        position: bundle.position,
        squares,
        interactable: [false;64],
        active: None,
        moving: false,
        drag: Sixteenths { x: 0, y: 0 },
        captured: None,
    };
    proof {
        vstd::array::axiom_spec_array_fill_for_copy_type::<bool, 64>(false);
        assert(board@.interactable =~= Seq::new(64, |tile: int| false));
    }
    board
}

/// Makes the labels of a board: for each lane its file letter above and
/// below the board and its rank digit to the right and to the left.
pub fn spawn_labels_system(orientation: &ChessBoardOrientation, size: &ChessBoardSize) -> (labels:
    Vec<ChessBoardLabel>)
    ensures
        labels@.len() == 32,
        forall|k: int|
            0 <= k < 32 ==> #[trigger] labels@[k] == label_at(orientation.0, size.0 as int, k),
{
    let mut labels: Vec<ChessBoardLabel> = Vec::new();
    let beyond: i64 = 9 * (size.0 as i64);
    let mut lane: u8 = 0;
    while lane < 8
        invariant
            lane <= 8,
            beyond == 9 * size.0,
            labels@.len() == 4 * lane,
            forall|k: int|
                0 <= k < 4 * lane ==> #[trigger] labels@[k] == label_at(
                    orientation.0,
                    size.0 as int,
                    k,
                ),
        decreases 8 - lane,
    {
        let along = size.tile_center(lane).x;
        let file = orientation.file_label(lane);
        let rank = orientation.rank_label(lane);
        labels.push(ChessBoardLabel { text: file, position: Sixteenths { x: along, y: beyond } });
        labels.push(ChessBoardLabel { text: rank, position: Sixteenths { x: beyond, y: along } });
        labels.push(ChessBoardLabel { text: file, position: Sixteenths { x: along, y: -beyond } });
        labels.push(ChessBoardLabel { text: rank, position: Sixteenths { x: -beyond, y: along } });
        lane += 1;
    }
    labels
}

/// The sprite with which a tile is drawn anew after its piece has changed:
/// the place of its piece on the sprite sheet, or none for an empty tile.
pub fn update_square_system(square: &ChessBoardSquare) -> (sprite: Option<usize>)
    ensures
        sprite == match square.piece {
            Some(piece) => Some(sprite_index(piece) as usize),
            None => None,
        },
{
    match square.piece {
        Some(piece) => Some(usize::from(piece)),
        None => None,
    }
}

/// Marks anew the tiles that may be picked: those that show a piece of the
/// side to move.
pub fn interaction_system(board: &mut ChessBoard)
    requires
        old(board).wf(),
    ensures
        final(board).wf(),
        final(board)@ == old(board)@.refreshed(),
        final(board)@.markers_current(),
{
    let mut marks: [bool; 64] = [false;64];
    let mut tile: usize = 0;
    while tile < 64
        invariant
            tile <= 64,
            board.wf(),
            *board == *old(board),
            forall|t: int| 0 <= t < tile ==> marks[t] == board@.side_to_move_on(t),
        decreases 64 - tile,
    {
        marks[tile] = match board.squares[tile].piece {
            Some(piece) => piece.color == board.position.turn,
            None => false,
        };
        tile += 1;
    }
    board.interactable = marks;
    assert(board@.interactable =~= old(board)@.refreshed().interactable);
}

/// Finds the first tile under the pointer whose mark is as wanted.
fn find_hit(board: &ChessBoard, wanted: bool, cursor: &CursorPosition) -> (hit: Option<u8>)
    ensures
        board@.first_hit(wanted, *cursor) == match hit {
            Some(tile) => Some(tile as int),
            None => None,
        },
        hit matches Some(tile) ==> tile < 64 && board@.is_hit(tile as int, wanted, *cursor),
{
    let mut tile: u8 = 0;
    while tile < 64
        invariant
            tile <= 64,
            board@.hit_from(tile as int, wanted, *cursor) == board@.first_hit(wanted, *cursor),
        decreases 64 - tile,
    {
        if board.interactable[tile as usize] == wanted && board.size.contains(tile, cursor) {
            return Some(tile);
        }
        tile += 1;
    }
    None
}

/// Picks the tile under a press, if it may be picked.
pub fn pick_system(board: &mut ChessBoard, buttons: &PrimaryButton, cursor: &CursorPosition)
    requires
        old(board).wf(),
        old(board)@.markers_current(),
    ensures
        final(board).wf(),
        final(board)@ == old(board)@.picked(*buttons, *cursor),
        final(board)@.markers_current(),
{
    if !buttons.just_pressed {
        return ;
    }
    match find_hit(board, true, cursor) {
        Some(tile) => {
            board.active = Some(tile);
            board.moving = true;
            board.drag = Sixteenths { x: 0, y: 0 };
        },
        None => {},
    }
}

/// Draws the piece that follows the pointer where the pointer is.
pub fn drag_system(board: &mut ChessBoard, buttons: &PrimaryButton, cursor: &CursorPosition)
    requires
        old(board).wf(),
    ensures
        final(board).wf(),
        final(board)@ == old(board)@.dragged(*buttons, *cursor),
{
    if !buttons.pressed || !board.moving {
        return ;
    }
    match board.active {
        Some(tile) => {
            let center = board.size.tile_center(tile);
            board.drag = Sixteenths {
                x: 16 * (cursor.x as i64) - center.x,
                y: 16 * (cursor.y as i64) - center.y,
            };
        },
        None => {},
    }
}

/// Drops the picked piece: lets it go on a release, and captures the tile
/// under the pointer if that tile may not be picked.
pub fn place_system(board: &mut ChessBoard, buttons: &PrimaryButton, cursor: &CursorPosition)
    requires
        old(board).wf(),
        old(board)@.markers_current(),
    ensures
        final(board).wf(),
        final(board)@ == old(board)@.placed(*buttons, *cursor),
        final(board)@.markers_current(),
{
    if !buttons.just_pressed && !buttons.just_released {
        return ;
    }
    if board.active.is_none() {
        return ;
    }
    if buttons.just_released {
        board.moving = false;
        board.drag = Sixteenths { x: 0, y: 0 };
    }
    match find_hit(board, false, cursor) {
        Some(tile) => {
            board.captured = Some(tile);
        },
        None => {},
    }
}

/// Makes the move: the piece of the active tile goes to the captured one,
/// and the turn passes.
pub fn move_system(board: &mut ChessBoard)
    requires
        old(board).wf(),
    ensures
        final(board).wf(),
        final(board)@ == old(board)@.moved(),
{
    let (from, to) = match (board.active, board.captured) {
        (Some(from), Some(to)) => (from as usize, to as usize),
        _ => {
            return ;
        },
    };
    proof {
        lemma_tiles_and_squares(board.orientation.0, from as int);
        lemma_tiles_and_squares(board.orientation.0, to as int);
        assert forall|tile: int| 0 <= tile < 64 implies 0 <= tile_square(
            board.orientation.0,
            tile,
        ) < 64 && (tile != from ==> tile_square(board.orientation.0, tile) != tile_square(
            board.orientation.0,
            from as int,
        )) && (tile != to ==> tile_square(board.orientation.0, tile) != tile_square(
            board.orientation.0,
            to as int,
        )) by {
            lemma_tiles_and_squares(board.orientation.0, tile);
        }
    }
    let piece = board.squares[from].piece;
    let from_square = board.squares[from].index as usize;
    let to_square = board.squares[to].index as usize;
    let mut squares = board.squares;
    squares[to] = ChessBoardSquare { piece, index: board.squares[to].index };
    squares[from] = ChessBoardSquare { piece: None, index: board.squares[from].index };
    let mut pieces = board.position.pieces;
    pieces[to_square] = piece;
    pieces[from_square] = None;
    board.squares = squares;
    board.position.pieces = pieces;
    board.position.change_turn();
    board.active = None;
    board.captured = None;
    board.moving = false;
    board.drag = Sixteenths { x: 0, y: 0 };
    assert(board@.position.squares =~= old(board)@.moved().position.squares);
}

/// One tick: the marks are set anew, then a press picks, the picked piece
/// is dragged, a press or a release places it, and the move is made.
pub fn tick(board: &mut ChessBoard, buttons: &PrimaryButton, cursor: &CursorPosition)
    requires
        old(board).wf(),
    ensures
        final(board).wf(),
        final(board)@ == old(board)@.ticked(*buttons, *cursor),
{
    interaction_system(board);
    pick_system(board, buttons, cursor);
    drag_system(board, buttons, cursor);
    place_system(board, buttons, cursor);
    move_system(board);
}

} // verus!
