//! What holds of the pick, drag and drop protocol, whatever the board and
//! wherever the pointer is.

use vstd::prelude::*;
use crate::board::{BoardView, PrimaryButton, SquareMarker, position_after_move};
use crate::fen::PositionView;
use crate::layout::{
    CursorPosition, tile_square, tile_contains, tile_holds_inside,
    lemma_tiles_overlap_on_edges_only, lemma_tiles_lie_on_the_board,
};

verus! {

/// A move changes two squares and the turn, and nothing else: the square
/// that the piece leaves is empty, the square that it reaches holds it,
/// every other square holds what it held, and the turn goes to the other
/// side, from which a second move brings it back.
pub proof fn lemma_move_changes_two_squares(position: PositionView, from: int, to: int)
    requires
        position.squares.len() == 64,
        0 <= from < 64,
        0 <= to < 64,
        from != to,
    ensures
        position_after_move(position, from, to).squares.len() == 64,
        position_after_move(position, from, to).squares[from] is None,
        position_after_move(position, from, to).squares[to] == position.squares[from],
        forall|other: int|
            0 <= other < 64 && other != from && other != to ==> position_after_move(
                position,
                from,
                to,
            ).squares[other] == position.squares[other],
        position_after_move(position, from, to).turn != position.turn,
        position_after_move(position_after_move(position, from, to), to, from).turn
            == position.turn,
{
}

/// At most one tile is active and at most one is captured; the active tile
/// is the one that was picked.
pub proof fn lemma_one_active_one_captured(view: BoardView, tile: int, other: int)
    ensures
        view.marker(tile) == SquareMarker::Active && view.marker(other) == SquareMarker::Active
            ==> tile == other,
        view.marker(tile) == SquareMarker::Captured && view.marker(other)
            == SquareMarker::Captured ==> tile == other,
        view.marker(tile) == SquareMarker::Active <==> view.active == Some(tile),
{
}

/// The search for a hit finds the first tile that is hit, counted from
/// where it begins, and finds none only where none is hit.
pub proof fn lemma_hit_from(view: BoardView, from: int, wanted: bool, cursor: CursorPosition)
    requires
        0 <= from <= 64,
    ensures
        match view.hit_from(from, wanted, cursor) {
            Some(tile) => from <= tile < 64 && view.is_hit(tile, wanted, cursor) && forall|
                other: int,
            |
                from <= other < tile ==> !view.is_hit(other, wanted, cursor),
            None => forall|other: int| from <= other < 64 ==> !view.is_hit(other, wanted, cursor),
        },
    decreases 64 - from,
{
    if from < 64 && !view.is_hit(from, wanted, cursor) {
        lemma_hit_from(view, from + 1, wanted, cursor);
    }
}

/// A press or a release falls on the first tile, in the order of the
/// tiles, that lies under the pointer and has the mark that is wanted; and
/// on none only where no such tile lies under the pointer.
pub proof fn lemma_first_hit(view: BoardView, wanted: bool, cursor: CursorPosition)
    ensures
        match view.first_hit(wanted, cursor) {
            Some(tile) => 0 <= tile < 64 && view.is_hit(tile, wanted, cursor) && forall|
                other: int,
            |
                0 <= other < tile ==> !view.is_hit(other, wanted, cursor),
            None => forall|other: int| 0 <= other < 64 ==> !view.is_hit(other, wanted, cursor),
        },
{
    lemma_hit_from(view, 0, wanted, cursor);
}

/// A press or a release within a tile, and not on its edge, falls on that
/// tile if its mark is as wanted, and else on none.
pub proof fn lemma_hit_inside(view: BoardView, tile: int, wanted: bool, cursor: CursorPosition)
    requires
        0 <= view.size,
        0 <= tile < 64,
        tile_holds_inside(view.size, tile, cursor.x as int, cursor.y as int),
    ensures
        view.first_hit(wanted, cursor) == if view.interactable[tile] == wanted {
            Some(tile)
        } else {
            None
        },
{
    lemma_first_hit(view, wanted, cursor);
    assert forall|other: int| 0 <= other < 64 && other != tile implies !view.is_hit(
        other,
        wanted,
        cursor,
    ) by {
        lemma_tiles_overlap_on_edges_only(
            view.size,
            tile,
            other,
            cursor.x as int,
            cursor.y as int,
        );
    }
    lemma_tiles_overlap_on_edges_only(
        view.size,
        tile,
        if tile == 0 {
            1
        } else {
            0
        },
        cursor.x as int,
        cursor.y as int,
    );
    assert(view.is_hit(tile, wanted, cursor) == (view.interactable[tile] == wanted));
}

/// A press or a release beside the board falls on no tile.
pub proof fn lemma_hit_beside(view: BoardView, wanted: bool, cursor: CursorPosition)
    requires
        0 <= view.size,
        !(-view.size <= 2 * cursor.x <= view.size && -view.size <= 2 * cursor.y <= view.size),
    ensures
        view.first_hit(wanted, cursor) is None,
{
    lemma_first_hit(view, wanted, cursor);
    if let Some(tile) = view.first_hit(wanted, cursor) {
        lemma_tiles_lie_on_the_board(view.size, tile, cursor.x as int, cursor.y as int);
    }
}

/// Where a press or a release falls depends on the marks and on the size
/// of the board alone.
pub proof fn lemma_hit_same_marks(
    view: BoardView,
    other: BoardView,
    from: int,
    wanted: bool,
    cursor: CursorPosition,
)
    requires
        0 <= from <= 64,
        view.interactable == other.interactable,
        view.size == other.size,
    ensures
        view.hit_from(from, wanted, cursor) == other.hit_from(from, wanted, cursor),
    decreases 64 - from,
{
    if from < 64 {
        lemma_hit_same_marks(view, other, from + 1, wanted, cursor);
    }
}

/// Marking anew keeps the board well formed and makes the marks agree with
/// the position.
pub proof fn lemma_refreshed(view: BoardView)
    requires
        view.wf(),
    ensures
        view.refreshed().wf(),
        view.refreshed().markers_current(),
{
    let marked = view.refreshed();
    assert forall|tile: int| 0 <= tile < 64 implies marked.side_to_move_on(tile)
        == view.side_to_move_on(tile) by {}
}

/// Picking keeps the board well formed.
pub proof fn lemma_picked(view: BoardView, buttons: PrimaryButton, cursor: CursorPosition)
    requires
        view.wf(),
        view.markers_current(),
    ensures
        view.picked(buttons, cursor).wf(),
        view.picked(buttons, cursor).markers_current(),
{
    lemma_first_hit(view, true, cursor);
    let picked = view.picked(buttons, cursor);
    assert forall|tile: int| 0 <= tile < 64 implies picked.side_to_move_on(tile)
        == view.side_to_move_on(tile) by {}
}

/// Dragging keeps the board well formed.
pub proof fn lemma_dragged(view: BoardView, buttons: PrimaryButton, cursor: CursorPosition)
    requires
        view.wf(),
    ensures
        view.dragged(buttons, cursor).wf(),
        view.markers_current() ==> view.dragged(buttons, cursor).markers_current(),
{
    let dragged = view.dragged(buttons, cursor);
    assert forall|tile: int| 0 <= tile < 64 implies dragged.side_to_move_on(tile)
        == view.side_to_move_on(tile) by {}
}

/// Placing keeps the board well formed.
pub proof fn lemma_placed(view: BoardView, buttons: PrimaryButton, cursor: CursorPosition)
    requires
        view.wf(),
        view.markers_current(),
    ensures
        view.placed(buttons, cursor).wf(),
        view.placed(buttons, cursor).markers_current(),
{
    let let_go = if buttons.just_released {
        view.released()
    } else {
        view
    };
    lemma_first_hit(let_go, false, cursor);
    let placed = view.placed(buttons, cursor);
    assert forall|tile: int| 0 <= tile < 64 implies placed.side_to_move_on(tile)
        == view.side_to_move_on(tile) && let_go.side_to_move_on(tile) == view.side_to_move_on(
        tile,
    ) by {}
}

/// Moving keeps the board well formed and leaves no tile active or
/// captured where one was captured.
pub proof fn lemma_moved(view: BoardView)
    requires
        view.wf(),
    ensures
        view.moved().wf(),
        view.moved().captured is None,
        view.captured is None ==> view.moved() == view,
{
}

/// A tick keeps the board well formed, and after it no tile is captured.
pub proof fn lemma_ticked(view: BoardView, buttons: PrimaryButton, cursor: CursorPosition)
    requires
        view.wf(),
    ensures
        view.ticked(buttons, cursor).wf(),
        view.ticked(buttons, cursor).captured is None,
{
    let marked = view.refreshed();
    lemma_refreshed(view);
    let picked = marked.picked(buttons, cursor);
    lemma_picked(marked, buttons, cursor);
    let dragged = picked.dragged(buttons, cursor);
    lemma_dragged(picked, buttons, cursor);
    let placed = dragged.placed(buttons, cursor);
    lemma_placed(dragged, buttons, cursor);
    lemma_moved(placed);
}

/// A tile that does not show a piece of the side to move is never picked:
/// no press, wherever it falls, makes it the active tile.
pub proof fn lemma_pick_needs_turn(
    view: BoardView,
    buttons: PrimaryButton,
    cursor: CursorPosition,
    tile: int,
)
    requires
        view.wf(),
        0 <= tile < 64,
        !view.side_to_move_on(tile),
    ensures
        view.refreshed().picked(buttons, cursor).active != Some(tile),
        view.markers_current() ==> view.picked(buttons, cursor).active != Some(tile),
        view.ticked(buttons, cursor).active != Some(tile),
{
    lemma_refreshed(view);
    lemma_ticked(view, buttons, cursor);
    lemma_first_hit(view, true, cursor);
    lemma_first_hit(view.refreshed(), true, cursor);
}

/// Of two presses the later one decides: where it falls on a tile that may
/// be picked, the board is as if the earlier press had not been.
pub proof fn lemma_last_pick_wins(
    view: BoardView,
    buttons: PrimaryButton,
    first: CursorPosition,
    second: CursorPosition,
)
    requires
        buttons.just_pressed,
        view.first_hit(true, second) is Some,
    ensures
        view.picked(buttons, first).picked(buttons, second) == view.picked(buttons, second),
        view.picked(buttons, first).picked(buttons, second).active == view.first_hit(
            true,
            second,
        ),
{
    lemma_hit_same_marks(view, view.picked(buttons, first), 0, true, second);
}

/// The two tiles between which a tick makes a move, if it makes one: the
/// active and the captured tile as they are after placing.
pub open spec fn tick_move(view: BoardView, buttons: PrimaryButton, cursor: CursorPosition)
    -> Option<(int, int)> {
    let placed = view.refreshed().picked(buttons, cursor).dragged(buttons, cursor).placed(
        buttons,
        cursor,
    );
    match (placed.active, placed.captured) {
        (Some(from), Some(to)) => Some((from, to)),
        _ => None,
    }
}

/// A tick makes one move or none. Where it makes one, a piece of the side
/// to move goes from its tile to another tile that shows no piece of that
/// side and lies under the pointer, at a press or a release; what stood
/// there is gone, the turn passes and no other square changes. Where it
/// makes none, the position stays as it is.
pub proof fn lemma_tick_position(view: BoardView, buttons: PrimaryButton, cursor: CursorPosition)
    requires
        view.wf(),
        view.captured is None,
    ensures
        match tick_move(view, buttons, cursor) {
            Some((from, to)) => {
                &&& 0 <= from < 64
                &&& 0 <= to < 64
                &&& from != to
                &&& view.side_to_move_on(from)
                &&& !view.side_to_move_on(to)
                &&& tile_contains(view.size, to, cursor.x as int, cursor.y as int)
                &&& buttons.just_pressed || buttons.just_released
                &&& view.ticked(buttons, cursor).position == position_after_move(
                    view.position,
                    tile_square(view.orientation, from),
                    tile_square(view.orientation, to),
                )
                &&& view.ticked(buttons, cursor).active is None
                &&& !view.ticked(buttons, cursor).moving
            },
            None => view.ticked(buttons, cursor).position == view.position,
        },
{
    let marked = view.refreshed();
    lemma_refreshed(view);
    let picked = marked.picked(buttons, cursor);
    lemma_picked(marked, buttons, cursor);
    let dragged = picked.dragged(buttons, cursor);
    lemma_dragged(picked, buttons, cursor);
    let placed = dragged.placed(buttons, cursor);
    lemma_placed(dragged, buttons, cursor);
    lemma_moved(placed);
    let let_go = if buttons.just_released {
        dragged.released()
    } else {
        dragged
    };
    lemma_first_hit(let_go, false, cursor);
}

/// A drop on a tile that shows a piece of the side to move, or beside the
/// board, is no move: where every tile under the pointer shows such a
/// piece, a tick leaves the position as it is.
pub proof fn lemma_drop_needs_target(
    view: BoardView,
    buttons: PrimaryButton,
    cursor: CursorPosition,
)
    requires
        view.wf(),
        view.captured is None,
        forall|tile: int|
            0 <= tile < 64 && tile_contains(view.size, tile, cursor.x as int, cursor.y as int)
                ==> #[trigger] view.side_to_move_on(tile),
    ensures
        view.ticked(buttons, cursor).position == view.position,
{
    lemma_tick_position(view, buttons, cursor);
}

/// Without a press or a release no move is made.
pub proof fn lemma_move_needs_edge(view: BoardView, buttons: PrimaryButton, cursor: CursorPosition)
    requires
        view.wf(),
        view.captured is None,
        !buttons.just_pressed,
        !buttons.just_released,
    ensures
        view.ticked(buttons, cursor).position == view.position,
{
    lemma_tick_position(view, buttons, cursor);
}

/// A picked piece that is released on a tile that shows no piece of the
/// side to move goes there: the tile under the pointer, the first one if
/// the pointer is on a line between tiles, gets the piece.
pub proof fn lemma_drop_moves(
    view: BoardView,
    buttons: PrimaryButton,
    cursor: CursorPosition,
    from: int,
    to: int,
)
    requires
        view.wf(),
        view.captured is None,
        view.active == Some(from),
        !buttons.just_pressed,
        buttons.just_released,
        view.refreshed().first_hit(false, cursor) == Some(to),
    ensures
        view.ticked(buttons, cursor).position == position_after_move(
            view.position,
            tile_square(view.orientation, from),
            tile_square(view.orientation, to),
        ),
        view.ticked(buttons, cursor).active is None,
        view.ticked(buttons, cursor).captured is None,
        !view.ticked(buttons, cursor).moving,
{
    let marked = view.refreshed();
    let dragged = marked.picked(buttons, cursor).dragged(buttons, cursor);
    lemma_hit_same_marks(marked, dragged.released(), 0, false, cursor);
}

} // verus!
