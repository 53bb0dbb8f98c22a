//! A board in play: the position, the tiles that show it, and the marks of
//! the pick, drag and drop protocol.
//!
//! The protocol is stated here on [`BoardView`], the board as a
//! mathematical value: one function for each step of a tick, and
//! [`BoardView::ticked`] for the tick as a whole.

use vstd::prelude::*;
use crate::fen::PositionView;
use crate::layout::{
    ChessBoardOrientation, ChessBoardSize, CursorPosition, Sixteenths, tile_square, tile_contains,
    center_x16,
};
use crate::piece::{ChessPiece, PieceColor};
use crate::position::{ChessBoardPosition, starting_position};

pub mod laws;

verus! {

/// What one tile shows: a square of the position and, as a copy for the
/// renderer, the piece on it.
#[derive(Clone, Copy, Debug, PartialEq, Eq, Structural)]
pub struct ChessBoardSquare {
    pub piece: Option<ChessPiece>,
    pub index: u8,
}

/// What a board is made from.
#[derive(Clone, Copy, Debug, PartialEq, Eq)]
pub struct ChessBoardBundle {
    pub size: ChessBoardSize,
    pub orientation: ChessBoardOrientation,
    pub position: ChessBoardPosition,
}

impl Default for ChessBoardSquare {
    fn default() -> (square: ChessBoardSquare)
        ensures
            square.piece is None,
            square.index == 0,
    {
        ChessBoardSquare { piece: None, index: 0 }
    }
}

impl Default for ChessBoardBundle {
    /// A board of size 0 with White at the bottom, in the starting
    /// position with White to move.
    fn default() -> (bundle: ChessBoardBundle)
        ensures
            bundle.size.0 == 0,
            bundle.orientation.0 == PieceColor::White,
            bundle.position@ == starting_position(PieceColor::White),
    {
        ChessBoardBundle {
            size: ChessBoardSize(0),
            orientation: ChessBoardOrientation(PieceColor::White),
            position: ChessBoardPosition::default(),
        }
    }
}

/// The mark that a tile carries. A tile carries one mark at most: the
/// active tile is among those that may be picked, and the captured tile is
/// not.
#[derive(Clone, Copy, Debug, PartialEq, Eq, Structural)]
pub enum SquareMarker {
    /// No mark.
    Plain,
    /// The tile holds a piece of the side to move and may be picked.
    Interactable,
    /// The tile that was picked.
    Active,
    /// The tile on which the picked piece was dropped.
    Captured,
}

/// The state of the primary pointer button at one tick.
#[derive(Clone, Copy, Debug, PartialEq, Eq, Structural)]
pub struct PrimaryButton {
    /// The button went down at this tick.
    pub just_pressed: bool,
    /// The button went up at this tick.
    pub just_released: bool,
    /// The button is down.
    pub pressed: bool,
}

/// A board in play. Its fields are read through its methods and changed by
/// the systems alone, which keep it well formed.
#[derive(Clone, Copy, Debug, PartialEq, Eq)]
pub struct ChessBoard {
    pub(crate) orientation: ChessBoardOrientation,
    pub(crate) size: ChessBoardSize,
    pub(crate) position: ChessBoardPosition,
    pub(crate) squares: [ChessBoardSquare; 64],
    pub(crate) interactable: [bool; 64],
    pub(crate) active: Option<u8>,
    pub(crate) moving: bool,
    pub(crate) drag: Sixteenths,
    pub(crate) captured: Option<u8>,
}

/// A board as a mathematical value.
pub struct BoardView {
    /// The side shown at the bottom.
    pub orientation: PieceColor,
    /// The length of the board's side.
    pub size: int,
    /// The position.
    pub position: PositionView,
    /// For each tile, whether it is marked as one that may be picked.
    pub interactable: Seq<bool>,
    /// The tile that was picked, if one is.
    pub active: Option<int>,
    /// Whether the piece of the active tile follows the pointer.
    pub moving: bool,
    /// How far that piece is drawn from the centre of its tile, in
    /// sixteenths.
    pub drag: (int, int),
    /// The tile on which the piece was dropped, until the move is made.
    pub captured: Option<int>,
}

/// The position after the piece on square `from` has gone to square `to`:
/// what stood on `to` is gone, `from` is empty, and the turn has passed.
pub open spec fn position_after_move(position: PositionView, from: int, to: int) -> PositionView {
    PositionView {
        squares: position.squares.update(to, position.squares[from]).update(from, None),
        turn: position.turn.spec_opposite(),
    }
}

impl BoardView {
    /// The piece that tile `tile` shows.
    pub open spec fn piece_on(self, tile: int) -> Option<ChessPiece> {
        self.position.squares[tile_square(self.orientation, tile)]
    }

    /// Whether tile `tile` shows a piece of the side to move.
    pub open spec fn side_to_move_on(self, tile: int) -> bool {
        self.piece_on(tile) matches Some(piece) && piece.color == self.position.turn
    }

    /// What holds of every board between the steps of a tick: the active
    /// tile shows a piece of the side to move, the captured tile does not
    /// and is there only beside an active tile, and only the piece of an
    /// active tile follows the pointer.
    pub open spec fn wf(self) -> bool {
        &&& self.position.squares.len() == 64
        &&& self.interactable.len() == 64
        &&& 0 <= self.size <= u32::MAX
        &&& self.active matches Some(tile) ==> 0 <= tile < 64 && self.side_to_move_on(tile)
        &&& self.captured matches Some(tile) ==> 0 <= tile < 64 && self.active is Some
            && !self.side_to_move_on(tile)
        &&& self.moving ==> self.active is Some
        &&& !self.moving ==> self.drag == (0int, 0int)
    }

    /// Whether the marks agree with the position: a tile is marked as one
    /// that may be picked exactly if it shows a piece of the side to move.
    pub open spec fn markers_current(self) -> bool {
        forall|tile: int|
            #![trigger self.interactable[tile]]
            #![trigger self.side_to_move_on(tile)]
            0 <= tile < 64 ==> self.interactable[tile] == self.side_to_move_on(tile)
    }

    /// The mark of tile `tile`.
    pub open spec fn marker(self, tile: int) -> SquareMarker {
        if self.active == Some(tile) {
            SquareMarker::Active
        } else if self.captured == Some(tile) {
            SquareMarker::Captured
        } else if self.interactable[tile] {
            SquareMarker::Interactable
        } else {
            SquareMarker::Plain
        }
    }

    /// Whether the pointer lies on tile `tile` and the tile's mark is as
    /// wanted: one that may be picked, or one that may not.
    pub open spec fn is_hit(self, tile: int, wanted: bool, cursor: CursorPosition) -> bool {
        self.interactable[tile] == wanted && tile_contains(
            self.size,
            tile,
            cursor.x as int,
            cursor.y as int,
        )
    }

    /// The first tile from `from` on that is hit.
    pub open spec fn hit_from(self, from: int, wanted: bool, cursor: CursorPosition) -> Option<
        int,
    >
        decreases 64 - from,
    {
        if from < 0 || from >= 64 {
            None
        } else if self.is_hit(from, wanted, cursor) {
            Some(from)
        } else {
            self.hit_from(from + 1, wanted, cursor)
        }
    }

    /// The tile that a press or a release at `cursor` falls on, among those
    /// whose mark is as wanted: the first of them in the order of the
    /// tiles, from the bottom row up and in each row from the left.
    pub open spec fn first_hit(self, wanted: bool, cursor: CursorPosition) -> Option<int> {
        self.hit_from(0, wanted, cursor)
    }

    /// A board as it is made: no tile is marked, none active or captured,
    /// no piece follows the pointer.
    pub open spec fn spawned(orientation: PieceColor, size: int, position: PositionView)
        -> BoardView {
        BoardView {
            orientation,
            size,
            position,
            interactable: Seq::new(64, |tile: int| false),
            active: None,
            moving: false,
            drag: (0int, 0int),
            captured: None,
        }
    }

    /// The first step of a tick: each tile is marked anew as one that may
    /// be picked or may not.
    pub open spec fn refreshed(self) -> BoardView {
        BoardView { interactable: Seq::new(64, |tile: int| self.side_to_move_on(tile)), ..self }
    }

    /// Picking: on a press that falls on a tile that may be picked, that
    /// tile becomes the active one in place of any other, and its piece
    /// begins to follow the pointer. Any other press changes nothing.
    pub open spec fn picked(self, buttons: PrimaryButton, cursor: CursorPosition) -> BoardView {
        if !buttons.just_pressed {
            self
        } else {
            match self.first_hit(true, cursor) {
                Some(tile) => BoardView {
                    active: Some(tile),
                    moving: true,
                    drag: (0int, 0int),
                    ..self
                },
                None => self,
            }
        }
    }

    /// Dragging: while the button is down, the piece that follows the
    /// pointer is drawn where the pointer is.
    pub open spec fn dragged(self, buttons: PrimaryButton, cursor: CursorPosition) -> BoardView {
        if buttons.pressed && self.moving && self.active is Some {
            let tile = self.active->0;
            BoardView {
                drag: (
                    16 * cursor.x - center_x16(self.size, tile % 8),
                    16 * cursor.y - center_x16(self.size, tile / 8),
                ),
                ..self
            }
        } else {
            self
        }
    }

    /// The piece no longer follows the pointer and is drawn on its tile.
    pub open spec fn released(self) -> BoardView {
        BoardView { moving: false, drag: (0int, 0int), ..self }
    }

    /// Placing: on a press or a release while a tile is active. A release
    /// lets the piece go. Then the first tile under the pointer that may
    /// not be picked becomes the captured one; if there is none, nothing is
    /// captured.
    pub open spec fn placed(self, buttons: PrimaryButton, cursor: CursorPosition) -> BoardView {
        if !(buttons.just_pressed || buttons.just_released) || self.active is None {
            self
        } else {
            let let_go = if buttons.just_released {
                self.released()
            } else {
                self
            };
            match let_go.first_hit(false, cursor) {
                Some(tile) => BoardView { captured: Some(tile), ..let_go },
                None => let_go,
            }
        }
    }

    /// Moving: where one tile is active and another captured, the piece of
    /// the active tile goes to the captured one, the turn passes, and both
    /// marks are taken away. Nothing else changes a position.
    pub open spec fn moved(self) -> BoardView {
        match (self.active, self.captured) {
            (Some(from), Some(to)) => BoardView {
                position: position_after_move(
                    self.position,
                    tile_square(self.orientation, from),
                    tile_square(self.orientation, to),
                ),
                active: None,
                captured: None,
                moving: false,
                drag: (0int, 0int),
                ..self
            },
            _ => self,
        }
    }

    /// A tick: the five steps in their order.
    pub open spec fn ticked(self, buttons: PrimaryButton, cursor: CursorPosition) -> BoardView {
        self.refreshed().picked(buttons, cursor).dragged(buttons, cursor).placed(
            buttons,
            cursor,
        ).moved()
    }
}

impl View for ChessBoard {
    type V = BoardView;

    open(crate) spec fn view(&self) -> BoardView {
        BoardView {
            orientation: self.orientation.0,
            size: self.size.0 as int,
            position: self.position@,
            interactable: self.interactable@,
            active: match self.active {
                Some(tile) => Some(tile as int),
                None => None,
            },
            moving: self.moving,
            drag: (self.drag.x as int, self.drag.y as int),
            captured: match self.captured {
                Some(tile) => Some(tile as int),
                None => None,
            },
        }
    }
}

impl ChessBoard {
    /// Whether each tile shows the square that the layout gives it, with
    /// the piece that the position has there.
    pub open(crate) spec fn tiles_agree(&self) -> bool {
        forall|tile: int|
            0 <= tile < 64 ==> (#[trigger] self.squares[tile]).index == tile_square(
                self.orientation.0,
                tile,
            ) && self.squares[tile].piece == self.position.pieces[self.squares[tile].index as int]
    }

    /// Whether the board is well formed: its tiles agree with its position,
    /// and its marks are as [`BoardView::wf`] says.
    pub open spec fn wf(&self) -> bool {
        self.tiles_agree() && self@.wf()
    }

    /// The side shown at the bottom.
    pub fn orientation(&self) -> (orientation: ChessBoardOrientation)
        ensures
            orientation.0 == self@.orientation,
    {
        self.orientation
    }

    /// The length of the board's side.
    pub fn size(&self) -> (size: ChessBoardSize)
        ensures
            size.0 == self@.size,
    {
        self.size
    }

    /// The position.
    pub fn position(&self) -> (position: &ChessBoardPosition)
        ensures
            position@ == self@.position,
    {
        &self.position
    }

    /// What tile `tile` shows.
    pub fn square(&self, tile: u8) -> (square: ChessBoardSquare)
        requires
            self.wf(),
            tile < 64,
        ensures
            square.index == tile_square(self@.orientation, tile as int),
            square.piece == self@.piece_on(tile as int),
    {
        self.squares[tile as usize]
    }

    /// The tile that is active, if one is.
    pub fn active(&self) -> (active: Option<u8>)
        ensures
            self@.active == match active {
                Some(tile) => Some(tile as int),
                None => None,
            },
    {
        self.active
    }

    /// The tile that is captured, if one is.
    pub fn captured(&self) -> (captured: Option<u8>)
        ensures
            self@.captured == match captured {
                Some(tile) => Some(tile as int),
                None => None,
            },
    {
        self.captured
    }

    /// How far from the centre of the active tile its piece is drawn, if it
    /// follows the pointer.
    pub fn moving(&self) -> (moving: Option<Sixteenths>)
        ensures
            moving is Some == self@.moving,
            moving matches Some(drag) ==> (drag.x as int, drag.y as int) == self@.drag,
    {
        if self.moving {
            Some(self.drag)
        } else {
            None
        }
    }

    /// The mark of tile `tile`.
    pub fn marker(&self, tile: u8) -> (marker: SquareMarker)
        requires
            tile < 64,
        ensures
            marker == self@.marker(tile as int),
    {
        if self.active == Some(tile) {
            SquareMarker::Active
        } else if self.captured == Some(tile) {
            SquareMarker::Captured
        } else if self.interactable[tile as usize] {
            SquareMarker::Interactable
        } else {
            SquareMarker::Plain
        }
    }
}

} // verus!
