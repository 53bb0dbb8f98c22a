use chessboard::board::{
    ChessBoard, ChessBoardBundle, ChessBoardSquare, PrimaryButton, SquareMarker,
};
use chessboard::layout::{
    ChessBoardLabel, ChessBoardOrientation, ChessBoardSize, CursorPosition, Sixteenths,
};
use chessboard::piece::{ChessPiece, PieceColor, PieceVariant};
use chessboard::position::ChessBoardPosition;
use chessboard::systems::{
    drag_system, interaction_system, move_system, pick_system, place_system, spawn_board_system,
    spawn_labels_system, tick, update_square_system,
};

const PRESS: PrimaryButton = PrimaryButton { just_pressed: true, just_released: false, pressed: true };
const HOLD: PrimaryButton = PrimaryButton { just_pressed: false, just_released: false, pressed: true };
const RELEASE: PrimaryButton =
    PrimaryButton { just_pressed: false, just_released: true, pressed: false };
const IDLE: PrimaryButton = PrimaryButton { just_pressed: false, just_released: false, pressed: false };

const WHITE_PAWN: Option<ChessPiece> =
    Some(ChessPiece { color: PieceColor::White, variant: PieceVariant::Pawn });
const BLACK_PAWN: Option<ChessPiece> =
    Some(ChessPiece { color: PieceColor::Black, variant: PieceVariant::Pawn });

fn board(fen: &str, orientation: PieceColor) -> ChessBoard {
    spawn_board_system(&ChessBoardBundle {
        size: ChessBoardSize(400),
        orientation: ChessBoardOrientation(orientation),
        position: ChessBoardPosition::from_fen(fen).unwrap(),
    })
}

fn start() -> ChessBoard {
    board(ChessBoardPosition::DEFAULT_WHITE_FEN, PieceColor::White)
}

/// The middle of a tile of a board of size 400.
fn middle(tile: u8) -> CursorPosition {
    CursorPosition { x: (tile as i32 % 8) * 50 - 175, y: (tile as i32 / 8) * 50 - 175 }
}

#[test]
fn a_new_board_shows_the_position_and_carries_no_mark() {
    let board = start();
    assert_eq!(board.orientation(), ChessBoardOrientation(PieceColor::White));
    assert_eq!(board.size(), ChessBoardSize(400));
    assert_eq!(*board.position(), ChessBoardPosition::default());
    for tile in 0..64u8 {
        let square = board.square(tile);
        assert_eq!(square.index, (7 - tile / 8) * 8 + tile % 8);
        assert_eq!(square.piece, board.position().pieces[square.index as usize]);
        assert_eq!(board.marker(tile), SquareMarker::Plain);
    }
    assert_eq!(board.square(8).piece, WHITE_PAWN);
    assert_eq!(board.square(48).piece, BLACK_PAWN);
    assert_eq!(board.active(), None);
    assert_eq!(board.captured(), None);
    assert_eq!(board.moving(), None);
}

#[test]
fn a_board_with_black_at_the_bottom_mirrors_the_columns() {
    let board = board(ChessBoardPosition::DEFAULT_BLACK_FEN, PieceColor::Black);
    for tile in 0..64u8 {
        assert_eq!(board.square(tile).index, (tile / 8) * 8 + 7 - tile % 8);
    }
    assert_eq!(board.square(0).piece.unwrap().color, PieceColor::Black);
    assert_eq!(board.square(0).piece.unwrap().variant, PieceVariant::Rook);
    assert_eq!(board.square(3).piece.unwrap().variant, PieceVariant::King);
    assert_eq!(board.square(63).piece.unwrap().color, PieceColor::White);
}

#[test]
fn a_default_bundle_is_the_start_at_size_zero() {
    let bundle = ChessBoardBundle::default();
    assert_eq!(bundle.size, ChessBoardSize(0));
    assert_eq!(bundle.orientation, ChessBoardOrientation(PieceColor::White));
    assert_eq!(bundle.position, ChessBoardPosition::default());
    assert_eq!(ChessBoardSquare::default(), ChessBoardSquare { piece: None, index: 0 });
}

#[test]
fn tiles_of_the_side_to_move_are_marked() {
    let mut board = start();
    interaction_system(&mut board);
    for tile in 0..64u8 {
        let expected = if tile < 16 { SquareMarker::Interactable } else { SquareMarker::Plain };
        assert_eq!(board.marker(tile), expected);
    }
    let mut black = self::board(ChessBoardPosition::DEFAULT_BLACK_FEN, PieceColor::White);
    interaction_system(&mut black);
    for tile in 0..64u8 {
        let expected = if tile >= 48 { SquareMarker::Interactable } else { SquareMarker::Plain };
        assert_eq!(black.marker(tile), expected);
    }
}

#[test]
fn a_pawn_is_dragged_one_square_forward() {
    let mut board = start();
    let before = *board.position();
    tick(&mut board, &PRESS, &middle(8));
    assert_eq!(board.active(), Some(8));
    assert_eq!(board.marker(8), SquareMarker::Active);
    assert_eq!(board.moving(), Some(Sixteenths { x: 0, y: 0 }));
    assert_eq!(*board.position(), before);
    tick(&mut board, &HOLD, &CursorPosition { x: -170, y: -100 });
    assert_eq!(board.moving(), Some(Sixteenths { x: 80, y: 400 }));
    assert_eq!(*board.position(), before);
    tick(&mut board, &RELEASE, &middle(16));
    assert_eq!(board.active(), None);
    assert_eq!(board.captured(), None);
    assert_eq!(board.moving(), None);
    assert_eq!(board.square(8).piece, None);
    assert_eq!(board.square(16).piece, WHITE_PAWN);
    assert_eq!(board.position().turn, PieceColor::Black);
    let mut expected = before.pieces;
    expected[48] = None;
    expected[40] = WHITE_PAWN;
    assert_eq!(board.position().pieces, expected);
    for tile in 0..64u8 {
        let square = board.square(tile);
        assert_eq!(square.piece, board.position().pieces[square.index as usize]);
    }
}

#[test]
fn a_pawn_on_square_eight_goes_to_square_sixteen() {
    let mut board = self::board("8/P6p/8/8/8/8/8/8 w", PieceColor::White);
    let from = ChessBoardOrientation(PieceColor::White).tile_of(8);
    let to = ChessBoardOrientation(PieceColor::White).tile_of(16);
    tick(&mut board, &PRESS, &middle(from));
    assert_eq!(board.active(), Some(from));
    tick(&mut board, &RELEASE, &middle(to));
    let mut expected = [None; 64];
    expected[15] = BLACK_PAWN;
    expected[16] = WHITE_PAWN;
    assert_eq!(board.position().pieces, expected);
    assert_eq!(board.position().turn, PieceColor::Black);
}

#[test]
fn a_drop_on_the_square_of_origin_is_no_move() {
    let mut board = start();
    let before = *board.position();
    tick(&mut board, &PRESS, &middle(8));
    tick(&mut board, &HOLD, &CursorPosition { x: -160, y: -130 });
    tick(&mut board, &RELEASE, &CursorPosition { x: -160, y: -130 });
    assert_eq!(*board.position(), before);
    assert_eq!(board.position().turn, PieceColor::White);
    assert_eq!(board.moving(), None);
    assert_eq!(board.captured(), None);
    assert_eq!(board.square(8).piece, WHITE_PAWN);
}

#[test]
fn a_drop_on_a_piece_of_the_same_side_is_no_move() {
    let mut board = start();
    let before = *board.position();
    tick(&mut board, &PRESS, &middle(8));
    tick(&mut board, &RELEASE, &middle(1));
    assert_eq!(*board.position(), before);
    assert_eq!(board.captured(), None);
    assert_eq!(board.moving(), None);
}

#[test]
fn a_drop_beside_the_board_is_no_move() {
    let mut board = start();
    let before = *board.position();
    tick(&mut board, &PRESS, &middle(8));
    tick(&mut board, &HOLD, &CursorPosition { x: -500, y: 900 });
    assert_eq!(board.moving(), Some(Sixteenths { x: -8000 + 2800, y: 14400 + 2000 }));
    tick(&mut board, &RELEASE, &CursorPosition { x: -500, y: 900 });
    assert_eq!(*board.position(), before);
    assert_eq!(board.moving(), None);
    assert_eq!(board.captured(), None);
}

#[test]
fn a_piece_of_the_other_side_is_never_picked() {
    let mut board = start();
    for tile in 16..64u8 {
        tick(&mut board, &PRESS, &middle(tile));
        assert_eq!(board.active(), None);
        assert_eq!(board.moving(), None);
        tick(&mut board, &RELEASE, &middle(tile));
        assert_eq!(board.active(), None);
        assert_eq!(*board.position(), ChessBoardPosition::default());
    }
}

#[test]
fn a_press_on_an_empty_tile_or_beside_the_board_changes_nothing() {
    let mut board = start();
    tick(&mut board, &PRESS, &middle(27));
    assert_eq!(board.active(), None);
    tick(&mut board, &PRESS, &CursorPosition { x: 1000, y: 1000 });
    assert_eq!(board.active(), None);
    assert_eq!(*board.position(), ChessBoardPosition::default());
}

#[test]
fn of_two_presses_the_later_one_decides() {
    let mut board = start();
    interaction_system(&mut board);
    pick_system(&mut board, &PRESS, &middle(8));
    assert_eq!(board.active(), Some(8));
    pick_system(&mut board, &PRESS, &middle(12));
    assert_eq!(board.active(), Some(12));
    assert_eq!(board.marker(8), SquareMarker::Interactable);
    assert_eq!(board.marker(12), SquareMarker::Active);
    let markers = (0..64u8).filter(|tile| board.marker(*tile) == SquareMarker::Active).count();
    assert_eq!(markers, 1);
    let mut direct = start();
    interaction_system(&mut direct);
    pick_system(&mut direct, &PRESS, &middle(12));
    assert_eq!(direct.active(), board.active());
    assert_eq!(direct.moving(), board.moving());
}

#[test]
fn a_second_press_on_an_empty_tile_keeps_the_first_pick() {
    let mut board = start();
    interaction_system(&mut board);
    pick_system(&mut board, &PRESS, &middle(8));
    pick_system(&mut board, &PRESS, &middle(30));
    assert_eq!(board.active(), Some(8));
}

#[test]
fn without_a_press_nothing_is_picked() {
    let mut board = start();
    interaction_system(&mut board);
    for buttons in [HOLD, RELEASE, IDLE] {
        pick_system(&mut board, &buttons, &middle(8));
        assert_eq!(board.active(), None);
    }
}

#[test]
fn a_piece_is_moved_by_two_clicks() {
    let mut board = start();
    tick(&mut board, &PRESS, &middle(1));
    tick(&mut board, &RELEASE, &middle(1));
    assert_eq!(board.active(), Some(1));
    assert_eq!(board.moving(), None);
    tick(&mut board, &IDLE, &middle(18));
    assert_eq!(*board.position(), ChessBoardPosition::default());
    tick(&mut board, &PRESS, &middle(18));
    assert_eq!(board.active(), None);
    assert_eq!(board.square(1).piece, None);
    assert_eq!(board.square(18).piece.unwrap().variant, PieceVariant::Knight);
    assert_eq!(board.position().turn, PieceColor::Black);
    assert_eq!(board.position().to_fen(), "rnbqkbnr/pppppppp/8/8/8/2N5/PPPPPPPP/R1BQKBNR b");
}

#[test]
fn a_piece_of_the_other_side_is_taken() {
    let mut board = start();
    tick(&mut board, &PRESS, &middle(3));
    tick(&mut board, &RELEASE, &middle(59));
    let queen = Some(ChessPiece { color: PieceColor::White, variant: PieceVariant::Queen });
    assert_eq!(board.square(59).piece, queen);
    assert_eq!(board.square(3).piece, None);
    assert_eq!(board.position().pieces[3], queen);
    assert_eq!(board.position().pieces[59], None);
    assert_eq!(board.position().turn, PieceColor::Black);
    assert_eq!(board.position().pieces.iter().filter(|square| square.is_some()).count(), 31);
    assert_eq!(board.position().to_fen(), "rnbQkbnr/pppppppp/8/8/8/8/PPPPPPPP/RNB1KBNR b");
}

#[test]
fn the_turn_passes_with_every_move() {
    let mut board = start();
    tick(&mut board, &PRESS, &middle(12));
    tick(&mut board, &RELEASE, &middle(28));
    assert_eq!(board.position().turn, PieceColor::Black);
    tick(&mut board, &PRESS, &middle(8));
    assert_eq!(board.active(), None);
    tick(&mut board, &RELEASE, &middle(16));
    tick(&mut board, &PRESS, &middle(52));
    assert_eq!(board.active(), Some(52));
    tick(&mut board, &RELEASE, &middle(36));
    assert_eq!(board.position().turn, PieceColor::White);
    assert_eq!(board.position().to_fen(), "rnbqkbnr/pppp1ppp/8/4p3/4P3/8/PPPP1PPP/RNBQKBNR w");
}

#[test]
fn marks_are_set_anew_at_the_next_tick() {
    let mut board = start();
    tick(&mut board, &PRESS, &middle(12));
    tick(&mut board, &RELEASE, &middle(28));
    assert_eq!(board.marker(28), SquareMarker::Plain);
    tick(&mut board, &IDLE, &middle(0));
    for tile in 0..64u8 {
        let expected = if tile >= 48 { SquareMarker::Interactable } else { SquareMarker::Plain };
        assert_eq!(board.marker(tile), expected);
    }
}

#[test]
fn the_steps_of_a_tick_can_be_taken_one_by_one() {
    let mut stepped = start();
    let mut ticked = start();
    let script = [
        (PRESS, middle(9)),
        (HOLD, CursorPosition { x: -120, y: -60 }),
        (HOLD, CursorPosition { x: -125, y: -30 }),
        (RELEASE, middle(25)),
        (IDLE, middle(25)),
        (PRESS, middle(57)),
        (RELEASE, middle(57)),
        (PRESS, middle(42)),
    ];
    for (buttons, cursor) in script {
        tick(&mut ticked, &buttons, &cursor);
        interaction_system(&mut stepped);
        pick_system(&mut stepped, &buttons, &cursor);
        drag_system(&mut stepped, &buttons, &cursor);
        place_system(&mut stepped, &buttons, &cursor);
        move_system(&mut stepped);
        assert_eq!(*stepped.position(), *ticked.position());
        assert_eq!(stepped.active(), ticked.active());
        assert_eq!(stepped.moving(), ticked.moving());
        assert_eq!(stepped.captured(), ticked.captured());
    }
    assert_eq!(ticked.position().to_fen(), "r1bqkbnr/pppppppp/2n5/8/1P6/8/P1PPPPPP/RNBQKBNR w");
}

#[test]
fn placing_marks_the_tile_and_moving_clears_it() {
    let mut board = start();
    interaction_system(&mut board);
    pick_system(&mut board, &PRESS, &middle(8));
    place_system(&mut board, &RELEASE, &middle(24));
    assert_eq!(board.captured(), Some(24));
    assert_eq!(board.marker(24), SquareMarker::Captured);
    assert_eq!(board.marker(8), SquareMarker::Active);
    assert_eq!(board.moving(), None);
    assert_eq!(*board.position(), ChessBoardPosition::default());
    move_system(&mut board);
    assert_eq!(board.captured(), None);
    assert_eq!(board.active(), None);
    assert_eq!(board.square(24).piece, WHITE_PAWN);
    assert_eq!(board.position().turn, PieceColor::Black);
}

#[test]
fn without_an_active_tile_nothing_is_placed_or_moved() {
    let mut board = start();
    interaction_system(&mut board);
    place_system(&mut board, &RELEASE, &middle(24));
    assert_eq!(board.captured(), None);
    place_system(&mut board, &PRESS, &middle(24));
    assert_eq!(board.captured(), None);
    move_system(&mut board);
    drag_system(&mut board, &HOLD, &middle(24));
    assert_eq!(board.moving(), None);
    assert_eq!(*board.position(), ChessBoardPosition::default());
}

#[test]
fn a_piece_is_dragged_only_while_the_button_is_down() {
    let mut board = start();
    interaction_system(&mut board);
    pick_system(&mut board, &PRESS, &middle(8));
    drag_system(&mut board, &IDLE, &CursorPosition { x: 3, y: 4 });
    assert_eq!(board.moving(), Some(Sixteenths { x: 0, y: 0 }));
    drag_system(&mut board, &HOLD, &CursorPosition { x: 3, y: 4 });
    assert_eq!(board.moving(), Some(Sixteenths { x: 48 + 2800, y: 64 + 2000 }));
}

#[test]
fn moves_work_with_black_at_the_bottom() {
    let mut board = self::board(ChessBoardPosition::DEFAULT_BLACK_FEN, PieceColor::Black);
    assert_eq!(board.square(8).piece, BLACK_PAWN);
    assert_eq!(board.square(8).index, 15);
    tick(&mut board, &PRESS, &middle(8));
    assert_eq!(board.active(), Some(8));
    tick(&mut board, &RELEASE, &middle(24));
    assert_eq!(board.square(24).piece, BLACK_PAWN);
    assert_eq!(board.position().pieces[15], None);
    assert_eq!(board.position().pieces[31], BLACK_PAWN);
    assert_eq!(board.position().turn, PieceColor::White);
    assert_eq!(board.position().to_fen(), "rnbqkbnr/ppppppp1/8/7p/8/8/PPPPPPPP/RNBQKBNR w");
}

#[test]
fn labels_stand_half_a_tile_beyond_the_edges() {
    let labels = spawn_labels_system(&ChessBoardOrientation(PieceColor::White), &ChessBoardSize(400));
    assert_eq!(labels.len(), 32);
    assert_eq!(labels[0], ChessBoardLabel { text: 'A', position: Sixteenths { x: -2800, y: 3600 } });
    assert_eq!(labels[1], ChessBoardLabel { text: '1', position: Sixteenths { x: 3600, y: -2800 } });
    assert_eq!(labels[2], ChessBoardLabel { text: 'A', position: Sixteenths { x: -2800, y: -3600 } });
    assert_eq!(labels[3], ChessBoardLabel { text: '1', position: Sixteenths { x: -3600, y: -2800 } });
    assert_eq!(labels[28], ChessBoardLabel { text: 'H', position: Sixteenths { x: 2800, y: 3600 } });
    assert_eq!(labels[31], ChessBoardLabel { text: '8', position: Sixteenths { x: -3600, y: 2800 } });
    let turned = spawn_labels_system(&ChessBoardOrientation(PieceColor::Black), &ChessBoardSize(400));
    assert_eq!(turned[0], ChessBoardLabel { text: 'H', position: Sixteenths { x: -2800, y: 3600 } });
    assert_eq!(turned[1], ChessBoardLabel { text: '8', position: Sixteenths { x: 3600, y: -2800 } });
    assert_eq!(turned[30], ChessBoardLabel { text: 'A', position: Sixteenths { x: 2800, y: -3600 } });
    for (k, label) in labels.iter().enumerate() {
        assert_eq!(label.position, turned[k].position);
    }
}

#[test]
fn a_tile_is_drawn_with_the_sprite_of_its_piece() {
    let board = start();
    assert_eq!(update_square_system(&board.square(4)), Some(0));
    assert_eq!(update_square_system(&board.square(3)), Some(1));
    assert_eq!(update_square_system(&board.square(0)), Some(4));
    assert_eq!(update_square_system(&board.square(8)), Some(5));
    assert_eq!(update_square_system(&board.square(60)), Some(6));
    assert_eq!(update_square_system(&board.square(48)), Some(11));
    assert_eq!(update_square_system(&board.square(30)), None);
}

#[test]
fn a_press_on_a_corner_picks_the_first_of_its_tiles() {
    let mut board = start();
    tick(&mut board, &PRESS, &CursorPosition { x: -100, y: -150 });
    assert_eq!(board.active(), Some(1));
    tick(&mut board, &RELEASE, &CursorPosition { x: -100, y: -150 });
    tick(&mut board, &PRESS, &CursorPosition { x: 200, y: -150 });
    assert_eq!(board.active(), Some(7));
    assert_eq!(*board.position(), ChessBoardPosition::default());
}

#[test]
fn a_release_on_a_corner_drops_on_the_first_of_its_tiles() {
    let mut board = start();
    tick(&mut board, &PRESS, &middle(8));
    tick(&mut board, &RELEASE, &CursorPosition { x: 0, y: 0 });
    assert_eq!(board.square(27).piece, WHITE_PAWN);
    assert_eq!(board.square(28).piece, None);
    assert_eq!(board.square(35).piece, None);
    assert_eq!(board.square(36).piece, None);
    assert_eq!(board.square(8).piece, None);
    assert_eq!(board.position().turn, PieceColor::Black);
}

#[test]
fn a_release_on_the_edge_of_the_board_still_drops() {
    let mut board = start();
    tick(&mut board, &PRESS, &middle(15));
    tick(&mut board, &RELEASE, &CursorPosition { x: 200, y: 0 });
    assert_eq!(board.square(31).piece, WHITE_PAWN);
    assert_eq!(board.position().turn, PieceColor::Black);
    let mut beside = start();
    tick(&mut beside, &PRESS, &middle(15));
    tick(&mut beside, &RELEASE, &CursorPosition { x: 201, y: 0 });
    assert_eq!(*beside.position(), ChessBoardPosition::default());
}
