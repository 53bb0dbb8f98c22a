use chessboard::error::InvalidInput;
use chessboard::piece::{ChessPiece, PieceColor, PieceVariant};
use chessboard::position::{ChessBoardPosition, ChessPosition};

const START: &str = "rnbqkbnr/pppppppp/8/8/8/8/PPPPPPPP/RNBQKBNR w KQkq - 0 1";

fn piece(color: PieceColor, variant: PieceVariant) -> Option<ChessPiece> {
    Some(ChessPiece { color, variant })
}

fn count(position: &ChessPosition, color: PieceColor, variant: PieceVariant) -> usize {
    position.pieces.iter().filter(|square| **square == piece(color, variant)).count()
}

#[test]
fn empty_board_with_white_to_move() {
    let position = ChessPosition::from_fen("8/8/8/8/8/8/8/8 w").unwrap();
    assert!(position.pieces.iter().all(|square| square.is_none()));
    assert_eq!(position._turn, PieceColor::White);
}

#[test]
fn starting_position_has_every_piece() {
    let position = ChessPosition::from_fen(START).unwrap();
    for color in [PieceColor::White, PieceColor::Black] {
        assert_eq!(count(&position, color, PieceVariant::Pawn), 8);
        assert_eq!(count(&position, color, PieceVariant::Rook), 2);
        assert_eq!(count(&position, color, PieceVariant::Knight), 2);
        assert_eq!(count(&position, color, PieceVariant::Bishop), 2);
        assert_eq!(count(&position, color, PieceVariant::Queen), 1);
        assert_eq!(count(&position, color, PieceVariant::King), 1);
    }
    assert_eq!(position._turn, PieceColor::White);
}

#[test]
fn starting_position_puts_black_first_and_white_last() {
    let position = ChessPosition::from_fen(START).unwrap();
    for square in 0..16 {
        assert_eq!(position.pieces[square].unwrap().color, PieceColor::Black);
    }
    for square in 16..48 {
        assert_eq!(position.pieces[square], None);
    }
    for square in 48..64 {
        assert_eq!(position.pieces[square].unwrap().color, PieceColor::White);
    }
    let back = [
        PieceVariant::Rook,
        PieceVariant::Knight,
        PieceVariant::Bishop,
        PieceVariant::Queen,
        PieceVariant::King,
        PieceVariant::Bishop,
        PieceVariant::Knight,
        PieceVariant::Rook,
    ];
    for file in 0..8 {
        assert_eq!(position.pieces[file], piece(PieceColor::Black, back[file]));
        assert_eq!(position.pieces[8 + file], piece(PieceColor::Black, PieceVariant::Pawn));
        assert_eq!(position.pieces[48 + file], piece(PieceColor::White, PieceVariant::Pawn));
        assert_eq!(position.pieces[56 + file], piece(PieceColor::White, back[file]));
    }
}

#[test]
fn unrecognized_letters_are_refused() {
    assert_eq!(ChessPosition::from_fen("xyz w"), Err(InvalidInput::UnrecognizedCharacter));
    assert_eq!(
        ChessBoardPosition::from_fen("xyz w"),
        Err(InvalidInput::UnrecognizedCharacter)
    );
}

#[test]
fn unknown_side_is_refused() {
    assert_eq!(ChessPosition::from_fen("8/8/8/8/8/8/8/8 q"), Err(InvalidInput::InvalidTurn));
    assert_eq!(
        ChessBoardPosition::from_fen("8/8/8/8/8/8/8/8 q"),
        Err(InvalidInput::InvalidTurn)
    );
}

#[test]
fn text_without_fields_is_refused() {
    assert_eq!(ChessPosition::from_fen(""), Err(InvalidInput::MissingPlacement));
    assert_eq!(ChessPosition::from_fen(" \t\n "), Err(InvalidInput::MissingPlacement));
}

#[test]
fn digits_zero_and_nine_are_refused() {
    assert_eq!(
        ChessPosition::from_fen("08/8/8/8/8/8/8/8 w"),
        Err(InvalidInput::UnrecognizedCharacter)
    );
    assert_eq!(
        ChessPosition::from_fen("9/8/8/8/8/8/8/8 w"),
        Err(InvalidInput::UnrecognizedCharacter)
    );
}

#[test]
fn letters_outside_ascii_are_refused() {
    assert_eq!(
        ChessPosition::from_fen("\u{212A}7/8/8/8/8/8/8/8 w"),
        Err(InvalidInput::UnrecognizedCharacter)
    );
}

#[test]
fn rank_of_more_than_eight_files_is_refused() {
    assert_eq!(ChessPosition::from_fen("8p/8/8/8/8/8/8/8 w"), Err(InvalidInput::RankOverflow));
    assert_eq!(ChessPosition::from_fen("pp7/8/8/8/8/8/8/8 w"), Err(InvalidInput::RankOverflow));
    assert_eq!(ChessPosition::from_fen("45/8/8/8/8/8/8/8 w"), Err(InvalidInput::RankOverflow));
    assert_eq!(
        ChessPosition::from_fen("8/8/8/8/8/8/8/ppppppppp w"),
        Err(InvalidInput::RankOverflow)
    );
}

#[test]
fn wrong_number_of_ranks_is_refused() {
    assert_eq!(ChessPosition::from_fen("8/8 w"), Err(InvalidInput::RankCount));
    assert_eq!(ChessPosition::from_fen("8/8/8/8/8/8/8 w"), Err(InvalidInput::RankCount));
    assert_eq!(ChessPosition::from_fen("8/8/8/8/8/8/8/8/8 w"), Err(InvalidInput::RankCount));
    assert_eq!(ChessPosition::from_fen("8/8/8/8/8/8/8/8/ w"), Err(InvalidInput::RankCount));
}

#[test]
fn missing_side_is_refused() {
    assert_eq!(ChessPosition::from_fen("8/8/8/8/8/8/8/8"), Err(InvalidInput::MissingTurn));
    assert_eq!(ChessPosition::from_fen("8/8/8/8/8/8/8/8   "), Err(InvalidInput::MissingTurn));
}

#[test]
fn the_first_fault_in_the_list_is_reported() {
    assert_eq!(
        ChessPosition::from_fen("8p/x/8 q"),
        Err(InvalidInput::UnrecognizedCharacter)
    );
    assert_eq!(ChessPosition::from_fen("8/8/8p"), Err(InvalidInput::RankOverflow));
    assert_eq!(ChessPosition::from_fen("8/8"), Err(InvalidInput::RankCount));
    assert_eq!(ChessPosition::from_fen("8/8/8/8/8/8/8/9"), Err(InvalidInput::UnrecognizedCharacter));
}

#[test]
fn side_to_move_is_read_in_either_case() {
    for (text, turn) in [
        ("8/8/8/8/8/8/8/8 w", PieceColor::White),
        ("8/8/8/8/8/8/8/8 W", PieceColor::White),
        ("8/8/8/8/8/8/8/8 b", PieceColor::Black),
        ("8/8/8/8/8/8/8/8 B", PieceColor::Black),
        ("8/8/8/8/8/8/8/8 black", PieceColor::Black),
    ] {
        assert_eq!(ChessPosition::from_fen(text).unwrap()._turn, turn);
    }
}

#[test]
fn white_space_separates_fields() {
    let plain = ChessPosition::from_fen(START).unwrap();
    let spaced = ChessPosition::from_fen(
        "\t rnbqkbnr/pppppppp/8/8/8/8/PPPPPPPP/RNBQKBNR \u{3000}\n w\tKQkq",
    )
    .unwrap();
    assert_eq!(plain, spaced);
}

#[test]
fn further_fields_are_not_read() {
    let short = ChessPosition::from_fen("rnbqkbnr/pppppppp/8/8/8/8/PPPPPPPP/RNBQKBNR w").unwrap();
    let long = ChessPosition::from_fen(START).unwrap();
    let odd = ChessPosition::from_fen("rnbqkbnr/pppppppp/8/8/8/8/PPPPPPPP/RNBQKBNR w ?? / 99").unwrap();
    assert_eq!(short, long);
    assert_eq!(short, odd);
}

#[test]
fn short_rank_leaves_its_last_squares_empty() {
    let position = ChessPosition::from_fen("p/1P/8/8/8/8/8/7 b").unwrap();
    assert_eq!(position.pieces[0], piece(PieceColor::Black, PieceVariant::Pawn));
    assert_eq!(position.pieces[9], piece(PieceColor::White, PieceVariant::Pawn));
    assert_eq!(position.pieces.iter().filter(|square| square.is_some()).count(), 2);
    assert_eq!(position._turn, PieceColor::Black);
}

#[test]
fn digits_skip_squares_within_a_rank() {
    let position = ChessPosition::from_fen("r3k2r/8/8/3pP3/8/8/8/R3K2R b").unwrap();
    assert_eq!(position.pieces[0], piece(PieceColor::Black, PieceVariant::Rook));
    assert_eq!(position.pieces[4], piece(PieceColor::Black, PieceVariant::King));
    assert_eq!(position.pieces[7], piece(PieceColor::Black, PieceVariant::Rook));
    assert_eq!(position.pieces[27], piece(PieceColor::Black, PieceVariant::Pawn));
    assert_eq!(position.pieces[28], piece(PieceColor::White, PieceVariant::Pawn));
    assert_eq!(position.pieces[56], piece(PieceColor::White, PieceVariant::Rook));
    assert_eq!(position.pieces[60], piece(PieceColor::White, PieceVariant::King));
    assert_eq!(position.pieces[63], piece(PieceColor::White, PieceVariant::Rook));
    assert_eq!(position.pieces.iter().filter(|square| square.is_some()).count(), 8);
}

#[test]
fn one_piece_for_each_piece_letter() {
    for text in [
        START,
        "8/8/8/8/8/8/8/8 w",
        "r3k2r/8/8/3pP3/8/8/8/R3K2R b KQkq",
        "k7/8/8/8/8/8/8/7K w",
        "pppppppp/pppppppp/pppppppp/pppppppp/PPPPPPPP/PPPPPPPP/PPPPPPPP/PPPPPPPP b",
    ] {
        let field: &str = text.split_whitespace().next().unwrap();
        let letters = field.chars().filter(|c| "kqrbnpKQRBNP".contains(*c)).count();
        let position = ChessPosition::from_fen(text).unwrap();
        let pieces = position.pieces.iter().filter(|square| square.is_some()).count();
        assert_eq!(pieces, letters);
    }
}

#[test]
fn writing_gives_placement_and_side() {
    let start = ChessPosition::from_fen(START).unwrap();
    assert_eq!(start.to_fen(), "rnbqkbnr/pppppppp/8/8/8/8/PPPPPPPP/RNBQKBNR w");
    let empty = ChessBoardPosition::from_fen("8/8/8/8/8/8/8/8 B").unwrap();
    assert_eq!(empty.to_fen(), "8/8/8/8/8/8/8/8 b");
    let mixed = ChessPosition::from_fen("r3k2r/8/8/3pP3/8/8/8/R3K2R b KQkq - 0 1").unwrap();
    assert_eq!(mixed.to_fen(), "r3k2r/8/8/3pP3/8/8/8/R3K2R b");
    let short = ChessPosition::from_fen("pp/1P/8/8/8/8/8/7 b").unwrap();
    assert_eq!(short.to_fen(), "pp6/1P6/8/8/8/8/8/8 b");
}

#[test]
fn reading_what_was_written_gives_the_same_position() {
    for text in [
        START,
        "8/8/8/8/8/8/8/8 b",
        "r3k2r/8/8/3pP3/8/8/8/R3K2R b KQkq",
        "p/1P/8/8/8/8/8/7 w",
        "1p1p1p1p/p1p1p1p1/8/8/2Q2q2/8/K6k/8 w",
    ] {
        let first = ChessPosition::from_fen(text).unwrap();
        let second = ChessPosition::from_fen(&first.to_fen()).unwrap();
        assert_eq!(first, second);
        let board = ChessBoardPosition::from_fen(text).unwrap();
        assert_eq!(ChessBoardPosition::from_fen(&board.to_fen()).unwrap(), board);
    }
}

#[test]
fn default_texts_differ_in_the_side_alone() {
    let white = ChessPosition::from_fen(ChessPosition::DEFAULT_WHITE_FEN).unwrap();
    let black = ChessPosition::from_fen(ChessPosition::DEFAULT_BLACK_FEN).unwrap();
    assert_eq!(white.pieces, black.pieces);
    assert_eq!(white._turn, PieceColor::White);
    assert_eq!(black._turn, PieceColor::Black);
    assert_eq!(ChessPosition::DEFAULT_WHITE_FEN, START);
    assert_eq!(ChessBoardPosition::DEFAULT_WHITE_FEN, ChessPosition::DEFAULT_WHITE_FEN);
    assert_eq!(ChessBoardPosition::DEFAULT_BLACK_FEN, ChessPosition::DEFAULT_BLACK_FEN);
}

#[test]
fn default_position_is_the_start_with_white_to_move() {
    let position = ChessBoardPosition::default();
    let read = ChessBoardPosition::from_fen(ChessBoardPosition::DEFAULT_WHITE_FEN).unwrap();
    assert_eq!(position, read);
    assert_eq!(position.turn, PieceColor::White);
}

#[test]
fn change_turn_flips_the_side_and_nothing_else() {
    let mut position = ChessBoardPosition::default();
    let pieces = position.pieces;
    position.change_turn();
    assert_eq!(position.turn, PieceColor::Black);
    assert_eq!(position.pieces, pieces);
    position.change_turn();
    assert_eq!(position.turn, PieceColor::White);
    assert_eq!(position.pieces, pieces);
}

#[test]
fn position_is_drawn_from_the_last_square_back() {
    let position = ChessPosition::from_fen(START).unwrap();
    let expected = "\
+-+-+-+-+-+-+-+-+
|R|N|B|K|Q|B|N|R|
+-+-+-+-+-+-+-+-+
|P|P|P|P|P|P|P|P|
+-+-+-+-+-+-+-+-+
| | | | | | | | |
+-+-+-+-+-+-+-+-+
| | | | | | | | |
+-+-+-+-+-+-+-+-+
| | | | | | | | |
+-+-+-+-+-+-+-+-+
| | | | | | | | |
+-+-+-+-+-+-+-+-+
|p|p|p|p|p|p|p|p|
+-+-+-+-+-+-+-+-+
|r|n|b|k|q|b|n|r|
+-+-+-+-+-+-+-+-+
";
    assert_eq!(position.to_string(), expected);
    assert_eq!(ChessBoardPosition::default().to_string(), expected);
}

#[test]
fn letters_stand_for_pieces() {
    let letters = "KQRBNPkqrbnp";
    let variants = [
        PieceVariant::King,
        PieceVariant::Queen,
        PieceVariant::Rook,
        PieceVariant::Bishop,
        PieceVariant::Knight,
        PieceVariant::Pawn,
    ];
    for (at, letter) in letters.chars().enumerate() {
        let color = if at < 6 { PieceColor::White } else { PieceColor::Black };
        let expected = ChessPiece { color, variant: variants[at % 6] };
        assert_eq!(ChessPiece::try_from(letter), Ok(expected));
        assert_eq!(char::from(expected), letter);
        let back: char = expected.into();
        assert_eq!(back, letter);
    }
    for other in ['x', 'A', '1', '/', ' ', 'w', '\u{212A}'] {
        assert_eq!(ChessPiece::try_from(other), Err(InvalidInput::UnrecognizedCharacter));
    }
}

#[test]
fn letters_stand_for_sides() {
    assert_eq!(PieceColor::try_from('w'), Ok(PieceColor::White));
    assert_eq!(PieceColor::try_from('W'), Ok(PieceColor::White));
    assert_eq!(PieceColor::try_from('b'), Ok(PieceColor::Black));
    assert_eq!(PieceColor::try_from('B'), Ok(PieceColor::Black));
    assert_eq!(PieceColor::try_from('q'), Err(InvalidInput::InvalidTurn));
    assert_eq!(PieceColor::try_from('-'), Err(InvalidInput::InvalidTurn));
    assert_eq!(PieceColor::default(), PieceColor::White);
    assert_eq!(PieceColor::White.opposite(), PieceColor::Black);
    assert_eq!(PieceColor::Black.opposite(), PieceColor::White);
}

#[test]
fn pieces_have_their_place_on_the_sprite_sheet() {
    let order = [
        PieceVariant::King,
        PieceVariant::Queen,
        PieceVariant::Bishop,
        PieceVariant::Knight,
        PieceVariant::Rook,
        PieceVariant::Pawn,
    ];
    for (at, variant) in order.iter().enumerate() {
        assert_eq!(usize::from(ChessPiece { color: PieceColor::White, variant: *variant }), at);
        assert_eq!(usize::from(ChessPiece { color: PieceColor::Black, variant: *variant }), at + 6);
    }
}

#[test]
fn white_space_is_what_the_standard_library_calls_so() {
    for code in 0..=0x10FFFFu32 {
        if let Some(c) = char::from_u32(code) {
            assert_eq!(chessboard::fen::read::char_is_whitespace(c), c.is_whitespace());
        }
    }
}

#[test]
fn characters_are_taken_in_order() {
    assert_eq!(chessboard::fen::read::chars_of(""), Vec::<char>::new());
    assert_eq!(chessboard::fen::read::chars_of("8 w"), vec!['8', ' ', 'w']);
    assert_eq!(chessboard::fen::read::chars_of("k\u{3000}\u{212A}"), vec!['k', '\u{3000}', '\u{212A}']);
}

#[test]
fn fields_are_read_from_characters() {
    let text: Vec<char> = "8/8/8/8/8/8/8/7R b".chars().collect();
    let (squares, turn) = chessboard::fen::read::read_fields(&text).unwrap();
    assert_eq!(squares[63], piece(PieceColor::White, PieceVariant::Rook));
    assert_eq!(squares.iter().filter(|square| square.is_some()).count(), 1);
    assert_eq!(turn, PieceColor::Black);
    let bad: Vec<char> = "8/8/8/8/8/8/8/7R".chars().collect();
    assert_eq!(chessboard::fen::read::read_fields(&bad), Err(InvalidInput::MissingTurn));
    assert!(chessboard::fen::read::empty_board().iter().all(|square| square.is_none()));
}

#[test]
fn a_board_is_written_with_its_side() {
    let mut squares = chessboard::fen::read::empty_board();
    squares[0] = piece(PieceColor::Black, PieceVariant::King);
    squares[36] = piece(PieceColor::White, PieceVariant::Queen);
    squares[63] = piece(PieceColor::White, PieceVariant::King);
    assert_eq!(
        chessboard::fen::write::write_fen(&squares, PieceColor::White),
        "k7/8/8/8/4Q3/8/8/7K w"
    );
    assert_eq!(
        chessboard::fen::write::write_fen(&squares, PieceColor::Black),
        "k7/8/8/8/4Q3/8/8/7K b"
    );
    assert_eq!(chessboard::fen::write::turn_letter(PieceColor::White), 'w');
    assert_eq!(chessboard::fen::write::turn_letter(PieceColor::Black), 'b');
}
