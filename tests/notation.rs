use chess_rooms::board::{Board, BoardSpace, Color, File, Piece, Rank};
use chess_rooms::notation::{notation_to_position, parse_move, NotationParseError};

#[test]
fn four_chars_name_source_then_destination() {
    let (from, to) = parse_move("e2e4").unwrap();
    assert_eq!(from, BoardSpace { rank: Rank::Second, file: File::E });
    assert_eq!(to, BoardSpace { rank: Rank::Fourth, file: File::E });
    let (from, to) = parse_move("a1h8").unwrap();
    assert_eq!(from, BoardSpace { rank: Rank::First, file: File::A });
    assert_eq!(to, BoardSpace { rank: Rank::Eighth, file: File::H });
}

#[test]
fn file_letters_read_in_either_case() {
    assert_eq!(parse_move("E2E4"), parse_move("e2e4"));
    assert_eq!(parse_move("G8f6").unwrap().1, BoardSpace { rank: Rank::Sixth, file: File::F });
}

#[test]
fn five_chars_skip_the_first() {
    assert_eq!(parse_move("Pe2e4"), parse_move("e2e4"));
    assert_eq!(parse_move("Ng1f3"), parse_move("g1f3"));
    assert_eq!(parse_move("xzz99"), parse_move("zz99"));
}

#[test]
fn other_lengths_are_bad_length() {
    for s in ["", "e", "e2", "e2e", "e2e4e5", "Pe2-e4", "e2 e4 "] {
        assert_eq!(parse_move(s), Err(NotationParseError::BadLength), "{s:?}");
    }
}

#[test]
fn length_counts_characters_not_bytes() {
    assert_eq!(parse_move("♟e2e4"), parse_move("e2e4"));
}

#[test]
fn unknown_file_and_rank() {
    assert_eq!(parse_move("zz99"), Err(NotationParseError::UnknownFile));
    assert_eq!(parse_move("i2e4"), Err(NotationParseError::UnknownFile));
    assert_eq!(parse_move("e9e4"), Err(NotationParseError::UnknownRank));
    assert_eq!(parse_move("e2x4"), Err(NotationParseError::UnknownFile));
    assert_eq!(parse_move("e2e0"), Err(NotationParseError::UnknownRank));
}

#[test]
fn fragment_of_wrong_length() {
    assert_eq!(notation_to_position(&['e']), Err(NotationParseError::BadFragmentLength));
    assert_eq!(
        notation_to_position(&['e', '2', '4']),
        Err(NotationParseError::BadFragmentLength)
    );
    assert_eq!(
        notation_to_position(&['b', '7']),
        Ok(BoardSpace { rank: Rank::Seventh, file: File::B })
    );
}

#[test]
fn turn_plays_a_readable_move() {
    let mut b = Board::new();
    assert_eq!(b.turn("e2e4".to_string()), Ok(()));
    assert_eq!(b.raw()[1][4], None);
    assert_eq!(b.raw()[3][4], Some((Color::White, Piece::Pawn)));
}

#[test]
fn turn_leaves_board_alone_on_error() {
    let mut b = Board::new();
    let before = b.raw();
    assert_eq!(b.turn("zz99".to_string()), Err(NotationParseError::UnknownFile));
    assert_eq!(b.turn("e2e".to_string()), Err(NotationParseError::BadLength));
    assert_eq!(b.turn("e2e9".to_string()), Err(NotationParseError::UnknownRank));
    assert_eq!(b.raw(), before);
}

#[test]
fn nothing_is_mate() {
    let b = Board::new();
    assert!(!b.has_mate(Color::White));
    assert!(!b.has_mate(Color::Black));
}

#[test]
fn error_messages() {
    assert_eq!(NotationParseError::BadLength.message(), "Your chess notation was a weird length.");
    assert_eq!(
        NotationParseError::BadFragmentLength.message(),
        "Your fragmented chess notation was a weird length."
    );
    assert_eq!(NotationParseError::UnknownRank.message(), "That rank doesn't exist.");
    assert_eq!(NotationParseError::UnknownFile.message(), "That file doesn't exist.");
    assert_eq!(NotationParseError::UnknownFile.notice(), "\nThat file doesn't exist.\n");
}
