use chess_rooms::board::{Color, Piece};
use chess_rooms::notation::NotationParseError;
use chess_rooms::rooms::Registry;
use chess_rooms::session::{Error, Game, IoKind, Phase, Session};

#[test]
fn choice_j_joins_c_creates_other_retries() {
    let mut s = Session::new();
    assert_eq!(s.choice_prompt(), "Join or create room? [j/c]\n");
    assert_eq!(s.on_choice("x"), "Please write `join`/`j` or `create`/`c`.\n");
    assert_eq!(s.phase, Phase::AwaitingChoice);
    assert_eq!(s.on_choice(""), "Please write `join`/`j` or `create`/`c`.\n");
    assert_eq!(s.on_choice("J"), "Please write `join`/`j` or `create`/`c`.\n");
    assert_eq!(s.phase, Phase::AwaitingChoice);
    assert_eq!(s.on_choice("join"), "input game code\n");
    assert_eq!(s.phase, Phase::JoiningRoom);
    let mut t = Session::new();
    assert_eq!(t.on_choice("create"), "");
    assert_eq!(t.phase, Phase::CreatingRoom { dots: 1 });
}

#[test]
fn unknown_code_closes_the_session() {
    let mut s = Session::new();
    s.on_choice("j");
    assert_eq!(s.on_claim(false), "\nunknown game code\n");
    assert_eq!(s.phase, Phase::Closed);
    let mut t = Session::new();
    t.on_choice("j");
    assert_eq!(t.on_claim(true), "");
    assert_eq!(t.phase, Phase::InGame { color: Color::Black });
    assert_eq!(t.on_creator_gone(), "\nCould not join game\n");
    assert_eq!(t.phase, Phase::Closed);
}

#[test]
fn waiting_animation_cycles_one_to_three_dots() {
    let mut s = Session::new();
    s.on_choice("c");
    assert_eq!(s.code_notice("AB12CD"), "Code: AB12CD\n");
    assert_eq!(s.on_tick(), "\rWaiting for opponent.  ");
    assert_eq!(s.on_tick(), "\rWaiting for opponent.. ");
    assert_eq!(s.on_tick(), "\rWaiting for opponent...");
    assert_eq!(s.on_tick(), "\rWaiting for opponent.  ");
    assert_eq!(s.phase, Phase::CreatingRoom { dots: 2 });
    s.on_paired();
    assert_eq!(s.phase, Phase::InGame { color: Color::White });
    s.on_end();
    assert_eq!(s.phase, Phase::Closed);
}

#[test]
fn game_alternates_on_good_moves_only() {
    let mut g = Game::new();
    assert_eq!(g.active(), Color::White);
    assert_eq!(g.turn_prompt(), "Your turn!\n");
    assert_eq!(g.play("e2e4".to_string()), Ok(()));
    assert_eq!(g.active(), Color::Black);
    let before = g.board().raw();
    assert_eq!(g.play("e2".to_string()), Err(NotationParseError::BadLength));
    assert_eq!(g.active(), Color::Black);
    assert_eq!(g.board().raw(), before);
    assert_eq!(g.play("e7e5".to_string()), Ok(()));
    assert_eq!(g.active(), Color::White);
}

#[test]
fn failure_messages() {
    assert_eq!(Error::Io(IoKind::ConnectionReset).message(), "Connection reset");
    assert_eq!(Error::Io(IoKind::ConnectionAborted).message(), "Connection aborted");
    assert_eq!(Error::Io(IoKind::NotConnected).message(), "Not connected");
    assert_eq!(Error::Io(IoKind::UnexpectedEof).message(), "Unexpected EOF");
    assert_eq!(Error::Io(IoKind::Other).message(), "I/O error");
    assert_eq!(Error::Fmt.message(), "Internal formatting error");
    assert_eq!(Error::OneshotRecv.message(), "Internal communication error");
    assert_eq!(
        Error::Io(IoKind::UnexpectedEof).disconnect_notice(),
        "\nDisconnected: Unexpected EOF\n"
    );
}

/// Two players meet through a room code and play two moves, then White
/// sends a move that does not read.
#[test]
fn end_to_end_create_join_and_play() {
    let mut registry: Registry<&str> = Registry::new();
    let mut a = Session::new();
    let mut b = Session::new();

    assert_eq!(a.on_choice("c"), "");
    let code = registry.create_room("slot of A");
    assert_eq!(code.chars().count(), 6);
    assert!(code.chars().all(|c| c.is_ascii_uppercase() || c.is_ascii_digit()));
    assert_eq!(a.code_notice(&code), format!("Code: {code}\n"));

    assert_eq!(b.on_choice("j"), "input game code\n");
    let slot = registry.claim_line(&format!("{code}\n"));
    assert_eq!(slot, Some("slot of A"));
    assert_eq!(b.on_claim(slot.is_some()), "");
    a.on_paired();
    assert_eq!(a.phase, Phase::InGame { color: Color::White });
    assert_eq!(b.phase, Phase::InGame { color: Color::Black });

    let mut game = Game::new();
    let (w0, b0) = game.renders();
    assert!(w0.starts_with("   a  b  c  d  e  f  g  h\n8 "));
    assert!(b0.starts_with("   h  g  f  e  d  c  b  a\n1 "));
    assert_eq!(game.active(), Color::White);

    assert_eq!(game.play("e2e4".to_string()), Ok(()));
    let (w1, b1) = game.renders();
    assert_ne!(w1, w0);
    assert_ne!(b1, b0);
    assert_eq!(game.board().raw()[1][4], None);
    assert_eq!(game.board().raw()[3][4], Some((Color::White, Piece::Pawn)));
    assert_eq!(game.active(), Color::Black);

    assert_eq!(game.play("e7e5".to_string()), Ok(()));
    assert_eq!(game.board().raw()[4][4], Some((Color::Black, Piece::Pawn)));
    assert_eq!(game.active(), Color::White);
    let (w2, b2) = game.renders();

    let err = game.play("zz99".to_string()).unwrap_err();
    assert_eq!(err, NotationParseError::UnknownFile);
    assert_eq!(err.notice(), "\nThat file doesn't exist.\n");
    assert_eq!(game.active(), Color::White);
    assert_eq!(game.renders(), (w2, b2));

    assert_eq!(registry.claim(&code), None);
}
