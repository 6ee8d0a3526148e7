use chess_rooms::board::{Board, BoardSpace, Color, File, Rank};

fn cell(text: &str, white_bg: bool) -> String {
    format!("\x1b[{}m{}\x1b[49m", if white_bg { 47 } else { 40 }, text)
}

/// Splits a render into its lines, and each grid line into the rank label,
/// the cells as (background code, three characters), and the closing label.
fn grid(render: &str) -> Vec<(String, Vec<(String, String)>, String)> {
    let lines: Vec<&str> = render.split_inclusive('\n').collect();
    assert_eq!(lines.len(), 10);
    let mut out = Vec::new();
    for line in &lines[1..9] {
        let chars: Vec<char> = line.chars().collect();
        let label: String = chars[0..2].iter().collect();
        let mut cells = Vec::new();
        let mut i = 2;
        for _ in 0..8 {
            let bg: String = chars[i..i + 5].iter().collect();
            let text: String = chars[i + 5..i + 8].iter().collect();
            let reset: String = chars[i + 8..i + 13].iter().collect();
            assert_eq!(reset, "\x1b[49m");
            cells.push((bg, text));
            i += 13;
        }
        let tail: String = chars[i..].iter().collect();
        out.push((label, cells, tail));
    }
    out
}

#[test]
fn white_render_of_start_position() {
    let r = Board::new().display(Color::White).unwrap();
    assert!(r.starts_with("   a  b  c  d  e  f  g  h\n8 "));
    assert!(r.ends_with(" 1\n   a  b  c  d  e  f  g  h\n"));
    let mut first = String::from("8 ");
    for (j, g) in ['♖', '♘', '♗', '♕', '♔', '♗', '♘', '♖'].iter().enumerate() {
        first.push_str(&cell(&format!(" {g} "), j % 2 == 0));
    }
    first.push_str(" 8\n");
    let lines: Vec<&str> = r.split_inclusive('\n').collect();
    assert_eq!(lines[1], first);
    let mut empty = String::from("4 ");
    for j in 0..8 {
        empty.push_str(&cell("   ", j % 2 == 0));
    }
    empty.push_str(" 4\n");
    assert_eq!(lines[5], empty);
}

#[test]
fn black_render_of_start_position() {
    let r = Board::new().display(Color::Black).unwrap();
    assert!(r.starts_with("   h  g  f  e  d  c  b  a\n1 "));
    assert!(r.ends_with(" 8\n   h  g  f  e  d  c  b  a\n"));
    let mut first = String::from("1 ");
    for (j, g) in ['♜', '♞', '♝', '♚', '♛', '♝', '♞', '♜'].iter().enumerate() {
        first.push_str(&cell(&format!(" {g} "), j % 2 == 1));
    }
    first.push_str(" 1\n");
    let lines: Vec<&str> = r.split_inclusive('\n').collect();
    assert_eq!(lines[1], first);
}

#[test]
fn renders_are_mirror_images() {
    let mut b = Board::new();
    b.make_move(
        BoardSpace { rank: Rank::Second, file: File::E },
        BoardSpace { rank: Rank::Fourth, file: File::E },
    );
    b.make_move(
        BoardSpace { rank: Rank::Eighth, file: File::B },
        BoardSpace { rank: Rank::Sixth, file: File::C },
    );
    let white = grid(&b.display(Color::White).unwrap());
    let black = grid(&b.display(Color::Black).unwrap());
    for k in 0..8 {
        let (wl, wc, wt) = &white[k];
        let (bl, bc, bt) = &black[7 - k];
        assert_eq!(wl, bl);
        assert_eq!(wt, bt);
        for j in 0..8 {
            assert_eq!(wc[j].1, bc[7 - j].1);
            assert_ne!(wc[j].0, bc[7 - j].0);
        }
    }
    assert_eq!(white[4].1[4].1, " ♟ ");
    assert_eq!(white[4].0, "4 ");
}

#[test]
fn render_does_not_change_board() {
    let b = Board::new();
    let before = b.raw();
    let first = b.display(Color::White).unwrap();
    let _ = b.display(Color::Black).unwrap();
    assert_eq!(b.raw(), before);
    assert_eq!(b.display(Color::White).unwrap(), first);
}
