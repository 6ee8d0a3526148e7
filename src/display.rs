use vstd::prelude::*;

use crate::board::{glyph, Board, Color, RawSquare};

verus! {

#[verifier::external_type_specification]
#[verifier::external_body]
pub struct ExFmtError(std::fmt::Error);

/// Relies on `String::push`: the character is appended at the end.
#[verifier::external_body]
pub(crate) fn push_char(s: &mut String, c: char)
    ensures
        final(s)@ == old(s)@.push(c),
{
    s.push(c)
}

/// ANSI escape that sets the background to `shade`.
pub open spec fn background_code(shade: Color) -> Seq<char> {
    match shade {
        Color::Black => seq!['\x1b', '[', '4', '0', 'm'],
        Color::White => seq!['\x1b', '[', '4', '7', 'm'],
    }
}

/// ANSI escape that restores the default background.
pub open spec fn background_reset() -> Seq<char> {
    seq!['\x1b', '[', '4', '9', 'm']
}

/// `text` drawn on a background of `shade`.
pub open spec fn shaded(text: Seq<char>, shade: Color) -> Seq<char> {
    background_code(shade) + text + background_reset()
}

/// Relies on owo_colors' `OwoColorize::on_color` with `AnsiColors::Black` or
/// `AnsiColors::White`: its `Display` writes ESC[40m or ESC[47m, the text,
/// then ESC[49m.
#[verifier::external_body]
fn on_shade(text: &str, shade: Color) -> (r: String)
    ensures
        r@ == shaded(text@, shade),
{
    let color = match shade {
        Color::Black => owo_colors::AnsiColors::Black,
        Color::White => owo_colors::AnsiColors::White,
    };
    format!("{}", owo_colors::OwoColorize::on_color(&text, color))
}

/// Line of file letters above and below the grid, in the order that
/// `perspective` sees them.
pub open spec fn files_line(perspective: Color) -> Seq<char> {
    match perspective {
        Color::White => "   a  b  c  d  e  f  g  h\n"@,
        Color::Black => "   h  g  f  e  d  c  b  a\n"@,
    }
}

/// Rank index shown on display row `k` (0 at the top).
pub open spec fn rank_of_row(perspective: Color, k: int) -> int {
    match perspective {
        Color::White => 7 - k,
        Color::Black => k,
    }
}

/// File index shown in display column `j` (0 at the left).
pub open spec fn file_of_col(perspective: Color, j: int) -> int {
    match perspective {
        Color::White => j,
        Color::Black => 7 - j,
    }
}

/// Background of the cell at display row `k`, column `j`: the perspective's
/// own color at the top left, alternating along rows and columns.
pub open spec fn shade_at(perspective: Color, k: int, j: int) -> Color {
    if (k + j) % 2 == 0 {
        perspective
    } else {
        perspective.opposite()
    }
}

/// Three characters for a square: its glyph between spaces, or blanks.
pub open spec fn square_text(sq: RawSquare) -> Seq<char> {
    match sq {
        Some((c, p)) => seq![' ', glyph(p, c), ' '],
        None => seq![' ', ' ', ' '],
    }
}

/// Digit that labels rank index `r`.
pub open spec fn rank_label(r: int) -> char {
    ('1' as int + r) as char
}

pub open spec fn cell(b: Board, perspective: Color, k: int, j: int) -> Seq<char> {
    shaded(
        square_text(b.square(rank_of_row(perspective, k), file_of_col(perspective, j))),
        shade_at(perspective, k, j),
    )
}

/// The first `n` cells of display row `k`.
pub open spec fn cells(b: Board, perspective: Color, k: int, n: int) -> Seq<char>
    decreases n,
{
    if n <= 0 {
        Seq::empty()
    } else {
        cells(b, perspective, k, n - 1) + cell(b, perspective, k, n - 1)
    }
}

/// Display row `k`: rank label, eight cells, rank label, newline.
pub open spec fn row_line(b: Board, perspective: Color, k: int) -> Seq<char> {
    let d = rank_label(rank_of_row(perspective, k));
    seq![d, ' '] + cells(b, perspective, k, 8) + seq![' ', d, '\n']
}

/// The first `n` display rows.
pub open spec fn rows(b: Board, perspective: Color, n: int) -> Seq<char>
    decreases n,
{
    if n <= 0 {
        Seq::empty()
    } else {
        rows(b, perspective, n - 1) + row_line(b, perspective, n - 1)
    }
}

/// The whole picture of `b` as `perspective` sees it: own back rank at the
/// bottom, file letters above and below.
pub open spec fn render(b: Board, perspective: Color) -> Seq<char> {
    files_line(perspective) + rows(b, perspective, 8) + files_line(perspective)
}

fn label_char(r: usize) -> (c: char)
    requires
        r < 8,
    ensures
        c == rank_label(r as int),
{
    match r {
        0 => '1',
        1 => '2',
        2 => '3',
        3 => '4',
        4 => '5',
        5 => '6',
        6 => '7',
        _ => '8',
    }
}

impl Board {
    /// Draws the board as `player_color` sees it.
    pub fn display(&self, player_color: Color) -> (r: Result<String, std::fmt::Error>)
        ensures
            r is Ok,
            r->Ok_0@ == render(*self, player_color),
    {
        let mut b = String::new();
        Self::write_files(&mut b, player_color);
        let target = match player_color {
            Color::White => self.raw(),
            Color::Black => self.flipped_raw(),
        };
        let mut square_color = player_color;
        let mut k: usize = 0;
        while k < 8
            invariant
                k <= 8,
                b@ == files_line(player_color) + rows(*self, player_color, k as int),
                square_color == shade_at(player_color, k as int, 0),
                forall|i: int, f: int|
                    0 <= i < 8 && 0 <= f < 8 ==> #[trigger] target@[i]@[f] == self.square(
                        rank_of_row(player_color, 7 - i),
                        file_of_col(player_color, f),
                    ),
            decreases 8 - k,
        {
            let row = target[7 - k];
            let rank_index: usize = match player_color {
                Color::White => 7 - k,
                Color::Black => k,
            };
            let label = label_char(rank_index);
            let ghost before = b@;
            push_char(&mut b, label);
            push_char(&mut b, ' ');
            let ghost start = b@;
            let mut j: usize = 0;
            while j < 8
                invariant
                    j <= 8,
                    k < 8,
                    start == before + seq![label, ' '],
                    b@ == start + cells(*self, player_color, k as int, j as int),
                    square_color == shade_at(player_color, k as int, j as int),
                    forall|f: int|
                        0 <= f < 8 ==> #[trigger] row@[f] == self.square(
                            rank_of_row(player_color, k as int),
                            file_of_col(player_color, f),
                        ),
                decreases 8 - j,
            {
                let mut text = String::new();
                match row[j] {
                    Some((piece_color, piece)) => {
                        push_char(&mut text, ' ');
                        push_char(&mut text, piece.display(piece_color));
                        push_char(&mut text, ' ');
                    },
                    None => {
                        push_char(&mut text, ' ');
                        push_char(&mut text, ' ');
                        push_char(&mut text, ' ');
                    },
                }
                assert(text@ =~= square_text(row@[j as int]));
                let piece = on_shade(text.as_str(), square_color);
                b.append(piece.as_str());
                square_color.flip();
                assert(b@ =~= start + cells(*self, player_color, k as int, j + 1));
                j = j + 1;
            }
            push_char(&mut b, ' ');
            push_char(&mut b, label);
            push_char(&mut b, '\n');
            square_color.flip();
            assert(b@ =~= files_line(player_color) + rows(*self, player_color, k + 1));
            k = k + 1;
        }
        Self::write_files(&mut b, player_color);
        Ok(b)
    }

    /// The grid turned half a turn: ranks and files both reversed.
    fn flipped_raw(&self) -> (r: crate::board::RawBoard)
        ensures
            forall|i: int, f: int|
                0 <= i < 8 && 0 <= f < 8 ==> #[trigger] r@[i]@[f] == self.square(7 - i, 7 - f),
    {
        let raw = self.raw();
        let mut flipped = raw;
        let mut i: usize = 0;
        while i < 8
            invariant
                i <= 8,
                forall|a: int, f: int|
                    0 <= a < i && 0 <= f < 8 ==> #[trigger] flipped@[a]@[f] == self.square(
                        7 - a,
                        7 - f,
                    ),
                forall|a: int, f: int|
                    0 <= a < 8 && 0 <= f < 8 ==> #[trigger] raw@[a]@[f] == self.square(a, f),
            decreases 8 - i,
        {
            let source = raw[7 - i];
            let mut reversed = source;
            let mut f: usize = 0;
            while f < 8
                invariant
                    f <= 8,
                    i < 8,
                    forall|g: int| 0 <= g < f ==> #[trigger] reversed@[g] == source@[7 - g],
                decreases 8 - f,
            {
                reversed[f] = source[7 - f];
                f = f + 1;
            }
            flipped[i] = reversed;
            i = i + 1;
        }
        flipped
    }

    fn write_files(b: &mut String, color: Color)
        ensures
            final(b)@ == old(b)@ + files_line(color),
    {
        match color {
            Color::White => b.append("   a  b  c  d  e  f  g  h\n"),
            Color::Black => b.append("   h  g  f  e  d  c  b  a\n"),
        }
    }
}


/// Square shown at display row `k`, column `j` to `perspective`.
pub open spec fn shown_square(b: Board, perspective: Color, k: int, j: int) -> RawSquare {
    b.square(rank_of_row(perspective, k), file_of_col(perspective, j))
}

/// The renders of one board for White and for Black are mirror images:
/// what White sees at row `k`, column `j` Black sees at row `7 - k`, column
/// `7 - j`, with the same rank label and on the other background; the file
/// letters run in opposite orders.
pub proof fn lemma_renders_mirror(b: Board)
    ensures
        forall|k: int, j: int|
            0 <= k < 8 && 0 <= j < 8 ==> #[trigger] shown_square(b, Color::White, k, j)
                == shown_square(b, Color::Black, 7 - k, 7 - j) && shade_at(Color::White, k, j)
                == shade_at(Color::Black, 7 - k, 7 - j).opposite(),
        forall|k: int|
            0 <= k < 8 ==> #[trigger] rank_label(rank_of_row(Color::White, k)) == rank_label(
                rank_of_row(Color::Black, 7 - k),
            ),
        forall|i: int|
            0 <= i < 8 ==> #[trigger] files_line(Color::White)[3 + 3 * i] == files_line(
                Color::Black,
            )[3 + 3 * (7 - i)],
        files_line(Color::White)[3] == 'a' && files_line(Color::Black)[3] == 'h',
        files_line(Color::White).len() == files_line(Color::Black).len(),
{
    reveal_strlit("   a  b  c  d  e  f  g  h\n");
    reveal_strlit("   h  g  f  e  d  c  b  a\n");
    assert forall|k: int, j: int| 0 <= k < 8 && 0 <= j < 8 implies #[trigger] shade_at(
        Color::White,
        k,
        j,
    ) == shade_at(Color::Black, 7 - k, 7 - j).opposite() by {
        assert((k + j) % 2 == ((7 - k) + (7 - j)) % 2);
    }
    assert forall|i: int| 0 <= i < 8 implies #[trigger] files_line(Color::White)[3 + 3 * i]
        == files_line(Color::Black)[3 + 3 * (7 - i)] by {
        if i == 0 {
        } else if i == 1 {
        } else if i == 2 {
        } else if i == 3 {
        } else if i == 4 {
        } else if i == 5 {
        } else if i == 6 {
        } else {
        }
    }
}

} // verus!
