use vstd::prelude::*;

verus! {

/// Side of the game: owner of a piece, and whose turn it is.
#[derive(Copy, Clone, Eq, PartialEq, Debug, Hash, Structural)]
pub enum Color {
    Black,
    White,
}

#[derive(Copy, Clone, Eq, PartialEq, Debug, Hash, Structural)]
pub enum Piece {
    King,
    Queen,
    Rook,
    Knight,
    Bishop,
    Pawn,
}

/// Row of the board, `First` being White's back rank.
#[derive(Debug, Clone, Copy, PartialEq, Eq, Structural)]
pub enum Rank {
    First,
    Second,
    Third,
    Fourth,
    Fifth,
    Sixth,
    Seventh,
    Eighth,
}

/// Column of the board, `A` to `H` from White's left.
#[derive(Debug, Clone, Copy, PartialEq, Eq, Structural)]
pub enum File {
    A,
    B,
    C,
    D,
    E,
    F,
    G,
    H,
}

/// A square of the board, named by its rank and file.
#[derive(Debug, Clone, Copy, PartialEq, Eq, Structural)]
pub struct BoardSpace {
    pub rank: Rank,
    pub file: File,
}

pub type RawSquare = Option<(Color, Piece)>;

pub type RawRank = [RawSquare; 8];

/// The grid, rank index first, then file index.
pub type RawBoard = [RawRank; 8];

/// An 8x8 board of optionally occupied squares.
pub struct Board {
    inner: RawBoard,
}

impl Color {
    pub open spec fn opposite(self) -> Color {
        match self {
            Color::Black => Color::White,
            Color::White => Color::Black,
        }
    }

    /// Turns this color into the other one.
    pub fn flip(&mut self)
        ensures
            *final(self) == old(self).opposite(),
    {
        *self = self.flipped();
    }

    pub fn flipped(&self) -> (r: Self)
        ensures
            r == self.opposite(),
    {
        match self {
            Self::Black => Self::White,
            Self::White => Self::Black,
        }
    }
}

impl Rank {
    pub open spec fn spec_index(self) -> int {
        match self {
            Rank::First => 0,
            Rank::Second => 1,
            Rank::Third => 2,
            Rank::Fourth => 3,
            Rank::Fifth => 4,
            Rank::Sixth => 5,
            Rank::Seventh => 6,
            Rank::Eighth => 7,
        }
    }

    /// Row index of this rank, 0 for the first rank.
    pub fn index(self) -> (r: usize)
        ensures
            r as int == self.spec_index(),
            r < 8,
    {
        match self {
            Rank::First => 0,
            Rank::Second => 1,
            Rank::Third => 2,
            Rank::Fourth => 3,
            Rank::Fifth => 4,
            Rank::Sixth => 5,
            Rank::Seventh => 6,
            Rank::Eighth => 7,
        }
    }

    /// Reads a rank digit, `'1'` to `'8'`.
    pub fn from_char(c: char) -> (r: Result<Self, ()>)
        ensures
            r is Ok <==> ('1' <= c && c <= '8'),
            r is Ok ==> r->Ok_0.spec_index() == c as int - '1' as int,
    {
        let v = match c {
            '1' => Rank::First,
            '2' => Rank::Second,
            '3' => Rank::Third,
            '4' => Rank::Fourth,
            '5' => Rank::Fifth,
            '6' => Rank::Sixth,
            '7' => Rank::Seventh,
            '8' => Rank::Eighth,
            _ => return Err(()),
        };
        Ok(v)
    }
}

/// Column index named by a file letter, either case, if it is one.
pub open spec fn file_letter_index(c: char) -> Option<int> {
    if 'a' <= c && c <= 'h' {
        Some(c as int - 'a' as int)
    } else if 'A' <= c && c <= 'H' {
        Some(c as int - 'A' as int)
    } else {
        None
    }
}

impl File {
    pub open spec fn spec_index(self) -> int {
        match self {
            File::A => 0,
            File::B => 1,
            File::C => 2,
            File::D => 3,
            File::E => 4,
            File::F => 5,
            File::G => 6,
            File::H => 7,
        }
    }

    /// Column index of this file, 0 for file a.
    pub fn index(self) -> (r: usize)
        ensures
            r as int == self.spec_index(),
            r < 8,
    {
        match self {
            File::A => 0,
            File::B => 1,
            File::C => 2,
            File::D => 3,
            File::E => 4,
            File::F => 5,
            File::G => 6,
            File::H => 7,
        }
    }

    /// Reads a file letter, `a` to `h` in either case.
    pub fn from_char(c: char) -> (r: Result<Self, ()>)
        ensures
            r is Ok <==> file_letter_index(c) is Some,
            r is Ok ==> Some(r->Ok_0.spec_index()) == file_letter_index(c),
    {
        let file = match c {
            'A' | 'a' => Self::A,
            'B' | 'b' => Self::B,
            'C' | 'c' => Self::C,
            'D' | 'd' => Self::D,
            'E' | 'e' => Self::E,
            'F' | 'f' => Self::F,
            'G' | 'g' => Self::G,
            'H' | 'h' => Self::H,
            _ => return Err(()),
        };
        Ok(file)
    }
}

impl BoardSpace {
    pub open spec fn row(self) -> int {
        self.rank.spec_index()
    }

    pub open spec fn col(self) -> int {
        self.file.spec_index()
    }
}

/// Piece standing on a square of the standard starting position.
pub open spec fn start_square(r: int, f: int) -> RawSquare {
    if r == 0 {
        Some((Color::White, back_rank_piece(f)))
    } else if r == 1 {
        Some((Color::White, Piece::Pawn))
    } else if r == 6 {
        Some((Color::Black, Piece::Pawn))
    } else if r == 7 {
        Some((Color::Black, back_rank_piece(f)))
    } else {
        None
    }
}

pub open spec fn back_rank_piece(f: int) -> Piece {
    if f == 0 || f == 7 {
        Piece::Rook
    } else if f == 1 || f == 6 {
        Piece::Knight
    } else if f == 2 || f == 5 {
        Piece::Bishop
    } else if f == 3 {
        Piece::Queen
    } else {
        Piece::King
    }
}

/// The board that a move from `from` to `to` leaves behind: the destination
/// takes what the source held, then the source is emptied.
pub open spec fn moved_square(
    before: spec_fn(int, int) -> RawSquare,
    from: (int, int),
    to: (int, int),
    r: int,
    f: int,
) -> RawSquare {
    if (r, f) == from {
        None
    } else if (r, f) == to {
        before(from.0, from.1)
    } else {
        before(r, f)
    }
}

/// `after` is `before` with the move from `from` to `to` applied.
pub open spec fn moved_board(before: Board, after: Board, from: (int, int), to: (int, int)) -> bool {
    forall|r: int, f: int|
        0 <= r < 8 && 0 <= f < 8 ==> #[trigger] after.square(r, f) == moved_square(
            before.squares(),
            from,
            to,
            r,
            f,
        )
}

/// The two boards hold the same piece on every square.
pub open spec fn same_squares(a: Board, b: Board) -> bool {
    forall|r: int, f: int| 0 <= r < 8 && 0 <= f < 8 ==> #[trigger] a.square(r, f) == b.square(r, f)
}

proof fn lemma_space_coords(a: BoardSpace, b: BoardSpace)
    ensures
        0 <= a.row() < 8 && 0 <= a.col() < 8,
        a != b ==> (a.row(), a.col()) != (b.row(), b.col()),
{
    if a.rank != b.rank {
        assert(a.row() != b.row()) by {
            match a.rank {
                Rank::First => {},
                Rank::Second => {},
                Rank::Third => {},
                Rank::Fourth => {},
                Rank::Fifth => {},
                Rank::Sixth => {},
                Rank::Seventh => {},
                Rank::Eighth => {},
            }
        }
    }
    if a.file != b.file {
        assert(a.col() != b.col()) by {
            match a.file {
                File::A => {},
                File::B => {},
                File::C => {},
                File::D => {},
                File::E => {},
                File::F => {},
                File::G => {},
                File::H => {},
            }
        }
    }
}

/// A move is deterministic: played on boards with the same squares, it
/// leaves boards with the same squares.
pub proof fn lemma_move_deterministic(
    b0: Board,
    b1: Board,
    c0: Board,
    c1: Board,
    from: BoardSpace,
    to: BoardSpace,
)
    requires
        same_squares(b0, c0),
        moved_board(b0, b1, (from.row(), from.col()), (to.row(), to.col())),
        moved_board(c0, c1, (from.row(), from.col()), (to.row(), to.col())),
    ensures
        same_squares(b1, c1),
{
    lemma_space_coords(from, to);
}

/// Playing one move twice in a row empties both its squares and leaves
/// every other square as it was before the first play.
pub proof fn lemma_move_twice_empties_both(
    b0: Board,
    b1: Board,
    b2: Board,
    from: BoardSpace,
    to: BoardSpace,
)
    requires
        moved_board(b0, b1, (from.row(), from.col()), (to.row(), to.col())),
        moved_board(b1, b2, (from.row(), from.col()), (to.row(), to.col())),
    ensures
        b2.square(from.row(), from.col()) == None::<(Color, Piece)>,
        b2.square(to.row(), to.col()) == None::<(Color, Piece)>,
        forall|r: int, f: int|
            0 <= r < 8 && 0 <= f < 8 && (r, f) != (from.row(), from.col()) && (r, f) != (
                to.row(),
                to.col(),
            ) ==> #[trigger] b2.square(r, f) == b0.square(r, f),
{
    lemma_space_coords(from, to);
    lemma_space_coords(to, from);
}

/// Playing one move twice in a row from an empty source: the second play
/// changes nothing, the source stays empty and the destination holds what
/// the source held before the first play.
pub proof fn lemma_move_twice(b0: Board, b1: Board, b2: Board, from: BoardSpace, to: BoardSpace)
    requires
        moved_board(b0, b1, (from.row(), from.col()), (to.row(), to.col())),
        moved_board(b1, b2, (from.row(), from.col()), (to.row(), to.col())),
        b0.square(from.row(), from.col()) == None::<(Color, Piece)>,
    ensures
        same_squares(b1, b2),
        b2.square(from.row(), from.col()) == None::<(Color, Piece)>,
        b2.square(to.row(), to.col()) == b0.square(from.row(), from.col()),
{
    lemma_space_coords(from, to);
    lemma_space_coords(to, from);
}

fn back_rank(color: Color) -> (r: RawRank)
    ensures
        forall|f: int| 0 <= f < 8 ==> #[trigger] r@[f] == Some((color, back_rank_piece(f))),
{
    [
        Some((color, Piece::Rook)),
        Some((color, Piece::Knight)),
        Some((color, Piece::Bishop)),
        Some((color, Piece::Queen)),
        Some((color, Piece::King)),
        Some((color, Piece::Bishop)),
        Some((color, Piece::Knight)),
        Some((color, Piece::Rook)),
    ]
}

fn uniform_rank(sq: RawSquare) -> (r: RawRank)
    ensures
        forall|f: int| 0 <= f < 8 ==> #[trigger] r@[f] == sq,
{
    [sq, sq, sq, sq, sq, sq, sq, sq]
}

impl Board {
    /// What stands on the square at rank index `r` and file index `f`.
    pub closed spec fn square(&self, r: int, f: int) -> RawSquare {
        self.inner@[r]@[f]
    }

    pub open spec fn squares(&self) -> spec_fn(int, int) -> RawSquare {
        |r: int, f: int| self.square(r, f)
    }

    /// A board in the standard starting position.
    pub fn new() -> (b: Self)
        ensures
            forall|r: int, f: int|
                0 <= r < 8 && 0 <= f < 8 ==> #[trigger] b.square(r, f) == start_square(r, f),
    {
        let blank = uniform_rank(None);
        let inner = [
            back_rank(Color::White),
            uniform_rank(Some((Color::White, Piece::Pawn))),
            blank,
            blank,
            blank,
            blank,
            uniform_rank(Some((Color::Black, Piece::Pawn))),
            back_rank(Color::Black),
        ];
        Self { inner }
    }

    /// A copy of the grid, rank index first.
    pub fn raw(&self) -> (r: RawBoard)
        ensures
            forall|i: int, f: int|
                0 <= i < 8 && 0 <= f < 8 ==> #[trigger] r@[i]@[f] == self.square(i, f),
    {
        self.inner
    }

    /// Moves whatever stands on `from` to `to` and empties `from`, with no
    /// check of occupancy, turn or legality.
    pub fn make_move(&mut self, from: BoardSpace, to: BoardSpace)
        ensures
            moved_board(*old(self), *final(self), (from.row(), from.col()), (to.row(), to.col())),
    {
        let to_rank = to.rank.index();
        let to_file = to.file.index();
        let from_rank = from.rank.index();
        let from_file = from.file.index();
        let carried = self.inner[from_rank][from_file];
        let mut dest = self.inner[to_rank];
        dest[to_file] = carried;
        self.inner[to_rank] = dest;
        let mut src = self.inner[from_rank];
        src[from_file] = None;
        self.inner[from_rank] = src;
    }
}

impl Piece {
    /// Glyph of this piece when owned by `color`.
    pub fn display(self, color: Color) -> (r: char)
        ensures
            r == glyph(self, color),
    {
        match color {
            Color::Black => self.display_black(),
            Color::White => self.display_white(),
        }
    }

    pub fn display_black(self) -> (r: char)
        ensures
            r == glyph(self, Color::Black),
    {
        match self {
            Piece::King => '\u{2654}',
            Piece::Queen => '\u{2655}',
            Piece::Rook => '\u{2656}',
            Piece::Knight => '\u{2658}',
            Piece::Bishop => '\u{2657}',
            Piece::Pawn => '\u{2659}',
        }
    }

    pub fn display_white(self) -> (r: char)
        ensures
            r == glyph(self, Color::White),
    {
        match self {
            Piece::King => '\u{265A}',
            Piece::Queen => '\u{265B}',
            Piece::Rook => '\u{265C}',
            Piece::Knight => '\u{265E}',
            Piece::Bishop => '\u{265D}',
            Piece::Pawn => '\u{265F}',
        }
    }
}

/// Display glyph of a piece: the outlined chess symbols stand for Black,
/// the filled ones for White.
pub open spec fn glyph(p: Piece, c: Color) -> char {
    match (c, p) {
        (Color::Black, Piece::King) => '\u{2654}',
        (Color::Black, Piece::Queen) => '\u{2655}',
        (Color::Black, Piece::Rook) => '\u{2656}',
        (Color::Black, Piece::Bishop) => '\u{2657}',
        (Color::Black, Piece::Knight) => '\u{2658}',
        (Color::Black, Piece::Pawn) => '\u{2659}',
        (Color::White, Piece::King) => '\u{265A}',
        (Color::White, Piece::Queen) => '\u{265B}',
        (Color::White, Piece::Rook) => '\u{265C}',
        (Color::White, Piece::Bishop) => '\u{265D}',
        (Color::White, Piece::Knight) => '\u{265E}',
        (Color::White, Piece::Pawn) => '\u{265F}',
    }
}

} // verus!
