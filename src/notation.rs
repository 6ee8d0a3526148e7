use vstd::prelude::*;

use crate::board::{file_letter_index, moved_board, same_squares, Board, BoardSpace, Color, File, Rank};

verus! {

/// Why a line of move notation could not be read.
#[derive(Debug, Clone, Copy, PartialEq, Eq, Structural)]
pub enum NotationParseError {
    BadLength,
    BadFragmentLength,
    UnknownRank,
    UnknownFile,
}

/// A square as (rank index, file index).
pub type Coord = (int, int);

/// Row index named by a rank digit, if it is one.
pub open spec fn rank_digit_index(c: char) -> Option<int> {
    if '1' <= c && c <= '8' {
        Some(c as int - '1' as int)
    } else {
        None
    }
}

/// The square that a two-character fragment such as `e4` names.
pub open spec fn fragment_coord(d: Seq<char>) -> Result<Coord, NotationParseError> {
    if d.len() != 2 {
        Err(NotationParseError::BadFragmentLength)
    } else {
        match file_letter_index(d[0]) {
            None => Err(NotationParseError::UnknownFile),
            Some(f) => match rank_digit_index(d[1]) {
                None => Err(NotationParseError::UnknownRank),
                Some(r) => Ok((r, f)),
            },
        }
    }
}

/// Source and destination named by a move: four characters, or five whose
/// first one is skipped.
pub open spec fn notation_coords(s: Seq<char>) -> Result<(Coord, Coord), NotationParseError> {
    if s.len() != 4 && s.len() != 5 {
        Err(NotationParseError::BadLength)
    } else {
        let b: int = if s.len() == 5 {
            1
        } else {
            0
        };
        match fragment_coord(s.subrange(b, b + 2)) {
            Err(e) => Err(e),
            Ok(from) => match fragment_coord(s.subrange(b + 2, b + 4)) {
                Err(e) => Err(e),
                Ok(to) => Ok((from, to)),
            },
        }
    }
}

impl NotationParseError {
    /// Text shown to the player whose move could not be read.
    pub fn message(&self) -> (r: &'static str)
        ensures
            r@ == error_text(*self),
    {
        match self {
            NotationParseError::BadLength => "Your chess notation was a weird length.",
            NotationParseError::BadFragmentLength => "Your fragmented chess notation was a weird length.",
            NotationParseError::UnknownRank => "That rank doesn't exist.",
            NotationParseError::UnknownFile => "That file doesn't exist.",
        }
    }
}

pub open spec fn error_text(e: NotationParseError) -> Seq<char> {
    match e {
        NotationParseError::BadLength => "Your chess notation was a weird length."@,
        NotationParseError::BadFragmentLength => "Your fragmented chess notation was a weird length."@,
        NotationParseError::UnknownRank => "That rank doesn't exist."@,
        NotationParseError::UnknownFile => "That file doesn't exist."@,
    }
}

/// Reads one square from a two-character fragment: file letter, then rank digit.
pub fn notation_to_position(data: &[char]) -> (r: Result<BoardSpace, NotationParseError>)
    ensures
        match r {
            Ok(space) => fragment_coord(data@) == Ok::<Coord, NotationParseError>(
                (space.row(), space.col()),
            ),
            Err(e) => fragment_coord(data@) == Err::<Coord, NotationParseError>(e),
        },
{
    if data.len() != 2 {
        return Err(NotationParseError::BadFragmentLength);
    }
    let file = match File::from_char(data[0]) {
        Ok(f) => f,
        Err(_) => return Err(NotationParseError::UnknownFile),
    };
    let rank = match Rank::from_char(data[1]) {
        Ok(r) => r,
        Err(_) => return Err(NotationParseError::UnknownRank),
    };
    Ok(BoardSpace { rank, file })
}

/// Reads a move: the source square, then the destination square.
pub fn parse_move(code: &str) -> (r: Result<(BoardSpace, BoardSpace), NotationParseError>)
    ensures
        match r {
            Ok((from, to)) => notation_coords(code@) == Ok::<(Coord, Coord), NotationParseError>(
                ((from.row(), from.col()), (to.row(), to.col())),
            ),
            Err(e) => notation_coords(code@) == Err::<(Coord, Coord), NotationParseError>(e),
        },
        code@.len() != 4 && code@.len() != 5 ==> r == Err::<
            (BoardSpace, BoardSpace),
            NotationParseError,
        >(NotationParseError::BadLength),
{
    let length = code.unicode_len();
    if length != 4 && length != 5 {
        return Err(NotationParseError::BadLength);
    }
    let base: usize = if length == 5 {
        1
    } else {
        0
    };
    let start = vec![code.get_char(base), code.get_char(base + 1)];
    let end = vec![code.get_char(base + 2), code.get_char(base + 3)];
    assert(start@ =~= code@.subrange(base as int, base + 2));
    assert(end@ =~= code@.subrange(base + 2, base + 4));
    let from = match notation_to_position(start.as_slice()) {
        Ok(s) => s,
        Err(e) => return Err(e),
    };
    let to = match notation_to_position(end.as_slice()) {
        Ok(s) => s,
        Err(e) => return Err(e),
    };
    Ok((from, to))
}

/// A four-character move `<file><rank><file><rank>` names the square of its
/// first letter and digit, then the square of its second letter and digit.
pub proof fn lemma_four_chars_name_squares(s: Seq<char>)
    requires
        s.len() == 4,
        file_letter_index(s[0]) is Some,
        rank_digit_index(s[1]) is Some,
        file_letter_index(s[2]) is Some,
        rank_digit_index(s[3]) is Some,
    ensures
        notation_coords(s) == Ok::<(Coord, Coord), NotationParseError>(
            (
                (rank_digit_index(s[1])->Some_0, file_letter_index(s[0])->Some_0),
                (rank_digit_index(s[3])->Some_0, file_letter_index(s[2])->Some_0),
            ),
        ),
{
    assert(s.subrange(0, 2)[0] == s[0] && s.subrange(0, 2)[1] == s[1]);
    assert(s.subrange(2, 4)[0] == s[2] && s.subrange(2, 4)[1] == s[3]);
}

/// A five-character move reads exactly as its last four characters do.
pub proof fn lemma_five_chars_skip_first(s: Seq<char>)
    requires
        s.len() == 5,
    ensures
        notation_coords(s) == notation_coords(s.drop_first()),
{
    assert(s.subrange(1, 3) =~= s.drop_first().subrange(0, 2));
    assert(s.subrange(3, 5) =~= s.drop_first().subrange(2, 4));
}

/// A move of any length but four or five is refused for its length.
pub proof fn lemma_other_lengths_refused(s: Seq<char>)
    requires
        s.len() != 4 && s.len() != 5,
    ensures
        notation_coords(s) == Err::<(Coord, Coord), NotationParseError>(
            NotationParseError::BadLength,
        ),
{
}

impl Board {
    /// Plays the move written in `code`; a line that does not name two
    /// squares leaves the board as it was.
    pub fn turn(&mut self, code: String) -> (r: Result<(), NotationParseError>)
        ensures
            match notation_coords(code@) {
                Ok((from, to)) => r is Ok && moved_board(*old(self), *final(self), from, to),
                Err(e) => r == Err::<(), NotationParseError>(e) && same_squares(
                    *old(self),
                    *final(self),
                ),
            },
    {
        let (from, to) = match parse_move(code.as_str()) {
            Ok(pair) => pair,
            Err(e) => return Err(e),
        };
        self.make_move(from, to);
        Ok(())
    }

    /// Whether `color` is mated. No rule of the game is checked, so no
    /// position counts as mate.
    pub fn has_mate(&self, color: Color) -> (r: bool)
        ensures
            !r,
    {
        false
    }
}

} // verus!
