use vstd::prelude::*;

use crate::board::{moved_board, same_squares, start_square, Board, Color};
use crate::display::{push_char, render};
use crate::notation::{error_text, notation_coords, NotationParseError};

verus! {

/// Where a connection stands in the protocol.
#[derive(Debug, Clone, Copy, PartialEq, Eq, Structural)]
pub enum Phase {
    /// Asked whether to join or create a room.
    AwaitingChoice,
    /// Asked for the code of the room to join.
    JoiningRoom,
    /// Holds a room open; `dots` is the length of the next waiting animation.
    CreatingRoom { dots: usize },
    /// Playing, as `color`.
    InGame { color: Color },
    Closed,
}

/// One connection's course through the protocol, from the first prompt to
/// the end of its game.
pub struct Session {
    pub phase: Phase,
}

pub open spec fn choice_prompt_text() -> Seq<char> {
    "Join or create room? [j/c]\n"@
}

pub open spec fn usage_text() -> Seq<char> {
    "Please write `join`/`j` or `create`/`c`.\n"@
}

pub open spec fn code_prompt_text() -> Seq<char> {
    "input game code\n"@
}

pub open spec fn unknown_code_text() -> Seq<char> {
    "\nunknown game code\n"@
}

pub open spec fn join_failed_text() -> Seq<char> {
    "\nCould not join game\n"@
}

pub open spec fn turn_prompt_text() -> Seq<char> {
    "Your turn!\n"@
}

/// Line that tells a creator the code of their room.
pub open spec fn code_notice_text(code: Seq<char>) -> Seq<char> {
    "Code: "@ + code + seq!['\n']
}

/// Waiting line with `dots` dots, padded with blanks to three, drawn over
/// the previous one.
pub open spec fn waiting_text(dots: nat) -> Seq<char> {
    "\rWaiting for opponent"@ + Seq::new(dots, |i: int| '.') + Seq::new(
        (3 - dots) as nat,
        |i: int| ' ',
    )
}

/// Dot count that follows `dots` in the waiting animation: 1, 2, 3, 1, ...
pub open spec fn next_dots(dots: nat) -> nat {
    if dots >= 3 {
        1
    } else {
        dots + 1
    }
}

impl Session {
    /// A fresh connection, about to be asked to join or create.
    pub fn new() -> (s: Self)
        ensures
            s.phase == Phase::AwaitingChoice,
    {
        Session { phase: Phase::AwaitingChoice }
    }

    /// First prompt of every connection, and of each retry.
    pub fn choice_prompt(&self) -> (r: &'static str)
        ensures
            r@ == choice_prompt_text(),
    {
        "Join or create room? [j/c]\n"
    }

    /// Answer to the join-or-create prompt: a line starting with `j` joins,
    /// one starting with `c` creates, anything else is told how to answer
    /// and asked again. Returns what to send back (empty for none). Outside
    /// of that prompt nothing changes.
    pub fn on_choice(&mut self, line: &str) -> (r: &'static str)
        ensures
            old(self).phase != Phase::AwaitingChoice ==> final(self).phase == old(self).phase
                && r@ == Seq::<char>::empty(),
            old(self).phase == Phase::AwaitingChoice && line@.len() > 0 && line@[0] == 'j'
                ==> final(self).phase == Phase::JoiningRoom && r@ == code_prompt_text(),
            old(self).phase == Phase::AwaitingChoice && line@.len() > 0 && line@[0] == 'c'
                ==> final(self).phase == (Phase::CreatingRoom { dots: 1 }) && r@
                == Seq::<char>::empty(),
            old(self).phase == Phase::AwaitingChoice && !(line@.len() > 0 && (line@[0] == 'j'
                || line@[0] == 'c')) ==> final(self).phase == Phase::AwaitingChoice && r@
                == usage_text(),
    {
        proof {
            reveal_strlit("");
        }
        if self.phase != Phase::AwaitingChoice {
            return "";
        }
        let n = line.unicode_len();
        if n > 0 && line.get_char(0) == 'j' {
            self.phase = Phase::JoiningRoom;
            "input game code\n"
        } else if n > 0 && line.get_char(0) == 'c' {
            self.phase = Phase::CreatingRoom { dots: 1 };
            ""
        } else {
            "Please write `join`/`j` or `create`/`c`.\n"
        }
    }

    /// Outcome of the claim of the typed code: with the room found the
    /// connection goes to its creator and plays Black; else the player is
    /// told and the connection closes. Outside of the code prompt nothing
    /// changes.
    pub fn on_claim(&mut self, found: bool) -> (r: &'static str)
        ensures
            old(self).phase != Phase::JoiningRoom ==> final(self).phase == old(self).phase && r@
                == Seq::<char>::empty(),
            old(self).phase == Phase::JoiningRoom && found ==> final(self).phase == (Phase::InGame {
                color: Color::Black,
            }) && r@ == Seq::<char>::empty(),
            old(self).phase == Phase::JoiningRoom && !found ==> final(self).phase == Phase::Closed
                && r@ == unknown_code_text(),
    {
        proof {
            reveal_strlit("");
        }
        if self.phase != Phase::JoiningRoom {
            ""
        } else if found {
            self.phase = Phase::InGame { color: Color::Black };
            ""
        } else {
            self.phase = Phase::Closed;
            "\nunknown game code\n"
        }
    }

    /// The claimed room's creator had already gone when the connection was
    /// handed over: the player is told and the connection closes.
    pub fn on_creator_gone(&mut self) -> (r: &'static str)
        ensures
            final(self).phase == Phase::Closed,
            r@ == join_failed_text(),
    {
        self.phase = Phase::Closed;
        "\nCould not join game\n"
    }

    /// The line that tells the creator the code of the room just opened.
    pub fn code_notice(&self, code: &str) -> (r: String)
        ensures
            r@ == code_notice_text(code@),
    {
        let mut r = String::from_str("Code: ");
        r.append(code);
        push_char(&mut r, '\n');
        r
    }

    /// One beat of the waiting animation: the line to send, and the next
    /// dot count.
    pub fn on_tick(&mut self) -> (r: String)
        requires
            old(self).phase matches Phase::CreatingRoom { dots } && 1 <= dots <= 3,
        ensures
            old(self).phase matches Phase::CreatingRoom { dots } && r@ == waiting_text(dots as nat)
                && final(self).phase == (Phase::CreatingRoom {
                dots: next_dots(dots as nat) as usize,
            }),
    {
        let dots = match self.phase {
            Phase::CreatingRoom { dots } => dots,
            _ => 1,
        };
        let mut r = String::from_str("\rWaiting for opponent");
        let ghost head = r@;
        let mut i: usize = 0;
        while i < dots
            invariant
                i <= dots <= 3,
                r@ == head + Seq::new(i as nat, |k: int| '.'),
            decreases dots - i,
        {
            push_char(&mut r, '.');
            assert(r@ =~= head + Seq::new((i + 1) as nat, |k: int| '.'));
            i = i + 1;
        }
        let ghost mid = r@;
        let mut j: usize = 0;
        while j < 3 - dots
            invariant
                j <= 3 - dots,
                dots <= 3,
                r@ == mid + Seq::new(j as nat, |k: int| ' '),
            decreases 3 - dots - j,
        {
            push_char(&mut r, ' ');
            assert(r@ =~= mid + Seq::new((j + 1) as nat, |k: int| ' '));
            j = j + 1;
        }
        let next = if dots >= 3 {
            1
        } else {
            dots + 1
        };
        self.phase = Phase::CreatingRoom { dots: next };
        r
    }

    /// An opponent joined the room: the creator plays White. Outside of a
    /// created room nothing changes.
    pub fn on_paired(&mut self)
        ensures
            old(self).phase matches Phase::CreatingRoom { .. } ==> final(self).phase == (
            Phase::InGame { color: Color::White }),
            !(old(self).phase matches Phase::CreatingRoom { .. }) ==> final(self).phase == old(
                self,
            ).phase,
    {
        if let Phase::CreatingRoom { .. } = self.phase {
            self.phase = Phase::InGame { color: Color::White };
        }
    }

    /// The game ended, or a read or write failed: the connection closes.
    pub fn on_end(&mut self)
        ensures
            final(self).phase == Phase::Closed,
    {
        self.phase = Phase::Closed;
    }
}

/// A game in progress: the board and the side to move.
pub struct Game {
    board: Board,
    active: Color,
}

impl Game {
    pub closed spec fn spec_board(&self) -> Board {
        self.board
    }

    pub closed spec fn spec_active(&self) -> Color {
        self.active
    }

    /// A game at the starting position, White to move.
    pub fn new() -> (g: Self)
        ensures
            g.spec_active() == Color::White,
            forall|r: int, f: int|
                0 <= r < 8 && 0 <= f < 8 ==> #[trigger] g.spec_board().square(r, f)
                    == start_square(r, f),
    {
        Game { board: Board::new(), active: Color::White }
    }

    /// The side whose move is awaited.
    pub fn active(&self) -> (r: Color)
        ensures
            r == self.spec_active(),
    {
        self.active
    }

    pub fn board(&self) -> (r: &Board)
        ensures
            *r == self.spec_board(),
    {
        &self.board
    }

    /// The board as White sees it and as Black sees it, sent to each side at
    /// the start of every round.
    pub fn renders(&self) -> (r: (String, String))
        ensures
            r.0@ == render(self.spec_board(), Color::White),
            r.1@ == render(self.spec_board(), Color::Black),
    {
        let white = match self.board.display(Color::White) {
            Ok(s) => s,
            Err(_) => String::new(),
        };
        let black = match self.board.display(Color::Black) {
            Ok(s) => s,
            Err(_) => String::new(),
        };
        (white, black)
    }

    /// Prompt sent to the active side alone.
    pub fn turn_prompt(&self) -> (r: &'static str)
        ensures
            r@ == turn_prompt_text(),
    {
        "Your turn!\n"
    }

    /// The active side's move. A move that reads plays and passes the turn;
    /// one that does not leaves board and turn as they were, for the same
    /// side to try again.
    pub fn play(&mut self, line: String) -> (r: Result<(), NotationParseError>)
        ensures
            match notation_coords(line@) {
                Ok((from, to)) => r is Ok && moved_board(
                    old(self).spec_board(),
                    final(self).spec_board(),
                    from,
                    to,
                ) && final(self).spec_active() == old(self).spec_active().opposite(),
                Err(e) => r == Err::<(), NotationParseError>(e) && same_squares(
                    old(self).spec_board(),
                    final(self).spec_board(),
                ) && final(self).spec_active() == old(self).spec_active(),
            },
    {
        let r = self.board.turn(line);
        if r.is_ok() {
            self.active.flip();
        }
        r
    }
}

impl NotationParseError {
    /// What the active side is sent when its move could not be read.
    pub fn notice(&self) -> (r: String)
        ensures
            r@ == seq!['\n'] + error_text(*self) + seq!['\n'],
    {
        let mut r = String::new();
        push_char(&mut r, '\n');
        r.append(self.message());
        push_char(&mut r, '\n');
        r
    }
}

/// Kind of an I/O failure on a connection.
#[derive(Debug, Clone, Copy, PartialEq, Eq, Structural)]
pub enum IoKind {
    ConnectionReset,
    ConnectionAborted,
    NotConnected,
    UnexpectedEof,
    Other,
}

/// What ends a session early.
#[derive(Debug, Clone, Copy, PartialEq, Eq, Structural)]
pub enum Error {
    /// A read or write on a connection failed.
    Io(IoKind),
    /// A text could not be formatted.
    Fmt,
    /// The hand-over of a connection between sessions failed.
    OneshotRecv,
}

pub open spec fn failure_text(e: Error) -> Seq<char> {
    match e {
        Error::Io(IoKind::ConnectionReset) => "Connection reset"@,
        Error::Io(IoKind::ConnectionAborted) => "Connection aborted"@,
        Error::Io(IoKind::NotConnected) => "Not connected"@,
        Error::Io(IoKind::UnexpectedEof) => "Unexpected EOF"@,
        Error::Io(IoKind::Other) => "I/O error"@,
        Error::Fmt => "Internal formatting error"@,
        Error::OneshotRecv => "Internal communication error"@,
    }
}

impl Error {
    /// Short description of the failure.
    pub fn message(&self) -> (r: &'static str)
        ensures
            r@ == failure_text(*self),
    {
        match self {
            Error::Io(IoKind::ConnectionReset) => "Connection reset",
            Error::Io(IoKind::ConnectionAborted) => "Connection aborted",
            Error::Io(IoKind::NotConnected) => "Not connected",
            Error::Io(IoKind::UnexpectedEof) => "Unexpected EOF",
            Error::Io(IoKind::Other) => "I/O error",
            Error::Fmt => "Internal formatting error",
            Error::OneshotRecv => "Internal communication error",
        }
    }

    /// Notice sent to both players when their game breaks off.
    pub fn disconnect_notice(&self) -> (r: String)
        ensures
            r@ == "\nDisconnected: "@ + failure_text(*self) + seq!['\n'],
    {
        let mut r = String::from_str("\nDisconnected: ");
        r.append(self.message());
        push_char(&mut r, '\n');
        r
    }
}

} // verus!
