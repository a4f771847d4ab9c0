use vstd::prelude::*;

use crate::board::{spec_tile, Board, Outcome, Tile};
use crate::protocol::{Event, ProtocolError};

verus! {

/// The board column under screen column `c`, if any.
pub open spec fn column_band(c: u16) -> Option<usize> {
    if c <= 2 {
        Some(0)
    } else if 4 <= c <= 6 {
        Some(1)
    } else if 8 <= c <= 10 {
        Some(2)
    } else {
        None
    }
}

/// The board row under screen row `r`, if any.
pub open spec fn row_band(r: u16) -> Option<usize> {
    if r == 0 {
        Some(0)
    } else if r == 2 {
        Some(1)
    } else if r == 4 {
        Some(2)
    } else {
        None
    }
}

/// The cell drawn at screen position (`column`, `row`) by `Board::render`,
/// if any: separators and positions beyond the grid hold none.
pub fn cell_at(column: u16, row: u16) -> (r: Option<usize>)
    ensures
        r == match (column_band(column), row_band(row)) {
            (Some(c), Some(w)) => Some((w * 3 + c) as usize),
            _ => None::<usize>,
        },
        r matches Some(i) ==> i < 9,
{
    let c: usize = if column <= 2 {
        0
    } else if 4 <= column && column <= 6 {
        1
    } else if 8 <= column && column <= 10 {
        2
    } else {
        return None;
    };
    let w: usize = if row == 0 {
        0
    } else if row == 2 {
        1
    } else if row == 4 {
        2
    } else {
        return None;
    };
    Some(w * 3 + c)
}

/// Where a client session stands.
#[derive(PartialEq, Eq, Structural, Debug, Clone, Copy)]
pub enum Phase {
    /// Waiting for the server.
    Waiting,
    /// The server gave this client the turn: waiting for the user's choice.
    Choosing,
    /// The game is over.
    Over(Outcome),
}

/// A client's copy of the board and where its session stands.
#[derive(Clone, Copy)]
pub struct Client {
    pub board: Board,
    pub phase: Phase,
}

impl Client {
    /// A session before any message: an empty board, waiting for the server.
    pub fn new() -> (r: Client)
        ensures
            forall|i: int| 0 <= i < 9 ==> r.board.tiles@[i] == Tile::Empty,
            r.phase == Phase::Waiting,
    {
        Client { board: Board::new(), phase: Phase::Waiting }
    }

    /// The client receives `e` from the server. `Turn` hands it the choice
    /// of a cell; `Played` is written to the board whatever the cell held;
    /// `End` closes the session. A `Play`, a cell that does not exist, or
    /// any message after the end is refused and changes nothing.
    pub fn receive(&mut self, e: Event) -> (r: Result<(), ProtocolError>)
        ensures
            r is Err <==> (old(self).phase is Over || e is Play || (e is Played
                && e->Played_pos >= 9)),
            r is Err ==> final(self).phase == old(self).phase,
            r is Err ==> final(self).board.tiles@ == old(self).board.tiles@,
            r is Ok && e is Turn ==> final(self).phase == Phase::Choosing,
            r is Ok && e is Played ==> final(self).phase == old(self).phase,
            r is Ok && e is End ==> final(self).phase == Phase::Over(e->End_0),
            r is Ok && e is Played ==> final(self).board.tiles@ == old(self).board.tiles@.update(
                e->Played_pos as int,
                spec_tile(e->Played_player),
            ),
            r is Ok && !(e is Played) ==> final(self).board.tiles@ == old(self).board.tiles@,
    {
        if let Phase::Over(_) = self.phase {
            return Err(ProtocolError::UnexpectedMessage);
        }
        match e {
            Event::Turn => {
                self.phase = Phase::Choosing;
                Ok(())
            },
            Event::Played { player, pos } => {
                if pos >= 9 {
                    return Err(ProtocolError::MalformedMessage);
                }
                self.board.tiles[pos] = player.tile();
                Ok(())
            },
            Event::End(o) => {
                self.phase = Phase::Over(o);
                Ok(())
            },
            Event::Play(_) => Err(ProtocolError::UnexpectedMessage),
        }
    }

    /// The user picks cell `i`. While the client has the choice and the
    /// cell is empty, this gives the move to send and waits for the server
    /// again; otherwise the pick is discarded.
    pub fn pick(&mut self, i: usize) -> (r: Option<Event>)
        ensures
            r is Some <==> (old(self).phase == Phase::Choosing && i < 9
                && old(self).board.tiles@[i as int] == Tile::Empty),
            r is Some ==> r == Some(Event::Play(i)) && final(self).phase == Phase::Waiting,
            r is None ==> final(self).phase == old(self).phase,
            final(self).board.tiles@ == old(self).board.tiles@,
    {
        if self.phase != Phase::Choosing || i >= 9 || self.board.tiles[i] != Tile::Empty {
            return None;
        }
        self.phase = Phase::Waiting;
        Some(Event::Play(i))
    }
}

} // verus!
