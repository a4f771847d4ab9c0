use vstd::prelude::*;

use crate::board::{spec_next, Player, Tile};
use crate::game::{step, Game, GameState};
use crate::protocol::Event;

verus! {

/// A message and the player it is sent to.
#[derive(PartialEq, Eq, Structural, Debug, Clone, Copy)]
pub struct Delivery {
    pub to: Player,
    pub event: Event,
}

/// The server takes `msg` from `from` as a move: the game waits for
/// `from`, and the message plays a legal move.
pub open spec fn accepts(t: Seq<Tile>, s: GameState, from: Player, msg: Event) -> bool {
    match msg {
        Event::Play(i) => s == GameState::AwaitingMove(from) && 0 <= i < 9 && t[i as int]
            == Tile::Empty,
        _ => false,
    }
}

/// What the server sends when the game stands at `s`: the turn of the
/// player it waits for, or nothing once it is over.
pub open spec fn prompt(s: GameState) -> Seq<Delivery> {
    match s {
        GameState::AwaitingMove(p) => seq![Delivery { to: p, event: Event::Turn }],
        GameState::Finished(o) => seq![
            Delivery { to: Player::X, event: Event::End(o) },
            Delivery { to: Player::O, event: Event::End(o) },
        ],
    }
}

/// What the server sends on `msg` from `from`. An accepted move is
/// announced to the mover, then to the other player; then the game's end is
/// announced to both in the same order, or the next player gets the turn.
/// Anything else is dropped without a reply.
pub open spec fn replies(t: Seq<Tile>, s: GameState, from: Player, msg: Event) -> Seq<Delivery> {
    if accepts(t, s, from, msg) {
        let i = msg->Play_0;
        let played = Event::Played { player: from, pos: i };
        let after = step(t, s, i as int).1;
        let told = seq![
            Delivery { to: from, event: played },
            Delivery { to: spec_next(from), event: played },
        ];
        match after {
            GameState::AwaitingMove(p) => told.push(Delivery { to: p, event: Event::Turn }),
            GameState::Finished(o) => told.push(Delivery { to: from, event: Event::End(o) }).push(
                Delivery { to: spec_next(from), event: Event::End(o) },
            ),
        }
    } else {
        Seq::empty()
    }
}

impl Game {
    /// What the server sends before any move is made: the turn of the
    /// player to move.
    pub fn opening(&self) -> (r: Vec<Delivery>)
        ensures
            r@ == prompt(self.state),
    {
        match self.state {
            GameState::AwaitingMove(p) => vec![Delivery { to: p, event: Event::Turn }],
            GameState::Finished(o) => vec![
                Delivery { to: Player::X, event: Event::End(o) },
                Delivery { to: Player::O, event: Event::End(o) },
            ],
        }
    }

    /// The server receives `msg` from `from`: an accepted move is played and
    /// announced; a move out of turn, onto an occupied cell, or any other
    /// message changes nothing and gets no reply.
    pub fn receive(&mut self, from: Player, msg: Event) -> (r: Vec<Delivery>)
        ensures
            r@ == replies(old(self).board.tiles@, old(self).state, from, msg),
            accepts(old(self).board.tiles@, old(self).state, from, msg) ==> (
            final(self).board.tiles@,
            final(self).state,
            ) == step(old(self).board.tiles@, old(self).state, msg->Play_0 as int),
            !accepts(old(self).board.tiles@, old(self).state, from, msg) ==> (
            final(self).board.tiles@,
            final(self).state,
            ) == (old(self).board.tiles@, old(self).state),
    {
        let i = match msg {
            Event::Play(i) => i,
            _ => return Vec::new(),
        };
        if self.state != GameState::AwaitingMove(from) {
            return Vec::new();
        }
        if self.play(i).is_err() {
            return Vec::new();
        }
        let played = Event::Played { player: from, pos: i };
        let mut out = vec![
            Delivery { to: from, event: played },
            Delivery { to: from.next(), event: played },
        ];
        match self.state {
            GameState::AwaitingMove(p) => {
                out.push(Delivery { to: p, event: Event::Turn });
            },
            GameState::Finished(o) => {
                out.push(Delivery { to: from, event: Event::End(o) });
                out.push(Delivery { to: from.next(), event: Event::End(o) });
            },
        }
        out
    }
}

} // verus!
