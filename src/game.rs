use vstd::prelude::*;

use crate::board::{board_outcome, spec_next, spec_tile, Board, InvalidMove, Outcome, Player, Tile};

verus! {

/// Where a game stands: waiting for a player's move, or over.
#[derive(PartialEq, Eq, Structural, Debug, Clone, Copy)]
pub enum GameState {
    AwaitingMove(Player),
    Finished(Outcome),
}

/// A move onto cell `i` is legal: the game waits for a move, and the cell
/// exists and is empty.
pub open spec fn is_legal(t: Seq<Tile>, s: GameState, i: int) -> bool {
    &&& s is AwaitingMove
    &&& 0 <= i < 9
    &&& t[i] == Tile::Empty
}

/// The player whose move a state waits for (meaningful while it waits).
pub open spec fn to_move(s: GameState) -> Player {
    match s {
        GameState::AwaitingMove(p) => p,
        GameState::Finished(_) => Player::X,
    }
}

/// The state after the cells `t` were filled by a move of `p`: finished if
/// the board has an outcome, else waiting for the other player.
pub open spec fn state_after(t: Seq<Tile>, p: Player) -> GameState {
    match board_outcome(t) {
        Some(o) => GameState::Finished(o),
        None => GameState::AwaitingMove(spec_next(p)),
    }
}

/// One move onto cell `i`: a legal move places the mark of the player to
/// move and then decides the next state; any other move changes nothing.
pub open spec fn step(t: Seq<Tile>, s: GameState, i: int) -> (Seq<Tile>, GameState) {
    if is_legal(t, s, i) {
        let t2 = t.update(i, spec_tile(to_move(s)));
        (t2, state_after(t2, to_move(s)))
    } else {
        (t, s)
    }
}

/// The cells and state after the moves `moves`, made in order.
pub open spec fn replay(t: Seq<Tile>, s: GameState, moves: Seq<int>) -> (Seq<Tile>, GameState)
    decreases moves.len(),
{
    if moves.len() == 0 {
        (t, s)
    } else {
        let prev = replay(t, s, moves.drop_last());
        step(prev.0, prev.1, moves.last())
    }
}

/// The players who made the legal moves among `moves`, in order.
pub open spec fn movers(t: Seq<Tile>, s: GameState, moves: Seq<int>) -> Seq<Player>
    decreases moves.len(),
{
    if moves.len() == 0 {
        Seq::empty()
    } else {
        let prev = replay(t, s, moves.drop_last());
        let m = movers(t, s, moves.drop_last());
        if is_legal(prev.0, prev.1, moves.last()) {
            m.push(to_move(prev.1))
        } else {
            m
        }
    }
}

/// The nine empty cells of a new game.
pub open spec fn empty_cells() -> Seq<Tile> {
    Seq::new(9, |i: int| Tile::Empty)
}

/// The player who makes the `k`-th legal move of a game (counting from 0).
pub open spec fn turn_player(k: int) -> Player {
    if k % 2 == 0 {
        Player::X
    } else {
        Player::O
    }
}

/// A board together with where the game on it stands.
#[derive(Clone, Copy)]
pub struct Game {
    pub board: Board,
    pub state: GameState,
}

impl Game {
    /// A new game: an empty board, waiting for `X` to move.
    pub fn new() -> (r: Game)
        ensures
            r.board.tiles@ == empty_cells(),
            r.state == GameState::AwaitingMove(Player::X),
    {
        let board = Board::new();
        assert(board.tiles@ == empty_cells());
        Game { board, state: GameState::AwaitingMove(Player::X) }
    }

    /// The player to move makes a move onto cell `i`. A move onto an
    /// occupied or missing cell, or after the game is over, is refused and
    /// changes nothing.
    pub fn play(&mut self, i: usize) -> (r: Result<(), InvalidMove>)
        ensures
            r is Ok <==> is_legal(old(self).board.tiles@, old(self).state, i as int),
            (final(self).board.tiles@, final(self).state) == step(
                old(self).board.tiles@,
                old(self).state,
                i as int,
            ),
    {
        match self.state {
            GameState::AwaitingMove(p) => {
                match self.board.apply(i, p) {
                    Ok(()) => {
                        self.state = match self.board.check_outcome() {
                            Some(o) => GameState::Finished(o),
                            None => GameState::AwaitingMove(p.next()),
                        };
                        Ok(())
                    },
                    Err(e) => Err(e),
                }
            },
            GameState::Finished(_) => Err(InvalidMove),
        }
    }
}

/// A cell changes at most once: a move never erases or replaces a mark
/// already on the board, and changes no cell other than its own.
pub proof fn lemma_marks_persist(t: Seq<Tile>, s: GameState, i: int)
    requires
        t.len() == 9,
    ensures
        step(t, s, i).0.len() == t.len(),
        forall|j: int| 0 <= j < t.len() && t[j] != Tile::Empty ==> step(t, s, i).0[j] == t[j],
        forall|j: int| 0 <= j < t.len() && j != i ==> step(t, s, i).0[j] == t[j],
{
}

/// Turns alternate: in every sequence of moves from a new game, the legal
/// moves are made by `X`, `O`, `X`, ... in turn, so no player moves twice
/// without the other moving in between; and while the game goes on it
/// waits for the player whose turn that count gives.
pub proof fn lemma_turns_alternate(moves: Seq<int>)
    ensures
        ({
            let m = movers(empty_cells(), GameState::AwaitingMove(Player::X), moves);
            let end = replay(empty_cells(), GameState::AwaitingMove(Player::X), moves);
            &&& forall|k: int| 0 <= k < m.len() ==> m[k] == turn_player(k)
            &&& end.1 is AwaitingMove ==> to_move(end.1) == turn_player(m.len() as int)
        }),
    decreases moves.len(),
{
    let t0 = empty_cells();
    let s0 = GameState::AwaitingMove(Player::X);
    if moves.len() > 0 {
        lemma_turns_alternate(moves.drop_last());
        let prev = replay(t0, s0, moves.drop_last());
        let m = movers(t0, s0, moves.drop_last());
        if is_legal(prev.0, prev.1, moves.last()) {
            let t2 = prev.0.update(moves.last(), spec_tile(to_move(prev.1)));
            assert(turn_player(m.len() as int + 1) == spec_next(turn_player(m.len() as int)));
            assert(movers(t0, s0, moves) == m.push(to_move(prev.1)));
        }
    }
}

} // verus!
