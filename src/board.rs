use vstd::prelude::*;

verus! {

/// One of the two players; `X` always moves first.
#[derive(PartialEq, Eq, Structural, Debug, Clone, Copy)]
pub enum Player {
    X,
    O,
}

/// The result of a finished game.
#[derive(PartialEq, Eq, Structural, Debug, Clone, Copy)]
pub enum Outcome {
    Tie,
    X,
    O,
}

/// The content of one cell of the board.
#[derive(PartialEq, Eq, Structural, Debug, Clone, Copy)]
pub enum Tile {
    Empty,
    X,
    O,
}

/// The player that moves after `p`.
pub open spec fn spec_next(p: Player) -> Player {
    match p {
        Player::X => Player::O,
        Player::O => Player::X,
    }
}

/// The mark that `p` leaves in a cell.
pub open spec fn spec_tile(p: Player) -> Tile {
    match p {
        Player::X => Tile::X,
        Player::O => Tile::O,
    }
}

impl Player {
    #[must_use]
    pub fn next(self) -> (r: Self)
        ensures
            r == spec_next(self),
    {
        match self {
            Self::X => Self::O,
            Self::O => Self::X,
        }
    }

    pub fn tile(self) -> (r: Tile)
        ensures
            r == spec_tile(self),
    {
        match self {
            Self::X => Tile::X,
            Self::O => Tile::O,
        }
    }
}

/// The win that a line of three cells holding `t` stands for, if any.
pub open spec fn mark_win(t: Tile) -> Option<Outcome> {
    match t {
        Tile::Empty => None,
        Tile::X => Some(Outcome::X),
        Tile::O => Some(Outcome::O),
    }
}

/// The win of the line through cells `a`, `b` and `c`: all three hold the
/// same mark.
pub open spec fn line_win(t: Seq<Tile>, a: int, b: int, c: int) -> Option<Outcome> {
    if t[a] == t[b] && t[a] == t[c] {
        mark_win(t[a])
    } else {
        None
    }
}

/// `first` where it is a win, else `rest`.
pub open spec fn first_win(first: Option<Outcome>, rest: Option<Outcome>) -> Option<Outcome> {
    if first is Some {
        first
    } else {
        rest
    }
}

/// The first completed line, looking at the rows top to bottom, then the
/// columns left to right, then the diagonal from the top left corner and
/// the one from the top right corner.
pub open spec fn winner(t: Seq<Tile>) -> Option<Outcome> {
    first_win(line_win(t, 0, 1, 2),
    first_win(line_win(t, 3, 4, 5),
    first_win(line_win(t, 6, 7, 8),
    first_win(line_win(t, 0, 3, 6),
    first_win(line_win(t, 1, 4, 7),
    first_win(line_win(t, 2, 5, 8),
    first_win(line_win(t, 0, 4, 8),
    line_win(t, 2, 4, 6))))))))
}

/// Every cell holds a mark.
pub open spec fn is_full(t: Seq<Tile>) -> bool {
    forall|i: int| 0 <= i < t.len() ==> t[i] != Tile::Empty
}

/// The state of the game on cells `t`: the first completed line, else a tie
/// on a full board, else nothing (the game goes on).
pub open spec fn board_outcome(t: Seq<Tile>) -> Option<Outcome> {
    if winner(t) is Some {
        winner(t)
    } else if is_full(t) {
        Some(Outcome::Tie)
    } else {
        None
    }
}

/// A move onto a cell that is occupied or does not exist.
#[derive(PartialEq, Eq, Structural, Debug, Clone, Copy)]
pub struct InvalidMove;

/// The text that announces `o`.
pub open spec fn outcome_text(o: Outcome) -> Seq<char> {
    match o {
        Outcome::Tie => "It's a draw..."@,
        Outcome::X => "X wins!"@,
        Outcome::O => "O wins!"@,
    }
}

impl Outcome {
    /// The text that announces this outcome to the players.
    pub fn message(&self) -> (r: String)
        ensures
            r@ == outcome_text(*self),
    {
        match self {
            Outcome::Tie => String::from_str("It's a draw..."),
            Outcome::X => String::from_str("X wins!"),
            Outcome::O => String::from_str("O wins!"),
        }
    }
}

/// The character that shows `t`.
pub open spec fn tile_char(t: Tile) -> Seq<char> {
    match t {
        Tile::Empty => " "@,
        Tile::X => "X"@,
        Tile::O => "O"@,
    }
}

/// The row of cells `3 * r .. 3 * r + 3` as drawn on screen.
pub open spec fn row_text(t: Seq<Tile>, r: int) -> Seq<char> {
    " "@ + tile_char(t[3 * r]) + " │ "@ + tile_char(t[3 * r + 1]) + " │ "@ + tile_char(
        t[3 * r + 2],
    )
}

/// The line drawn between two rows, with the line breaks around it.
pub open spec fn separator() -> Seq<char> {
    "\r\n───┼───┼───\r\n"@
}

/// The board drawn as a grid of three rows with separators between them.
pub open spec fn board_text(t: Seq<Tile>) -> Seq<char> {
    row_text(t, 0) + separator() + row_text(t, 1) + separator() + row_text(t, 2)
}

/// Nine cells in row-major order: cell `row * 3 + column`.
#[derive(Clone, Copy)]
pub struct Board {
    pub tiles: [Tile; 9],
}

impl Board {
    /// A board with every cell empty.
    pub fn new() -> (r: Board)
        ensures
            forall|i: int| 0 <= i < 9 ==> r.tiles@[i] == Tile::Empty,
    {
        Board { tiles: [Tile::Empty; 9] }
    }

    /// Puts `p`'s mark in cell `i`, which must exist and be empty; otherwise
    /// the board stays as it was.
    pub fn apply(&mut self, i: usize, p: Player) -> (r: Result<(), InvalidMove>)
        ensures
            r is Ok <==> (i < 9 && old(self).tiles@[i as int] == Tile::Empty),
            r is Ok ==> final(self).tiles@ == old(self).tiles@.update(i as int, spec_tile(p)),
            r is Err ==> *final(self) == *old(self),
    {
        if i >= 9 || self.tiles[i] != Tile::Empty {
            return Err(InvalidMove);
        }
        self.tiles[i] = p.tile();
        Ok(())
    }

    /// The board drawn as text.
    pub fn render(&self) -> (r: String)
        ensures
            r@ == board_text(self.tiles@),
    {
        let mut out = self.render_row(0);
        out.append("\r\n───┼───┼───\r\n");
        out.append(self.render_row(1).as_str());
        out.append("\r\n───┼───┼───\r\n");
        out.append(self.render_row(2).as_str());
        out
    }

    /// Row `row` of the board as drawn on screen.
    fn render_row(&self, row: usize) -> (r: String)
        requires
            row < 3,
        ensures
            r@ == row_text(self.tiles@, row as int),
    {
        let mut out = String::from_str(" ");
        out.append(glyph(self.tiles[3 * row]));
        out.append(" │ ");
        out.append(glyph(self.tiles[3 * row + 1]));
        out.append(" │ ");
        out.append(glyph(self.tiles[3 * row + 2]));
        out
    }

    pub fn check_outcome(&self) -> (r: Option<Outcome>)
        ensures
            r == board_outcome(self.tiles@),
    {
        if let Some(value) = self.check_horiz(0) {
            return Some(value);
        }
        if let Some(value) = self.check_horiz(3) {
            return Some(value);
        }
        if let Some(value) = self.check_horiz(6) {
            return Some(value);
        }

        if let Some(value) = self.check_vert(0) {
            return Some(value);
        }
        if let Some(value) = self.check_vert(1) {
            return Some(value);
        }
        if let Some(value) = self.check_vert(2) {
            return Some(value);
        }

        if let Some(value) = self.check_line(0, 4, 8) {
            return Some(value);
        }
        if let Some(value) = self.check_line(2, 4, 6) {
            return Some(value);
        }

        let mut k: usize = 0;
        while k < 9
            invariant
                0 <= k <= 9,
                winner(self.tiles@) is None,
                forall|j: int| 0 <= j < k ==> self.tiles@[j] != Tile::Empty,
            decreases 9 - k,
        {
            if self.tiles[k] == Tile::Empty {
                assert(!is_full(self.tiles@)) by {
                    assert(self.tiles@[k as int] == Tile::Empty);
                }
                return None;
            }
            k += 1;
        }
        Some(Outcome::Tie)
    }

    /// The win of the line through cells `a`, `b` and `c`.
    fn check_line(&self, a: usize, b: usize, c: usize) -> (r: Option<Outcome>)
        requires
            a < 9,
            b < 9,
            c < 9,
        ensures
            r == line_win(self.tiles@, a as int, b as int, c as int),
    {
        if self.tiles[a] == self.tiles[b] && self.tiles[a] == self.tiles[c] {
            match self.tiles[a] {
                Tile::Empty => {},
                Tile::X => return Some(Outcome::X),
                Tile::O => return Some(Outcome::O),
            }
        }
        None
    }

    /// The win of the row that starts at cell `i`.
    fn check_horiz(&self, i: usize) -> (r: Option<Outcome>)
        requires
            i <= 6,
        ensures
            r == line_win(self.tiles@, i as int, i + 1, i + 2),
    {
        self.check_line(i, i + 1, i + 2)
    }

    /// The win of the column that starts at cell `i`.
    fn check_vert(&self, i: usize) -> (r: Option<Outcome>)
        requires
            i <= 2,
        ensures
            r == line_win(self.tiles@, i as int, i + 3, i + 6),
    {
        self.check_line(i, i + 3, i + 6)
    }
}

/// The character that shows `t`, as text.
fn glyph(t: Tile) -> (r: &'static str)
    ensures
        r@ == tile_char(t),
{
    match t {
        Tile::Empty => " ",
        Tile::X => "X",
        Tile::O => "O",
    }
}

/// The outcome of a board depends on the contents of its cells and nothing
/// else: two boards with the same cells have the same outcome, so asking
/// twice about an unchanged board gives the same answer.
pub proof fn lemma_outcome_depends_on_cells(a: Board, b: Board)
    requires
        a.tiles@ == b.tiles@,
    ensures
        board_outcome(a.tiles@) == board_outcome(b.tiles@),
{
}

/// A board on which at most one cell is filled (cell `k`, if any) has no
/// outcome yet.
pub proof fn lemma_at_most_one_mark_undecided(b: Board, k: int)
    requires
        0 <= k < 9,
        forall|j: int| 0 <= j < 9 && j != k ==> b.tiles@[j] == Tile::Empty,
    ensures
        board_outcome(b.tiles@) is None,
{
    let t = b.tiles@;
    let e = if k == 0 { 1int } else { 0int };
    assert(t[e] == Tile::Empty);
    assert(!is_full(t));
}

} // verus!
