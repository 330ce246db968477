use vstd::prelude::*;

use crate::player::Player;

verus! {

/// One position of the grid: empty, or marked by a player.
#[derive(PartialEq, Eq, Copy, Clone, Debug, Structural)]
pub enum Cell {
    Empty,
    OccupiedBy(Player),
}

/// Why a move was rejected: the square is outside the grid, or its cell is
/// already marked.
#[derive(PartialEq, Eq, Copy, Clone, Debug, Structural)]
pub enum MoveError {
    OutOfRange,
    Occupied,
}

/// The winner of a single line holding the cells `a`, `b`, `c`: the player
/// marking all three, or `None` when they differ or are empty.
pub open spec fn winner_of(a: Cell, b: Cell, c: Cell) -> Option<Player> {
    if a == b && b == c {
        match a {
            Cell::OccupiedBy(p) => Some(p),
            Cell::Empty => None,
        }
    } else {
        None
    }
}

/// The winner of the line through squares `a`, `b`, `c` of grid `g`.
pub open spec fn line_winner(g: Seq<Cell>, a: int, b: int, c: int) -> Option<Player> {
    winner_of(g[a], g[b], g[c])
}

/// Player `p` owns row `r` (squares `3r`, `3r+1`, `3r+2`).
pub open spec fn row_won(g: Seq<Cell>, r: int, p: Player) -> bool {
    g[3 * r] == Cell::OccupiedBy(p) && g[3 * r + 1] == Cell::OccupiedBy(p) && g[3 * r + 2]
        == Cell::OccupiedBy(p)
}

/// Player `p` owns column `c` (squares `c`, `c+3`, `c+6`).
pub open spec fn col_won(g: Seq<Cell>, c: int, p: Player) -> bool {
    g[c] == Cell::OccupiedBy(p) && g[c + 3] == Cell::OccupiedBy(p) && g[c + 6]
        == Cell::OccupiedBy(p)
}

/// Player `p` owns the main diagonal (squares 0, 4, 8).
pub open spec fn main_diag_won(g: Seq<Cell>, p: Player) -> bool {
    g[0] == Cell::OccupiedBy(p) && g[4] == Cell::OccupiedBy(p) && g[8] == Cell::OccupiedBy(p)
}

/// Player `p` owns the anti-diagonal (squares 2, 4, 6).
pub open spec fn anti_diag_won(g: Seq<Cell>, p: Player) -> bool {
    g[2] == Cell::OccupiedBy(p) && g[4] == Cell::OccupiedBy(p) && g[6] == Cell::OccupiedBy(p)
}

/// Player `p` owns at least one of the eight lines of grid `g`:
/// a row, a column, or one of the two diagonals.
pub open spec fn has_line(g: Seq<Cell>, p: Player) -> bool {
    (exists|r: int| 0 <= r < 3 && row_won(g, r, p)) || (exists|c: int|
        0 <= c < 3 && col_won(g, c, p)) || main_diag_won(g, p) || anti_diag_won(g, p)
}

/// The outcome that evaluation reports for grid `g`.
///
/// Evaluation checks the rows top to bottom, then the columns left to right,
/// then the main diagonal, then the anti-diagonal, and each complete line
/// overwrites the winner found so far; so when several lines are complete the
/// last one in that order decides. This chain tests the lines in the reverse
/// of that order: the first complete line it meets is the last one evaluation
/// would have recorded.
pub open spec fn eval_grid(g: Seq<Cell>) -> Option<Player> {
    if line_winner(g, 2, 4, 6) is Some {
        line_winner(g, 2, 4, 6)
    } else if line_winner(g, 0, 4, 8) is Some {
        line_winner(g, 0, 4, 8)
    } else if line_winner(g, 2, 5, 8) is Some {
        line_winner(g, 2, 5, 8)
    } else if line_winner(g, 1, 4, 7) is Some {
        line_winner(g, 1, 4, 7)
    } else if line_winner(g, 0, 3, 6) is Some {
        line_winner(g, 0, 3, 6)
    } else if line_winner(g, 6, 7, 8) is Some {
        line_winner(g, 6, 7, 8)
    } else if line_winner(g, 3, 4, 5) is Some {
        line_winner(g, 3, 4, 5)
    } else {
        line_winner(g, 0, 1, 2)
    }
}

/// The 3x3 board: a row-major grid of nine cells, the player to move, and the
/// recorded outcome (`None` while the game is ongoing).
pub struct Board {
    pub grid: Vec<Cell>,
    pub current_turn: Player,
    pub outcome: Option<Player>,
}

impl Board {
    /// The grid always holds exactly nine cells.
    pub open spec fn well_formed(self) -> bool {
        self.grid@.len() == 9
    }

    /// The cell at zero-based square `i` (row `i / 3`, column `i % 3`).
    #[verifier::inline]
    pub open spec fn sq(self, i: int) -> Cell {
        self.grid@[i]
    }

    /// The outcome evaluation reports for this board's grid.
    pub open spec fn eval_spec(self) -> Option<Player> {
        eval_grid(self.grid@)
    }

    /// A fresh board: all cells empty, `X` to move, no winner.
    pub fn new() -> (b: Board)
        ensures
            b.well_formed(),
            forall|i: int| 0 <= i < 9 ==> b.sq(i) == Cell::Empty,
            b.current_turn == Player::X,
            b.outcome == None::<Player>,
    {
        let mut g: Vec<Cell> = Vec::new();
        let mut i: usize = 0;
        while i < 9
            invariant
                i <= 9,
                g@.len() == i,
                forall|j: int| 0 <= j < i ==> g@[j] == Cell::Empty,
            decreases 9 - i,
        {
            g.push(Cell::Empty);
            i = i + 1;
        }
        Board { grid: g, current_turn: Player::X, outcome: None }
    }

    /// Marks zero-based square `square` for the player to move.
    ///
    /// Fails with `OutOfRange` when the square is not one of 0..=8 and with
    /// `Occupied` when its cell is already marked; a rejected move leaves the
    /// board exactly as it was. Success writes the mark and nothing else:
    /// the turn is not passed and the outcome is not evaluated here.
    pub fn place(&mut self, square: usize) -> (r: Result<(), MoveError>)
        requires
            old(self).well_formed(),
        ensures
            final(self).well_formed(),
            final(self).current_turn == old(self).current_turn,
            final(self).outcome == old(self).outcome,
            match r {
                Ok(()) => square < 9 && old(self).sq(square as int) == Cell::Empty && final(self).grid@ == old(self).grid@.update(
                    square as int,
                    Cell::OccupiedBy(old(self).current_turn),
                ),
                Err(e) => final(self).grid@ == old(self).grid@ && match e {
                    MoveError::OutOfRange => square >= 9,
                    MoveError::Occupied => square < 9 && old(self).sq(square as int)
                        != Cell::Empty,
                },
            },
    {
        if square >= 9 {
            return Err(MoveError::OutOfRange);
        }
        match self.grid[square] {
            Cell::Empty => {
                self.grid[square] = Cell::OccupiedBy(self.current_turn);
                Ok(())
            },
            Cell::OccupiedBy(_) => Err(MoveError::Occupied),
        }
    }

    /// Reports the winner of the grid as it stands, records it in `outcome`,
    /// and touches nothing else.
    ///
    /// All eight lines are checked in a fixed order — rows top to bottom,
    /// columns left to right, main diagonal, anti-diagonal — and every
    /// complete line overwrites the winner found so far, so the last complete
    /// line in that order decides (`eval_grid`). The result depends on the
    /// grid alone, which is left unchanged: evaluating twice in a row returns
    /// the same outcome.
    pub fn evaluate(&mut self) -> (r: Option<Player>)
        requires
            old(self).well_formed(),
        ensures
            final(self).grid@ == old(self).grid@,
            final(self).current_turn == old(self).current_turn,
            final(self).outcome == r,
            r == old(self).eval_spec(),
    {
        let mut w: Option<Player> = None;
        let l = check_line(self.grid[0], self.grid[1], self.grid[2]);
        if l.is_some() {
            w = l;
        }
        let l = check_line(self.grid[3], self.grid[4], self.grid[5]);
        if l.is_some() {
            w = l;
        }
        let l = check_line(self.grid[6], self.grid[7], self.grid[8]);
        if l.is_some() {
            w = l;
        }
        let l = check_line(self.grid[0], self.grid[3], self.grid[6]);
        if l.is_some() {
            w = l;
        }
        let l = check_line(self.grid[1], self.grid[4], self.grid[7]);
        if l.is_some() {
            w = l;
        }
        let l = check_line(self.grid[2], self.grid[5], self.grid[8]);
        if l.is_some() {
            w = l;
        }
        let l = check_line(self.grid[0], self.grid[4], self.grid[8]);
        if l.is_some() {
            w = l;
        }
        let l = check_line(self.grid[2], self.grid[4], self.grid[6]);
        if l.is_some() {
            w = l;
        }
        self.outcome = w;
        w
    }

    /// Passes the turn to the other player; the grid and the outcome stay.
    pub fn toggle_turn(&mut self)
        ensures
            final(self).grid@ == old(self).grid@,
            final(self).outcome == old(self).outcome,
            final(self).current_turn == old(self).current_turn.other(),
            final(self).current_turn != old(self).current_turn,
    {
        if self.current_turn == Player::X {
            self.current_turn = Player::O;
        } else {
            self.current_turn = Player::X;
        }
    }

    /// One accepted-move cycle of a game driver: place the mark, evaluate the
    /// outcome, and pass the turn only when the game goes on.
    ///
    /// On a rejected move the board is unchanged and the error says why, as
    /// in `place`. On success `Ok(out)` carries the evaluated outcome of the
    /// updated grid: when it is `None` the turn has passed to the other
    /// player, and when it is `Some` the game is over and the turn stays.
    pub fn step(&mut self, square: usize) -> (r: Result<Option<Player>, MoveError>)
        requires
            old(self).well_formed(),
        ensures
            final(self).well_formed(),
            match r {
                Ok(out) => square < 9 && old(self).sq(square as int) == Cell::Empty && final(self).grid@ == old(self).grid@.update(
                    square as int,
                    Cell::OccupiedBy(old(self).current_turn),
                ) && out == eval_grid(final(self).grid@) && final(self).outcome == out && final(self).current_turn == (if out is None {
                    old(self).current_turn.other()
                } else {
                    old(self).current_turn
                }),
                Err(e) => final(self).grid@ == old(self).grid@ && final(self).current_turn == old(self).current_turn && final(self).outcome == old(self).outcome && match e {
                    MoveError::OutOfRange => square >= 9,
                    MoveError::Occupied => square < 9 && old(self).sq(square as int)
                        != Cell::Empty,
                },
            },
    {
        match self.place(square) {
            Err(e) => Err(e),
            Ok(()) => {
                let out = self.evaluate();
                if out.is_none() {
                    self.toggle_turn();
                }
                Ok(out)
            },
        }
    }
}

/// The winner of one line of three cells, as `winner_of` states it.
fn check_line(a: Cell, b: Cell, c: Cell) -> (r: Option<Player>)
    ensures
        r == winner_of(a, b, c),
{
    if a == b && b == c {
        match a {
            Cell::OccupiedBy(p) => Some(p),
            Cell::Empty => None,
        }
    } else {
        None
    }
}

/// Win detection is sound and complete. Evaluation reports `Some` exactly
/// when some player owns one of the eight lines; the player it reports always
/// owns a line; and when exactly one player owns lines, that player is
/// reported.
pub proof fn lemma_eval_iff_line(g: Seq<Cell>)
    requires
        g.len() == 9,
    ensures
        (eval_grid(g) is Some) <==> (exists|p: Player| has_line(g, p)),
        forall|p: Player| eval_grid(g) == Some(p) ==> has_line(g, p),
        forall|p: Player|
            has_line(g, p) && !has_line(g, p.other()) ==> eval_grid(g) == Some(p),
{
    assert forall|p: Player| #[trigger] line_winner(g, 0, 1, 2) == Some(p) implies has_line(
        g,
        p,
    ) by {
        assert(row_won(g, 0, p));
    }
    assert forall|p: Player| #[trigger] line_winner(g, 3, 4, 5) == Some(p) implies has_line(
        g,
        p,
    ) by {
        assert(row_won(g, 1, p));
    }
    assert forall|p: Player| #[trigger] line_winner(g, 6, 7, 8) == Some(p) implies has_line(
        g,
        p,
    ) by {
        assert(row_won(g, 2, p));
    }
    assert forall|p: Player| #[trigger] line_winner(g, 0, 3, 6) == Some(p) implies has_line(
        g,
        p,
    ) by {
        assert(col_won(g, 0, p));
    }
    assert forall|p: Player| #[trigger] line_winner(g, 1, 4, 7) == Some(p) implies has_line(
        g,
        p,
    ) by {
        assert(col_won(g, 1, p));
    }
    assert forall|p: Player| #[trigger] line_winner(g, 2, 5, 8) == Some(p) implies has_line(
        g,
        p,
    ) by {
        assert(col_won(g, 2, p));
    }
    assert forall|p: Player| has_line(g, p) implies eval_grid(g) is Some by {
        if exists|r: int| 0 <= r < 3 && row_won(g, r, p) {
            let r = choose|r: int| 0 <= r < 3 && row_won(g, r, p);
            if r == 0 {
                assert(line_winner(g, 0, 1, 2) == Some(p));
            } else if r == 1 {
                assert(line_winner(g, 3, 4, 5) == Some(p));
            } else {
                assert(line_winner(g, 6, 7, 8) == Some(p));
            }
        } else if exists|c: int| 0 <= c < 3 && col_won(g, c, p) {
            let c = choose|c: int| 0 <= c < 3 && col_won(g, c, p);
            if c == 0 {
                assert(line_winner(g, 0, 3, 6) == Some(p));
            } else if c == 1 {
                assert(line_winner(g, 1, 4, 7) == Some(p));
            } else {
                assert(line_winner(g, 2, 5, 8) == Some(p));
            }
        } else if main_diag_won(g, p) {
            assert(line_winner(g, 0, 4, 8) == Some(p));
        } else {
            assert(line_winner(g, 2, 4, 6) == Some(p));
        }
    }
    assert forall|p: Player| eval_grid(g) == Some(p) implies has_line(g, p) by {}
    if eval_grid(g) is Some {
        let q = eval_grid(g)->Some_0;
        assert(has_line(g, q));
    }
    assert forall|p: Player|
        has_line(g, p) && !has_line(g, p.other()) implies eval_grid(g) == Some(p) by {
        let q = eval_grid(g)->Some_0;
        assert(has_line(g, q));
        assert(q == p || q == p.other());
    }
}

/// Evaluation is idempotent. Its result is a function of the grid alone, and
/// `Board::evaluate` leaves the grid unchanged, so two calls with no
/// placement between them report the same outcome: for any two board states
/// with equal grids — such as a board before and after one `evaluate` — the
/// reported winner is the same.
pub proof fn lemma_evaluate_idempotent(b1: Board, b2: Board)
    requires
        b1.grid@ == b2.grid@,
    ensures
        b1.eval_spec() == b2.eval_spec(),
{
}

} // verus!
