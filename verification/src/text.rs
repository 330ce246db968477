use vstd::prelude::*;

use crate::board::Board;
use crate::board::Cell;
use crate::player::Player;

verus! {

/// The separator line drawn above, between and below the rows.
pub open spec fn sep_text() -> Seq<char> {
    "-------------\n"@
}

/// How one cell is drawn between the `|` delimiters: the player's label
/// between single spaces, or three spaces when the cell is empty.
pub open spec fn cell_text(c: Cell) -> Seq<char> {
    match c {
        Cell::Empty => "   "@,
        Cell::OccupiedBy(Player::X) => " X "@,
        Cell::OccupiedBy(Player::O) => " O "@,
    }
}

/// How row `r` of grid `g` is drawn: its three cells between `|` delimiters,
/// closed by a newline and a separator line.
pub open spec fn row_text(g: Seq<Cell>, r: int) -> Seq<char> {
    "|"@ + cell_text(g[3 * r]) + "|"@ + cell_text(g[3 * r + 1]) + "|"@ + cell_text(g[3 * r + 2])
        + "|\n"@ + sep_text()
}

/// How a whole grid is drawn: a separator line, then the three rows.
pub open spec fn board_text(g: Seq<Cell>) -> Seq<char> {
    sep_text() + row_text(g, 0) + row_text(g, 1) + row_text(g, 2)
}

/// The three characters a cell is drawn as, per `cell_text`.
fn cell_str(c: Cell) -> (r: &'static str)
    ensures
        r@ == cell_text(c),
{
    match c {
        Cell::Empty => "   ",
        Cell::OccupiedBy(Player::X) => " X ",
        Cell::OccupiedBy(Player::O) => " O ",
    }
}

impl Board {
    /// Draws row `r` of the grid, per `row_text`.
    fn render_row(&self, r: usize) -> (out: String)
        requires
            self.well_formed(),
            r < 3,
        ensures
            out@ == row_text(self.grid@, r as int),
    {
        let mut s = String::new();
        s.append("|");
        proof {
            assert(s@ =~= "|"@);
        }
        s.append(cell_str(self.grid[3 * r]));
        s.append("|");
        s.append(cell_str(self.grid[3 * r + 1]));
        s.append("|");
        s.append(cell_str(self.grid[3 * r + 2]));
        s.append("|\n");
        s.append("-------------\n");
        s
    }

    /// Draws the whole board as the fixed-width diagram `board_text`
    /// describes: a 13-dash separator line, then each row's three cells
    /// between `|` delimiters followed by another separator line.
    pub fn render(&self) -> (out: String)
        requires
            self.well_formed(),
        ensures
            out@ == board_text(self.grid@),
    {
        let mut s = String::new();
        s.append("-------------\n");
        proof {
            assert(s@ =~= sep_text());
        }
        let row = self.render_row(0);
        s.append(row.as_str());
        let row = self.render_row(1);
        s.append(row.as_str());
        let row = self.render_row(2);
        s.append(row.as_str());
        s
    }
}

} // verus!
