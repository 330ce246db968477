use vstd::prelude::*;

verus! {

/// One of the two players. `X` always moves first.
#[derive(PartialEq, Eq, Copy, Clone, Debug, Structural)]
pub enum Player {
    X,
    O,
}

impl Player {
    /// The opponent: the player whose turn comes next.
    pub open spec fn other(self) -> Player {
        match self {
            Player::X => Player::O,
            Player::O => Player::X,
        }
    }

    /// The display label of the player, as a sequence of characters.
    pub open spec fn label_text(self) -> Seq<char> {
        match self {
            Player::X => "X"@,
            Player::O => "O"@,
        }
    }

    /// The display label: `"X"` or `"O"`.
    pub fn label(&self) -> (r: &'static str)
        ensures
            r@ == self.label_text(),
    {
        match self {
            Player::X => "X",
            Player::O => "O",
        }
    }

    /// The message announcing this player as the winner: `"X wins"` or
    /// `"O wins"`.
    pub fn win_message(&self) -> (r: String)
        ensures
            r@ == self.label_text() + " wins"@,
    {
        String::from_str(self.label()).concat(" wins")
    }
}

} // verus!
