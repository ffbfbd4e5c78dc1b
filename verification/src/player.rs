use vstd::prelude::*;
use vstd::string::*;

verus! {

/// One of the two sides of a game.
#[derive(Clone, Copy, Debug, PartialEq, Eq, Structural)]
pub enum Player {
    Player1,
    Player2,
}

impl Player {
    /// The opponent of `self`.
    pub open spec fn spec_other(self) -> Player {
        match self {
            Player::Player1 => Player::Player2,
            Player::Player2 => Player::Player1,
        }
    }

    /// The name under which the player is shown.
    pub open spec fn spec_name(self) -> Seq<char> {
        match self {
            Player::Player1 => "Player 1"@,
            Player::Player2 => "Player 2"@,
        }
    }

    /// The name under which the player is shown.
    pub fn name(&self) -> (name: String)
        ensures
            name@ == self.spec_name(),
    {
        match self {
            Player::Player1 => String::from_str("Player 1"),
            Player::Player2 => String::from_str("Player 2"),
        }
    }

    /// The opponent of `self`.
    #[verifier::when_used_as_spec(spec_other)]
    pub fn other(self) -> (opponent: Player)
        ensures
            opponent == self.spec_other(),
    {
        match self {
            Player::Player1 => Player::Player2,
            Player::Player2 => Player::Player1,
        }
    }
}

} // verus!
