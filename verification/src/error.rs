use vstd::prelude::*;

verus! {

/// Why a move was refused. A refused move changes nothing.
#[derive(Clone, Copy, Debug, PartialEq, Eq, Structural)]
pub enum MoveError {
    /// The column lies outside the grid.
    InvalidColumnError,
    /// The column lies inside the grid and every cell of it holds a token.
    ColumnFullError,
    /// The game has already ended in a win or a draw.
    GameOverError,
}

} // verus!
