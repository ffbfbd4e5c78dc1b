use vstd::prelude::*;

verus! {

/// The number of columns of the board that is played on.
pub const GRID_WIDTH: i8 = 6;

/// The number of rows of the board that is played on.
pub const GRID_HEIGHT: i8 = 7;

} // verus!
