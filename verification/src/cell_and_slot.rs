use vstd::prelude::*;
use crate::player::Player;

verus! {

/// What lies at one place of the grid and can say whether it lies at a given
/// column and row.
pub trait Coordinates {
    /// The column of the place.
    spec fn spec_column(&self) -> i8;

    /// The row of the place.
    spec fn spec_row(&self) -> i8;

    /// Whether the place is the one at `column` and `row`.
    fn check_coordinates(&self, column: &i8, row: &i8) -> (same: bool)
        ensures
            same == (self.spec_column() == *column && self.spec_row() == *row),
    ;
}

/// A square of the board as it is shown: its place, and whether it belongs to
/// the winning run and is to be highlighted.
#[derive(Clone, Copy, Debug, PartialEq, Eq, Structural)]
pub struct Cell {
    pub winning_cell: bool,
    pub column: i8,
    pub row: i8,
}

impl Cell {
    /// The square at `column` and `row`, not highlighted.
    pub fn new(column: i8, row: i8) -> (cell: Cell)
        ensures
            cell == (Cell { winning_cell: false, column, row }),
    {
        Cell { winning_cell: false, column, row }
    }
}

impl Coordinates for Cell {
    open spec fn spec_column(&self) -> i8 {
        self.column
    }

    open spec fn spec_row(&self) -> i8 {
        self.row
    }

    fn check_coordinates(&self, column: &i8, row: &i8) -> (same: bool) {
        self.column == *column && self.row == *row
    }
}

/// A place of the grid in which a token can lie: its column and row, and the
/// owner of the token, if one lies there.
#[derive(Clone, Copy, Debug, PartialEq, Eq, Structural)]
pub struct Slot {
    pub player: Option<Player>,
    pub column: i8,
    pub row: i8,
}

impl Slot {
    /// The empty slot at `column` and `row`.
    pub fn new(column: i8, row: i8) -> (slot: Slot)
        ensures
            slot == (Slot { player: None, column, row }),
    {
        Slot { player: None, column, row }
    }

    /// Puts a token of `player` into the slot, which must be empty: a token
    /// is never replaced.
    pub fn occupy(&mut self, player: Player)
        requires
            old(self).player is None,
        ensures
            *final(self) == (Slot { player: Some(player), ..*old(self) }),
    {
        self.player = Some(player);
    }
}

impl Coordinates for Slot {
    open spec fn spec_column(&self) -> i8 {
        self.column
    }

    open spec fn spec_row(&self) -> i8 {
        self.row
    }

    fn check_coordinates(&self, column: &i8, row: &i8) -> (same: bool) {
        self.column == *column && self.row == *row
    }
}

} // verus!
