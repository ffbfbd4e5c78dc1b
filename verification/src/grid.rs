use vstd::prelude::*;
use crate::cell_and_slot::Slot;
use crate::error::MoveError;
use crate::player::Player;

verus! {

/// The mathematical model of a grid: its dimensions, and for each pair
/// `(column, row)` inside them the owner of the token that lies there, if any.
/// The origin is the bottom-left cell and rows count upward.
pub struct GridView {
    pub width: int,
    pub height: int,
    pub cells: Map<(int, int), Option<Player>>,
}

impl GridView {
    /// Whether `(column, row)` names a cell of the grid.
    pub open spec fn in_bounds(self, column: int, row: int) -> bool {
        0 <= column < self.width && 0 <= row < self.height
    }

    /// The owner of the token at `(column, row)`; `None` where the cell is
    /// empty, and `None` as well where no such cell exists.
    pub open spec fn owner_at(self, column: int, row: int) -> Option<Player> {
        if self.in_bounds(column, row) {
            self.cells[(column, row)]
        } else {
            None
        }
    }

    /// Tokens rest on the bottom row or on another token: below an occupied
    /// cell every cell of the same column is occupied.
    pub open spec fn stacked(self) -> bool {
        forall|column: int, below: int, above: int|
            0 <= below <= above && (#[trigger] self.owner_at(column, above)) is Some ==> (
            #[trigger] self.owner_at(column, below)) is Some
    }

    /// A grid has at least one cell, holds exactly the cells inside its
    /// dimensions, and its tokens are stacked.
    pub open spec fn wf(self) -> bool {
        &&& 0 < self.width
        &&& 0 < self.height
        &&& forall|at: (int, int)| #[trigger] self.cells.contains_key(at) <==> self.in_bounds(at.0, at.1)
        &&& self.stacked()
    }

    /// The grid of the given dimensions without any token.
    pub open spec fn empty(width: int, height: int) -> GridView {
        GridView {
            width,
            height,
            cells: Map::new(
                |at: (int, int)| 0 <= at.0 < width && 0 <= at.1 < height,
                |at: (int, int)| None,
            ),
        }
    }

    /// The grid after a token of `player` has been put at `(column, row)`.
    /// Every other cell and the dimensions stay as they are.
    pub open spec fn place(self, column: int, row: int, player: Player) -> GridView {
        GridView { cells: self.cells.insert((column, row), Some(player)), ..self }
    }

    /// Whether every cell of `column` holds a token.
    pub open spec fn column_full(self, column: int) -> bool {
        forall|row: int| 0 <= row < self.height ==> (#[trigger] self.owner_at(column, row)) is Some
    }

    /// Whether every cell of the grid holds a token.
    pub open spec fn is_full(self) -> bool {
        forall|column: int, row: int|
            self.in_bounds(column, row) ==> (#[trigger] self.owner_at(column, row)) is Some
    }

    /// Whether a token dropped into `column` comes to rest in `row`: the cell
    /// is empty and every cell below it is occupied.
    pub open spec fn lands_at(self, column: int, row: int) -> bool {
        &&& self.in_bounds(column, row)
        &&& self.owner_at(column, row) is None
        &&& forall|below: int| 0 <= below < row ==> (#[trigger] self.owner_at(column, below)) is Some
    }

    /// The row in which a token dropped into `column` comes to rest. It means
    /// something only where the column lies in the grid and is not full.
    pub open spec fn landing_row(self, column: int) -> int {
        choose|row: int| self.lands_at(column, row)
    }

    /// A token dropped into a column has one resting place only.
    pub proof fn lemma_landing_row_is_unique(self, column: int, row: int)
        requires
            self.lands_at(column, row),
        ensures
            self.landing_row(column) == row,
    {
    }

    /// A column inside the grid that is not full has a resting place.
    pub proof fn lemma_open_column_has_landing_row(self, column: int)
        requires
            self.wf(),
            0 <= column < self.width,
            !self.column_full(column),
        ensures
            self.lands_at(column, self.landing_row(column)),
    {
        let empty_row = choose|row: int| 0 <= row < self.height && self.owner_at(column, row) is None;
        self.lemma_lowest_empty_row(column, empty_row);
    }

    proof fn lemma_lowest_empty_row(self, column: int, row: int)
        requires
            self.in_bounds(column, row),
            self.owner_at(column, row) is None,
        ensures
            exists|lowest: int| self.lands_at(column, lowest),
        decreases row,
    {
        if forall|below: int| 0 <= below < row ==> (#[trigger] self.owner_at(column, below)) is Some {
            assert(self.lands_at(column, row));
        } else {
            let below = choose|below: int| 0 <= below < row && self.owner_at(column, below) is None;
            self.lemma_lowest_empty_row(column, below);
        }
    }

    /// Putting a token on its resting place keeps the grid well formed.
    pub proof fn lemma_place_keeps_wf(self, column: int, row: int, player: Player)
        requires
            self.wf(),
            self.lands_at(column, row),
        ensures
            self.place(column, row, player).wf(),
            self.place(column, row, player).owner_at(column, row) == Some(player),
            forall|c: int, r: int|
                (c, r) != (column, row) ==> #[trigger] self.place(column, row, player).owner_at(c, r)
                    == self.owner_at(c, r),
    {
        let after = self.place(column, row, player);
        assert forall|c: int, below: int, above: int|
            0 <= below <= above && (#[trigger] after.owner_at(c, above)) is Some implies (
        #[trigger] after.owner_at(c, below)) is Some by {
            if (c, above) == (column, row) {
                if below < row {
                    assert(self.owner_at(column, below) is Some);
                }
            } else {
                assert(self.owner_at(c, above) is Some);
                assert(self.owner_at(c, below) is Some);
            }
        }
    }
}

/// The grid of a game: a rectangle of slots, each empty or holding the token
/// of one player. Its dimensions never change, and a token, once dropped,
/// stays where it came to rest.
pub struct Grid {
    width: i8,
    height: i8,
    columns: Vec<Vec<Slot>>,
}

impl View for Grid {
    type V = GridView;

    closed spec fn view(&self) -> GridView {
        GridView {
            width: self.width as int,
            height: self.height as int,
            cells: Map::new(
                |at: (int, int)| 0 <= at.0 < self.width && 0 <= at.1 < self.height,
                |at: (int, int)| self.columns[at.0][at.1].player,
            ),
        }
    }
}

impl Grid {
    /// Each slot lies in the column and row that it names.
    pub closed spec fn slots_in_place(&self) -> bool {
        &&& self.columns.len() == self.width
        &&& forall|c: int| 0 <= c < self.width ==> (#[trigger] self.columns[c]).len() == self.height
        &&& forall|c: int, r: int|
            0 <= c < self.width && 0 <= r < self.height ==> {
                let slot = #[trigger] self.columns[c][r];
                slot.column == c && slot.row == r
            }
    }

    /// The validity of a grid: its model is well formed and fits the machine's
    /// coordinates, and its slots are in place.
    pub open spec fn wf(&self) -> bool {
        &&& self@.wf()
        &&& self@.width <= i8::MAX
        &&& self@.height <= i8::MAX
        &&& self.slots_in_place()
    }

    /// An empty grid of `width` columns and `height` rows.
    pub fn new(width: i8, height: i8) -> (grid: Grid)
        requires
            0 < width,
            0 < height,
        ensures
            grid.wf(),
            grid@ == GridView::empty(width as int, height as int),
    {
        let mut columns: Vec<Vec<Slot>> = Vec::new();
        let mut column: i8 = 0;
        while column < width
            invariant
                0 <= column <= width,
                0 < height,
                columns.len() == column,
                forall|c: int| 0 <= c < column ==> (#[trigger] columns[c]).len() == height,
                forall|c: int, r: int|
                    0 <= c < column && 0 <= r < height ==> #[trigger] columns[c][r] == (Slot {
                        player: None,
                        column: c as i8,
                        row: r as i8,
                    }),
            decreases width - column,
        {
            let mut slots: Vec<Slot> = Vec::new();
            let mut row: i8 = 0;
            while row < height
                invariant
                    0 <= row <= height,
                    slots.len() == row,
                    forall|r: int|
                        0 <= r < row ==> #[trigger] slots[r] == (Slot {
                            player: None,
                            column,
                            row: r as i8,
                        }),
                decreases height - row,
            {
                slots.push(Slot::new(column, row));
                row = row + 1;
            }
            columns.push(slots);
            column = column + 1;
        }
        let grid = Grid { width, height, columns };
        proof {
            assert(grid@.cells =~= GridView::empty(width as int, height as int).cells);
        }
        grid
    }

    /// The number of columns.
    pub fn width(&self) -> (width: i8)
        ensures
            width == self@.width,
    {
        self.width
    }

    /// The number of rows.
    pub fn height(&self) -> (height: i8)
        ensures
            height == self@.height,
    {
        self.height
    }

    /// The owner of the token at `(column, row)`. Coordinates outside the
    /// grid are answered with `None`, as an empty cell is, so that the
    /// neighbours of a cell at the border can be asked for without a test.
    pub fn owner_at(&self, column: i8, row: i8) -> (owner: Option<Player>)
        requires
            self.wf(),
        ensures
            owner == self@.owner_at(column as int, row as int),
            !self@.in_bounds(column as int, row as int) ==> owner is None,
    {
        if 0 <= column && column < self.width && 0 <= row && row < self.height {
            self.columns[column as usize][row as usize].player
        } else {
            None
        }
    }

    /// Whether every cell holds a token.
    pub fn is_full(&self) -> (full: bool)
        requires
            self.wf(),
        ensures
            full == self@.is_full(),
    {
        let top: i8 = self.height - 1;
        let mut column: i8 = 0;
        while column < self.width
            invariant
                self.wf(),
                top == self.height - 1,
                0 <= column <= self.width,
                forall|c: int| 0 <= c < column ==> (#[trigger] self@.owner_at(c, top as int)) is Some,
            decreases self.width - column,
        {
            if self.columns[column as usize][top as usize].player.is_none() {
                assert(self@.owner_at(column as int, top as int) is None);
                return false;
            }
            column = column + 1;
        }
        proof {
            assert forall|c: int, r: int| self@.in_bounds(c, r) implies (#[trigger] self@.owner_at(
                c,
                r,
            )) is Some by {
                assert(self@.owner_at(c, top as int) is Some);
            }
        }
        true
    }

    /// Drops a token of `player` into `column`. The token falls to the lowest
    /// empty cell of the column, and the result is the row of that cell. A
    /// column outside the grid and a full column are refused, and the grid is
    /// then left as it was.
    pub fn drop(&mut self, column: i8, player: Player) -> (landed: Result<i8, MoveError>)
        requires
            old(self).wf(),
        ensures
            final(self).wf(),
            match landed {
                Ok(row) => {
                    &&& old(self)@.lands_at(column as int, row as int)
                    &&& final(self)@ == old(self)@.place(column as int, row as int, player)
                },
                Err(MoveError::InvalidColumnError) => !(0 <= column < old(self)@.width),
                Err(MoveError::ColumnFullError) => {
                    &&& 0 <= column < old(self)@.width
                    &&& old(self)@.column_full(column as int)
                },
                Err(MoveError::GameOverError) => false,
            },
            landed is Err ==> *final(self) == *old(self),
    {
        if column < 0 || column >= self.width {
            return Err(MoveError::InvalidColumnError);
        }
        let mut row: i8 = 0;
        while row < self.height
            invariant
                *self == *old(self),
                self.wf(),
                0 <= column < self.width,
                0 <= row <= self.height,
                forall|below: int|
                    0 <= below < row ==> (#[trigger] self@.owner_at(column as int, below)) is Some,
            decreases self.height - row,
        {
            if self.columns[column as usize][row as usize].player.is_none() {
                self.columns[column as usize][row as usize].occupy(player);
                proof {
                    let before = old(self)@;
                    let after = before.place(column as int, row as int, player);
                    before.lemma_place_keeps_wf(column as int, row as int, player);
                    assert(self@.cells =~= after.cells);
                }
                return Ok(row);
            }
            row = row + 1;
        }
        Err(MoveError::ColumnFullError)
    }
}

} // verus!
