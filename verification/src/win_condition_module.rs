use vstd::prelude::*;
use crate::grid::{Grid, GridView};
use crate::player::Player;

verus! {

/// A direction in which four tokens can lie in a row.
#[derive(Clone, Copy, Debug, PartialEq, Eq, Structural)]
pub enum WinMethod {
    Vertical,
    Horizontal,
    DiagonalUpRight,
    DiagonalDownRight,
}

/// The run of four cells that starts at the anchor `(column, row)` and goes
/// in the direction of `win_method`. The anchor is its first cell.
pub open spec fn run_positions(win_method: WinMethod, column: int, row: int) -> Seq<(int, int)> {
    match win_method {
        WinMethod::Vertical => seq![
            (column, row),
            (column, row + 1),
            (column, row + 2),
            (column, row + 3),
        ],
        WinMethod::Horizontal => seq![
            (column, row),
            (column + 1, row),
            (column + 2, row),
            (column + 3, row),
        ],
        WinMethod::DiagonalUpRight => seq![
            (column, row),
            (column + 1, row + 1),
            (column + 2, row + 2),
            (column + 3, row + 3),
        ],
        WinMethod::DiagonalDownRight => seq![
            (column, row),
            (column + 1, row - 1),
            (column + 2, row - 2),
            (column + 3, row - 3),
        ],
    }
}

/// Machine coordinates read as the mathematical pairs that they stand for.
pub open spec fn as_points(positions: Seq<(i8, i8)>) -> Seq<(int, int)> {
    Seq::new(positions.len(), |k: int| (positions[k].0 as int, positions[k].1 as int))
}

/// Whether each cell of the run can be written in machine coordinates.
pub open spec fn run_fits(win_method: WinMethod, column: int, row: int) -> bool {
    forall|k: int|
        0 <= k < 4 ==> {
            let at = #[trigger] run_positions(win_method, column, row)[k];
            i8::MIN <= at.0 <= i8::MAX && i8::MIN <= at.1 <= i8::MAX
        }
}

/// What the detector says of a move, as a mathematical value.
pub enum WinResultView {
    NoWin,
    Win(Player, Seq<(int, int)>),
    Draw,
}

/// What the detector says of a move: nothing yet, four in a row for a player
/// with the four cells of the run in order from the anchor, or a full grid
/// without such a run.
#[derive(Debug, PartialEq, Eq)]
pub enum WinResult {
    NoWin,
    Win(Player, Vec<(i8, i8)>),
    Draw,
}

impl View for WinResult {
    type V = WinResultView;

    open spec fn view(&self) -> WinResultView {
        match self {
            WinResult::NoWin => WinResultView::NoWin,
            WinResult::Win(player, positions) => WinResultView::Win(*player, as_points(positions@)),
            WinResult::Draw => WinResultView::Draw,
        }
    }
}

impl GridView {
    /// Whether each of `positions` has the owner `owner`. With `None` for
    /// `owner` this asks that no position holds a token.
    pub open spec fn owned_by(self, positions: Seq<(int, int)>, owner: Option<Player>) -> bool {
        forall|k: int|
            0 <= k < positions.len() ==> self.owner_at((#[trigger] positions[k]).0, positions[k].1)
                == owner
    }

    /// Whether the anchor `(column, row)` holds a token and the three cells
    /// that follow it in the direction of `win_method` hold tokens of the
    /// same player. A run that leaves the grid does not win.
    pub open spec fn run_wins(self, win_method: WinMethod, column: int, row: int) -> bool {
        &&& self.owner_at(column, row) is Some
        &&& self.owned_by(run_positions(win_method, column, row), self.owner_at(column, row))
    }

    /// The first direction, in the order vertical, horizontal, diagonal
    /// up-right, diagonal down-right, in which the run anchored at
    /// `(column, row)` wins.
    pub open spec fn winning_method(self, column: int, row: int) -> Option<WinMethod> {
        if self.run_wins(WinMethod::Vertical, column, row) {
            Some(WinMethod::Vertical)
        } else if self.run_wins(WinMethod::Horizontal, column, row) {
            Some(WinMethod::Horizontal)
        } else if self.run_wins(WinMethod::DiagonalUpRight, column, row) {
            Some(WinMethod::DiagonalUpRight)
        } else if self.run_wins(WinMethod::DiagonalDownRight, column, row) {
            Some(WinMethod::DiagonalDownRight)
        } else {
            None
        }
    }

    /// The verdict on a token that has just come to rest at `(column, row)`:
    /// a win for its owner with the first winning run, else a draw where the
    /// grid is full, else nothing.
    pub open spec fn win_result(self, column: int, row: int) -> WinResultView {
        match self.winning_method(column, row) {
            Some(win_method) => WinResultView::Win(
                self.owner_at(column, row)->0,
                run_positions(win_method, column, row),
            ),
            None => if self.is_full() {
                WinResultView::Draw
            } else {
                WinResultView::NoWin
            },
        }
    }

    /// The grid turned upside down: the top row becomes the bottom row.
    pub open spec fn flipped(self) -> GridView {
        GridView {
            cells: Map::new(
                |at: (int, int)| self.in_bounds(at.0, at.1),
                |at: (int, int)| self.cells[(at.0, self.height - 1 - at.1)],
            ),
            ..self
        }
    }

    /// The two diagonals are detected alike: a run up and to the right wins
    /// on a grid exactly where, on the grid turned upside down, the run down
    /// and to the right from the mirrored anchor wins, and the cells of the
    /// two runs are mirror images of each other.
    pub proof fn lemma_diagonals_mirror(self, column: int, row: int)
        ensures
            self.run_wins(WinMethod::DiagonalUpRight, column, row) == self.flipped().run_wins(
                WinMethod::DiagonalDownRight,
                column,
                self.height - 1 - row,
            ),
            self.run_wins(WinMethod::DiagonalDownRight, column, row) == self.flipped().run_wins(
                WinMethod::DiagonalUpRight,
                column,
                self.height - 1 - row,
            ),
            forall|k: int|
                0 <= k < 4 ==> {
                    let up = #[trigger] run_positions(WinMethod::DiagonalUpRight, column, row)[k];
                    let down = run_positions(
                        WinMethod::DiagonalDownRight,
                        column,
                        self.height - 1 - row,
                    )[k];
                    down == (up.0, self.height - 1 - up.1)
                },
    {
    }
}

/// Whether the run can be written in machine coordinates.
pub fn positions_fit(win_method: &WinMethod, column: i8, row: i8) -> (fits: bool)
    ensures
        fits == run_fits(*win_method, column as int, row as int),
{
    let fits = match win_method {
        WinMethod::Vertical => row <= i8::MAX - 3,
        WinMethod::Horizontal => column <= i8::MAX - 3,
        WinMethod::DiagonalUpRight => column <= i8::MAX - 3 && row <= i8::MAX - 3,
        WinMethod::DiagonalDownRight => column <= i8::MAX - 3 && row >= i8::MIN + 3,
    };
    proof {
        let last = run_positions(*win_method, column as int, row as int)[3];
        assert(fits == (i8::MIN <= last.0 <= i8::MAX && i8::MIN <= last.1 <= i8::MAX));
    }
    fits
}

/// The four cells of the run anchored at `(column, row)`, the anchor first.
pub fn get_positions(win_method: &WinMethod, column: i8, row: i8) -> (positions: Vec<(i8, i8)>)
    requires
        run_fits(*win_method, column as int, row as int),
    ensures
        positions@.len() == 4,
        as_points(positions@) == run_positions(*win_method, column as int, row as int),
{
    proof {
        let last = run_positions(*win_method, column as int, row as int)[3];
        assert(i8::MIN <= last.0 <= i8::MAX && i8::MIN <= last.1 <= i8::MAX);
    }
    let positions = match win_method {
        WinMethod::Vertical => vec![
            (column, row),
            (column, row + 1),
            (column, row + 2),
            (column, row + 3),
        ],
        WinMethod::Horizontal => vec![
            (column, row),
            (column + 1, row),
            (column + 2, row),
            (column + 3, row),
        ],
        WinMethod::DiagonalUpRight => vec![
            (column, row),
            (column + 1, row + 1),
            (column + 2, row + 2),
            (column + 3, row + 3),
        ],
        WinMethod::DiagonalDownRight => vec![
            (column, row),
            (column + 1, row - 1),
            (column + 2, row - 2),
            (column + 3, row - 3),
        ],
    };
    positions
}

/// Whether two cells have the same owner, or are both empty.
pub(crate) fn same_owner(one: &Option<Player>, other: &Option<Player>) -> (same: bool)
    ensures
        same == (*one == *other),
{
    match (one, other) {
        (None, None) => true,
        (Some(Player::Player1), Some(Player::Player1)) => true,
        (Some(Player::Player2), Some(Player::Player2)) => true,
        _ => false,
    }
}

/// Whether each of the given positions has the owner `primary_player`.
/// A position outside the grid has no owner.
pub fn check_single_direction(
    grid: &Grid,
    iterator: &Vec<(i8, i8)>,
    primary_player: &Option<Player>,
) -> (game_over: bool)
    requires
        grid.wf(),
    ensures
        game_over == grid@.owned_by(as_points(iterator@), *primary_player),
{
    let mut index: usize = 0;
    while index < iterator.len()
        invariant
            grid.wf(),
            0 <= index <= iterator.len(),
            forall|k: int|
                0 <= k < index ==> grid@.owner_at(
                    (#[trigger] as_points(iterator@)[k]).0,
                    as_points(iterator@)[k].1,
                ) == *primary_player,
        decreases iterator.len() - index,
    {
        let (local_column, local_row) = iterator[index];
        let owner = grid.owner_at(local_column, local_row);
        if !same_owner(&owner, primary_player) {
            assert(as_points(iterator@)[index as int] == (local_column as int, local_row as int));
            return false;
        }
        index = index + 1;
    }
    true
}

/// The run anchored at `(column, row)` in the direction of `win_method`, if
/// it wins for `player`, who owns the anchor.
fn winning_run(
    grid: &Grid,
    win_method: &WinMethod,
    column: i8,
    row: i8,
    player: Player,
) -> (run: Option<Vec<(i8, i8)>>)
    requires
        grid.wf(),
        grid@.owner_at(column as int, row as int) == Some(player),
    ensures
        run is Some <==> grid@.run_wins(*win_method, column as int, row as int),
        run matches Some(positions) ==> positions@.len() == 4 && as_points(positions@)
            == run_positions(*win_method, column as int, row as int),
{
    if !positions_fit(win_method, column, row) {
        // A run that leaves the machine's coordinates leaves the grid.
        return None;
    }
    let positions = get_positions(win_method, column, row);
    if check_single_direction(grid, &positions, &Some(player)) {
        Some(positions)
    } else {
        None
    }
}

/// Looks for four tokens in a row that start at the anchor `(column, row)`.
/// The directions are tried in the order vertical, horizontal, diagonal
/// up-right, diagonal down-right, and the cells of the first run that wins
/// are returned, the anchor first. An anchor that is empty or outside the
/// grid has no winning run.
pub fn get_winning_positions(grid: &Grid, column: i8, row: i8) -> (winning: Option<Vec<(i8, i8)>>)
    requires
        grid.wf(),
    ensures
        match winning {
            Some(positions) => {
                &&& positions@.len() == 4
                &&& grid@.winning_method(column as int, row as int) matches Some(win_method)
                &&& as_points(positions@) == run_positions(win_method, column as int, row as int)
            },
            None => grid@.winning_method(column as int, row as int) is None,
        },
{
    let player = match grid.owner_at(column, row) {
        Some(player) => player,
        None => {
            return None;
        },
    };
    match winning_run(grid, &WinMethod::Vertical, column, row, player) {
        Some(positions) => {
            return Some(positions);
        },
        None => {},
    }
    match winning_run(grid, &WinMethod::Horizontal, column, row, player) {
        Some(positions) => {
            return Some(positions);
        },
        None => {},
    }
    match winning_run(grid, &WinMethod::DiagonalUpRight, column, row, player) {
        Some(positions) => {
            return Some(positions);
        },
        None => {},
    }
    winning_run(grid, &WinMethod::DiagonalDownRight, column, row, player)
}

/// The verdict on a token that has just come to rest at `(column, row)`.
pub fn win_result(grid: &Grid, column: i8, row: i8) -> (result: WinResult)
    requires
        grid.wf(),
    ensures
        result@ == grid@.win_result(column as int, row as int),
{
    match grid.owner_at(column, row) {
        Some(player) => match get_winning_positions(grid, column, row) {
            Some(positions) => {
                return WinResult::Win(player, positions);
            },
            None => {},
        },
        None => {},
    }
    if grid.is_full() {
        WinResult::Draw
    } else {
        WinResult::NoWin
    }
}

} // verus!
