use vstd::prelude::*;
use crate::grid::Grid;
use crate::player::Player;
use crate::win_condition_module::{
    as_points,
    check_single_direction,
    run_positions,
    same_owner,
    WinMethod,
};

verus! {

/// The owner of the cell that lies `right` columns to the right of the cell
/// `(column, row)` and `up` rows above it.
fn owner_beside(grid: &Grid, column: i8, row: i8, right: i8, up: i8) -> (owner: Option<Player>)
    requires
        grid.wf(),
    ensures
        owner == grid@.owner_at(column + right, row + up),
{
    match (column.checked_add(right), row.checked_add(up)) {
        (Some(beside_column), Some(beside_row)) => grid.owner_at(beside_column, beside_row),
        // A cell beyond the machine's coordinates lies outside every grid.
        _ => None,
    }
}

/// Whether each cell of the run anchored at `(column, row)` in the direction
/// of `win_method` has the owner `primary_player`.
fn check_run(
    grid: &Grid,
    win_method: &WinMethod,
    column: i8,
    row: i8,
    primary_player: &Option<Player>,
) -> (won: bool)
    requires
        grid.wf(),
    ensures
        won == grid@.owned_by(
            run_positions(*win_method, column as int, row as int),
            *primary_player,
        ),
{
    let (right, up): (i8, i8) = match win_method {
        WinMethod::Vertical => (0, 1),
        WinMethod::Horizontal => (1, 0),
        WinMethod::DiagonalUpRight => (1, 1),
        WinMethod::DiagonalDownRight => (1, -1),
    };
    let ghost run = run_positions(*win_method, column as int, row as int);
    let mut steps: i8 = 0;
    while steps < 4
        invariant
            grid.wf(),
            0 <= steps <= 4,
            -1 <= right <= 1,
            -1 <= up <= 1,
            run == run_positions(*win_method, column as int, row as int),
            forall|k: int| 0 <= k < 4 ==> #[trigger] run[k] == (column + k * right, row + k * up),
            forall|k: int|
                0 <= k < steps ==> grid@.owner_at((#[trigger] run[k]).0, run[k].1) == *primary_player,
        decreases 4 - steps,
    {
        let owner = owner_beside(grid, column, row, steps * right, steps * up);
        assert(run[steps as int] == (column + steps * right, row + steps * up));
        if !same_owner(&owner, primary_player) {
            return false;
        }
        steps = steps + 1;
    }
    true
}

/// Whether the anchor `(column, row)` and the three cells above it all have
/// the owner `primary_player`.
pub fn check_vertical(
    grid: &Grid,
    column: i8,
    row: i8,
    primary_player: &Option<Player>,
) -> (won: bool)
    requires
        grid.wf(),
    ensures
        won == grid@.owned_by(
            run_positions(WinMethod::Vertical, column as int, row as int),
            *primary_player,
        ),
{
    check_run(grid, &WinMethod::Vertical, column, row, primary_player)
}

/// Whether the anchor `(column, row)` and the three cells to its right all
/// have the owner `primary_player`.
pub fn check_horizontal(
    grid: &Grid,
    column: i8,
    row: i8,
    primary_player: &Option<Player>,
) -> (won: bool)
    requires
        grid.wf(),
    ensures
        won == grid@.owned_by(
            run_positions(WinMethod::Horizontal, column as int, row as int),
            *primary_player,
        ),
{
    check_run(grid, &WinMethod::Horizontal, column, row, primary_player)
}

/// Whether the anchor `(column, row)` and the three cells that follow it up
/// and to the right all have the owner `primary_player`.
pub fn check_diagonal_up_right(
    grid: &Grid,
    column: i8,
    row: i8,
    primary_player: &Option<Player>,
) -> (won: bool)
    requires
        grid.wf(),
    ensures
        won == grid@.owned_by(
            run_positions(WinMethod::DiagonalUpRight, column as int, row as int),
            *primary_player,
        ),
{
    check_run(grid, &WinMethod::DiagonalUpRight, column, row, primary_player)
}

/// Whether the anchor `(column, row)` and the three cells that follow it down
/// and to the right all have the owner `primary_player`.
pub fn check_diagonal_down_right(
    grid: &Grid,
    column: i8,
    row: i8,
    primary_player: &Option<Player>,
) -> (won: bool)
    requires
        grid.wf(),
    ensures
        won == grid@.owned_by(
            run_positions(WinMethod::DiagonalDownRight, column as int, row as int),
            *primary_player,
        ),
{
    check_run(grid, &WinMethod::DiagonalDownRight, column, row, primary_player)
}

/// Whether each of the positions handed over has the owner `primary_player`.
/// A position outside the grid has no owner.
pub fn check_iterator(
    grid: &Grid,
    iterator: Vec<(i8, i8)>,
    primary_player: &Option<Player>,
) -> (game_over: bool)
    requires
        grid.wf(),
    ensures
        game_over == grid@.owned_by(as_points(iterator@), *primary_player),
{
    check_single_direction(grid, &iterator, primary_player)
}

} // verus!
