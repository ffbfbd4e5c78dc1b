use vstd::prelude::*;
use crate::cell_and_slot::{Cell, Coordinates};

verus! {

/// How a square of the board is painted.
#[derive(Clone, Copy, Debug, PartialEq, Eq, Structural)]
pub enum Shade {
    /// The square belongs to the winning run.
    Winning,
    /// The square lies in the column that is selected for the next move.
    Selected,
    /// A light square of the chequered board.
    Bright,
    /// A dark square of the chequered board.
    Dark,
}

/// The paint of a square: a winning square is shown as such before all else,
/// then the selected column, then the chequer pattern, in which the squares
/// whose column and row add up to an even number are the bright ones.
pub open spec fn shade_of(cell: Cell, selected_column: i8) -> Shade {
    if cell.winning_cell {
        Shade::Winning
    } else if cell.column == selected_column {
        Shade::Selected
    } else if (cell.column + cell.row) % 2 == 0 {
        Shade::Bright
    } else {
        Shade::Dark
    }
}

/// The paint of a square while `selected_column` is selected.
pub fn shade(cell: &Cell, selected_column: i8) -> (paint: Shade)
    ensures
        paint == shade_of(*cell, selected_column),
{
    if cell.winning_cell {
        Shade::Winning
    } else if cell.column == selected_column {
        Shade::Selected
    } else if (cell.column as i16 + cell.row as i16) % 2 == 0 {
        Shade::Bright
    } else {
        Shade::Dark
    }
}

/// The selection after a step to the left: one column less, but never left
/// of the first column.
pub fn select_left(column: i8) -> (selected: i8)
    ensures
        selected == if column - 1 > 0 {
            column - 1
        } else {
            0
        },
{
    if column <= 0 {
        0
    } else {
        column - 1
    }
}

/// The selection after a step to the right on a board of `width` columns:
/// one column more, but never right of the last column.
pub fn select_right(column: i8, width: i8) -> (selected: i8)
    requires
        0 < width,
    ensures
        selected == if column + 1 < width - 1 {
            column + 1
        } else {
            width - 1
        },
{
    if column >= width - 1 {
        width - 1
    } else {
        column + 1
    }
}

/// Marks the square as winning if it is one of the winning positions. A
/// square that is marked stays marked; its place does not change.
pub fn mark_winning_cell(cell: &mut Cell, winning_positions: &Vec<(i8, i8)>)
    ensures
        final(cell).column == old(cell).column,
        final(cell).row == old(cell).row,
        final(cell).winning_cell == (old(cell).winning_cell || winning_positions@.contains(
            (old(cell).column, old(cell).row),
        )),
{
    let mut index: usize = 0;
    while index < winning_positions.len()
        invariant
            0 <= index <= winning_positions.len(),
            cell.column == old(cell).column,
            cell.row == old(cell).row,
            cell.winning_cell == (old(cell).winning_cell || exists|k: int|
                0 <= k < index && winning_positions@[k] == (old(cell).column, old(cell).row)),
        decreases winning_positions.len() - index,
    {
        let (column, row) = winning_positions[index];
        if cell.check_coordinates(&column, &row) {
            cell.winning_cell = true;
        }
        index = index + 1;
    }
}

} // verus!
