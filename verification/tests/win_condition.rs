use connect_four::check_win_condition::{
    check_diagonal_down_right, check_diagonal_up_right, check_horizontal, check_iterator,
    check_vertical,
};
use connect_four::grid::Grid;
use connect_four::player::Player;
use connect_four::win_condition_module::{
    check_single_direction, get_positions, get_winning_positions, positions_fit, win_result,
    WinMethod, WinResult,
};

fn grid_with(width: i8, height: i8, drops: &[(i8, Player)]) -> Grid {
    let mut grid = Grid::new(width, height);
    for (column, player) in drops {
        assert!(grid.drop(*column, *player).is_ok());
    }
    grid
}

const FIRST: Player = Player::Player1;
const SECOND: Player = Player::Player2;

#[test]
fn positions_of_each_direction() {
    assert_eq!(get_positions(&WinMethod::Vertical, 2, 1), vec![(2, 1), (2, 2), (2, 3), (2, 4)]);
    assert_eq!(get_positions(&WinMethod::Horizontal, 2, 1), vec![(2, 1), (3, 1), (4, 1), (5, 1)]);
    assert_eq!(
        get_positions(&WinMethod::DiagonalUpRight, 2, 0),
        vec![(2, 0), (3, 1), (4, 2), (5, 3)]
    );
    assert_eq!(
        get_positions(&WinMethod::DiagonalDownRight, 2, 3),
        vec![(2, 3), (3, 2), (4, 1), (5, 0)]
    );
    assert_eq!(
        get_positions(&WinMethod::DiagonalDownRight, -1, 1),
        vec![(-1, 1), (0, 0), (1, -1), (2, -2)]
    );
}

#[test]
fn positions_fit_up_to_the_end_of_the_coordinates() {
    assert!(positions_fit(&WinMethod::Vertical, 127, 124));
    assert!(!positions_fit(&WinMethod::Vertical, 0, 125));
    assert!(positions_fit(&WinMethod::Horizontal, 124, 127));
    assert!(!positions_fit(&WinMethod::Horizontal, 125, 0));
    assert!(positions_fit(&WinMethod::DiagonalUpRight, 124, 124));
    assert!(!positions_fit(&WinMethod::DiagonalUpRight, 124, 125));
    assert!(!positions_fit(&WinMethod::DiagonalUpRight, 125, 124));
    assert!(positions_fit(&WinMethod::DiagonalDownRight, 124, -125));
    assert!(!positions_fit(&WinMethod::DiagonalDownRight, 124, -126));
    assert!(!positions_fit(&WinMethod::DiagonalDownRight, 125, 0));
    assert_eq!(
        get_positions(&WinMethod::DiagonalDownRight, 124, -125),
        vec![(124, -125), (125, -126), (126, -127), (127, -128)]
    );
    assert_eq!(
        get_positions(&WinMethod::DiagonalUpRight, 124, 124),
        vec![(124, 124), (125, 125), (126, 126), (127, 127)]
    );
}

#[test]
fn vertical_run_wins_from_its_lowest_cell() {
    let grid = grid_with(7, 6, &[(1, SECOND), (1, FIRST), (1, FIRST), (1, FIRST), (1, FIRST)]);
    assert_eq!(get_winning_positions(&grid, 1, 1), Some(vec![(1, 1), (1, 2), (1, 3), (1, 4)]));
    assert_eq!(get_winning_positions(&grid, 1, 0), None);
    assert_eq!(get_winning_positions(&grid, 1, 2), None);
    assert_eq!(get_winning_positions(&grid, 1, 4), None);
    assert!(check_vertical(&grid, 1, 1, &Some(FIRST)));
    assert!(!check_vertical(&grid, 1, 1, &Some(SECOND)));
    assert!(!check_vertical(&grid, 1, 0, &Some(SECOND)));
    assert!(!check_vertical(&grid, 1, 2, &Some(FIRST)));
    assert!(!check_horizontal(&grid, 1, 1, &Some(FIRST)));
}

#[test]
fn horizontal_run_wins_from_its_left_cell() {
    let grid = grid_with(7, 6, &[(0, FIRST), (1, FIRST), (2, FIRST), (3, FIRST)]);
    assert_eq!(get_winning_positions(&grid, 0, 0), Some(vec![(0, 0), (1, 0), (2, 0), (3, 0)]));
    assert_eq!(get_winning_positions(&grid, 1, 0), None);
    assert_eq!(get_winning_positions(&grid, 3, 0), None);
    assert_eq!(win_result(&grid, 0, 0), WinResult::Win(FIRST, vec![(0, 0), (1, 0), (2, 0), (3, 0)]));
    assert_eq!(win_result(&grid, 3, 0), WinResult::NoWin);
    assert!(check_horizontal(&grid, 0, 0, &Some(FIRST)));
    assert!(!check_horizontal(&grid, 1, 0, &Some(FIRST)));
    assert!(!check_vertical(&grid, 0, 0, &Some(FIRST)));
}

#[test]
fn diagonal_down_right_run_is_found() {
    let grid = grid_with(
        7,
        6,
        &[
            (2, SECOND), (2, SECOND), (2, SECOND), (2, FIRST),
            (3, SECOND), (3, SECOND), (3, FIRST),
            (4, SECOND), (4, FIRST),
            (5, FIRST),
        ],
    );
    assert_eq!(grid.owner_at(2, 3), Some(FIRST));
    assert_eq!(grid.owner_at(3, 2), Some(FIRST));
    assert_eq!(grid.owner_at(4, 1), Some(FIRST));
    assert_eq!(grid.owner_at(5, 0), Some(FIRST));
    assert_eq!(get_winning_positions(&grid, 2, 3), Some(vec![(2, 3), (3, 2), (4, 1), (5, 0)]));
    assert_eq!(win_result(&grid, 2, 3), WinResult::Win(FIRST, vec![(2, 3), (3, 2), (4, 1), (5, 0)]));
    assert!(check_diagonal_down_right(&grid, 2, 3, &Some(FIRST)));
    assert!(!check_diagonal_up_right(&grid, 2, 3, &Some(FIRST)));
    assert_eq!(get_winning_positions(&grid, 3, 2), None);
    assert_eq!(get_winning_positions(&grid, 5, 0), None);
}

#[test]
fn diagonal_up_right_run_is_found_like_its_mirror_image() {
    let grid = grid_with(
        7,
        6,
        &[
            (2, FIRST),
            (3, SECOND), (3, FIRST),
            (4, SECOND), (4, SECOND), (4, FIRST),
            (5, SECOND), (5, SECOND), (5, SECOND), (5, FIRST),
        ],
    );
    assert_eq!(grid.owner_at(2, 0), Some(FIRST));
    assert_eq!(grid.owner_at(3, 1), Some(FIRST));
    assert_eq!(grid.owner_at(4, 2), Some(FIRST));
    assert_eq!(grid.owner_at(5, 3), Some(FIRST));
    assert_eq!(get_winning_positions(&grid, 2, 0), Some(vec![(2, 0), (3, 1), (4, 2), (5, 3)]));
    assert_eq!(win_result(&grid, 2, 0), WinResult::Win(FIRST, vec![(2, 0), (3, 1), (4, 2), (5, 3)]));
    assert!(check_diagonal_up_right(&grid, 2, 0, &Some(FIRST)));
    assert!(!check_diagonal_down_right(&grid, 2, 0, &Some(FIRST)));
    assert_eq!(get_winning_positions(&grid, 3, 1), None);
    assert_eq!(get_winning_positions(&grid, 5, 3), None);

    // The same tokens upside down, on a grid of four rows, are the run down
    // and to the right from (2, 3).
    let mirrored = grid_with(
        7,
        4,
        &[
            (2, SECOND), (2, SECOND), (2, SECOND), (2, FIRST),
            (3, SECOND), (3, SECOND), (3, FIRST),
            (4, SECOND), (4, FIRST),
            (5, FIRST),
        ],
    );
    let up = get_winning_positions(&grid, 2, 0).unwrap();
    let down = get_winning_positions(&mirrored, 2, 3).unwrap();
    assert_eq!(up.len(), 4);
    for k in 0..4 {
        assert_eq!(down[k], (up[k].0, 3 - up[k].1));
    }
}

#[test]
fn first_direction_in_order_is_reported() {
    let grid = grid_with(
        7,
        6,
        &[(0, FIRST), (0, FIRST), (0, FIRST), (0, FIRST), (1, FIRST), (2, FIRST), (3, FIRST)],
    );
    assert_eq!(get_winning_positions(&grid, 0, 0), Some(vec![(0, 0), (0, 1), (0, 2), (0, 3)]));
    assert!(check_vertical(&grid, 0, 0, &Some(FIRST)));
    assert!(check_horizontal(&grid, 0, 0, &Some(FIRST)));

    let grid = grid_with(
        7,
        6,
        &[(0, FIRST), (1, FIRST), (2, FIRST), (3, FIRST), (1, FIRST), (2, SECOND), (2, FIRST), (3, SECOND), (3, SECOND), (3, FIRST)],
    );
    assert!(check_horizontal(&grid, 0, 0, &Some(FIRST)));
    assert!(check_diagonal_up_right(&grid, 0, 0, &Some(FIRST)));
    assert_eq!(get_winning_positions(&grid, 0, 0), Some(vec![(0, 0), (1, 0), (2, 0), (3, 0)]));
}

#[test]
fn three_in_a_row_is_no_win() {
    let grid = grid_with(7, 6, &[(0, FIRST), (1, FIRST), (2, FIRST), (3, SECOND), (0, FIRST), (0, FIRST)]);
    assert_eq!(get_winning_positions(&grid, 0, 0), None);
    assert_eq!(win_result(&grid, 0, 0), WinResult::NoWin);
}

#[test]
fn empty_or_outside_anchor_has_no_winning_run() {
    let grid = grid_with(7, 6, &[(0, FIRST), (1, FIRST), (2, FIRST), (3, FIRST)]);
    assert_eq!(get_winning_positions(&grid, 0, 1), None);
    assert_eq!(get_winning_positions(&grid, -1, 0), None);
    assert_eq!(get_winning_positions(&grid, 0, -1), None);
    assert_eq!(get_winning_positions(&grid, 7, 0), None);
    assert_eq!(get_winning_positions(&grid, i8::MAX, i8::MAX), None);
    assert_eq!(get_winning_positions(&grid, i8::MIN, i8::MIN), None);
    assert_eq!(win_result(&grid, 4, 4), WinResult::NoWin);
}

#[test]
fn run_that_leaves_the_grid_is_no_win() {
    let grid = grid_with(5, 1, &[(2, FIRST), (3, FIRST), (4, FIRST)]);
    assert_eq!(get_winning_positions(&grid, 2, 0), None);

    let mut drops = Vec::new();
    for column in 123..=126 {
        drops.push((column, SECOND));
    }
    let grid = grid_with(127, 1, &drops);
    assert_eq!(
        get_winning_positions(&grid, 123, 0),
        Some(vec![(123, 0), (124, 0), (125, 0), (126, 0)])
    );
    assert_eq!(get_winning_positions(&grid, 124, 0), None);
    assert_eq!(get_winning_positions(&grid, 125, 0), None);
    assert_eq!(get_winning_positions(&grid, 126, 0), None);

    let mut drops = Vec::new();
    for _ in 0..127 {
        drops.push((0, FIRST));
    }
    let grid = grid_with(1, 127, &drops);
    assert!(grid.is_full());
    assert_eq!(
        get_winning_positions(&grid, 0, 123),
        Some(vec![(0, 123), (0, 124), (0, 125), (0, 126)])
    );
    assert_eq!(get_winning_positions(&grid, 0, 124), None);
    assert_eq!(get_winning_positions(&grid, 0, 125), None);
    assert_eq!(win_result(&grid, 0, 126), WinResult::Draw);
}

#[test]
fn win_goes_before_draw_on_a_full_grid() {
    let grid = grid_with(4, 1, &[(3, SECOND), (2, SECOND), (1, SECOND), (0, SECOND)]);
    assert!(grid.is_full());
    assert_eq!(win_result(&grid, 0, 0), WinResult::Win(SECOND, vec![(0, 0), (1, 0), (2, 0), (3, 0)]));
    assert_eq!(win_result(&grid, 1, 0), WinResult::Draw);
}

#[test]
fn full_grid_without_run_is_a_draw() {
    let grid = grid_with(2, 2, &[(0, FIRST), (0, SECOND), (1, FIRST), (1, SECOND)]);
    assert_eq!(win_result(&grid, 1, 1), WinResult::Draw);
    let grid = grid_with(2, 2, &[(0, FIRST), (0, SECOND), (1, FIRST)]);
    assert_eq!(win_result(&grid, 1, 0), WinResult::NoWin);
}

#[test]
fn single_direction_compares_each_position_with_the_given_owner() {
    let grid = grid_with(7, 6, &[(0, FIRST), (1, FIRST), (2, SECOND)]);
    assert!(check_single_direction(&grid, &vec![(0, 0), (1, 0)], &Some(FIRST)));
    assert!(!check_single_direction(&grid, &vec![(0, 0), (1, 0), (2, 0)], &Some(FIRST)));
    assert!(!check_single_direction(&grid, &vec![(0, 0), (1, 0)], &Some(SECOND)));
    assert!(check_single_direction(&grid, &vec![(2, 0)], &Some(SECOND)));
    assert!(check_single_direction(&grid, &vec![], &Some(SECOND)));
    assert!(check_single_direction(&grid, &vec![], &None));
    assert!(check_single_direction(&grid, &vec![(3, 0), (0, 1), (-1, 0), (7, 7)], &None));
    assert!(!check_single_direction(&grid, &vec![(3, 0), (0, 0)], &None));
    assert!(!check_single_direction(&grid, &vec![(0, 0), (-1, 0)], &Some(FIRST)));
    assert!(check_iterator(&grid, vec![(0, 0), (1, 0)], &Some(FIRST)));
    assert!(!check_iterator(&grid, vec![(0, 0), (2, 0)], &Some(FIRST)));
    assert!(check_iterator(&grid, vec![(5, 5), (6, 6)], &None));
}

#[test]
fn direction_checks_with_no_owner_ask_for_empty_cells() {
    let grid = grid_with(7, 6, &[(0, FIRST)]);
    assert!(check_vertical(&grid, 1, 0, &None));
    assert!(!check_vertical(&grid, 0, 0, &None));
    assert!(check_horizontal(&grid, 1, 0, &None));
    assert!(!check_horizontal(&grid, -3, 0, &None));
    assert!(check_diagonal_up_right(&grid, 5, 5, &None));
    assert!(check_diagonal_down_right(&grid, 0, 1, &None));
    assert!(!check_diagonal_down_right(&grid, -1, 1, &None));
}

#[test]
fn direction_checks_reach_past_the_last_coordinate() {
    let mut drops = Vec::new();
    for row in 0..127 {
        drops.push((126, if row < 120 { SECOND } else { FIRST }));
    }
    let grid = grid_with(127, 127, &drops);
    assert!(check_vertical(&grid, 126, 123, &Some(FIRST)));
    assert!(!check_vertical(&grid, 126, 124, &Some(FIRST)));
    assert!(!check_vertical(&grid, 126, 127, &Some(FIRST)));
    assert!(check_vertical(&grid, 125, 126, &None));
    assert!(check_vertical(&grid, 126, 127, &None));
    assert!(!check_vertical(&grid, 126, 126, &None));
    assert!(check_horizontal(&grid, 127, 0, &None));
    assert!(!check_horizontal(&grid, 125, 0, &None));
    assert!(check_horizontal(&grid, 122, 0, &None));
    assert!(!check_horizontal(&grid, 126, 0, &Some(SECOND)));
    assert!(check_diagonal_up_right(&grid, 127, 127, &None));
    assert!(!check_diagonal_up_right(&grid, 125, 125, &None));
    assert!(check_diagonal_up_right(&grid, 124, 125, &None));
    assert!(!check_diagonal_up_right(&grid, 125, 0, &None));
    assert!(check_diagonal_down_right(&grid, 127, i8::MIN, &None));
    assert!(check_diagonal_down_right(&grid, i8::MIN, i8::MIN, &None));
    assert!(!check_diagonal_down_right(&grid, 125, 2, &None));
    assert!(!check_diagonal_down_right(&grid, 126, 0, &Some(SECOND)));
}
