//! A two-player gravity-drop connection game on a rectangular grid: the board
//! state, the rule by which a token falls, and the detection of four tokens in
//! a row.

pub mod error;
pub mod player;
pub mod cell_and_slot;
pub mod grid;
pub mod win_condition_module;
pub mod board;
pub mod check_win_condition;
pub mod selection;
pub mod settings;
