use vstd::prelude::*;
use vstd::string::*;
use crate::error::MoveError;
use crate::grid::{Grid, GridView};
use crate::player::Player;
use crate::win_condition_module::{
    get_winning_positions,
    win_result,
    WinMethod,
    WinResult,
    WinResultView,
};

verus! {

/// What a move did, as a mathematical value.
pub struct MoveOutcomeView {
    pub row_occupied: int,
    pub player_who_moved: Player,
    pub win_result: WinResultView,
}

/// What a move did: the row in which the token came to rest, the player who
/// dropped it, and the verdict of the detector on it.
#[derive(Debug, PartialEq, Eq)]
pub struct MoveOutcome {
    pub row_occupied: i8,
    pub player_who_moved: Player,
    pub win_result: WinResult,
}

impl View for MoveOutcome {
    type V = MoveOutcomeView;

    open spec fn view(&self) -> MoveOutcomeView {
        MoveOutcomeView {
            row_occupied: self.row_occupied as int,
            player_who_moved: self.player_who_moved,
            win_result: self.win_result@,
        }
    }
}

/// The mathematical model of a game: the grid, the player whose move is
/// next, and whether the game has ended.
pub struct BoardView {
    pub current_player: Player,
    pub grid: GridView,
    pub game_over: bool,
}

impl BoardView {
    /// The validity of a game: that of its grid.
    pub open spec fn wf(self) -> bool {
        self.grid.wf()
    }

    /// The game before the first move: an empty grid, the first player to
    /// move.
    pub open spec fn start(width: int, height: int) -> BoardView {
        BoardView {
            current_player: Player::Player1,
            grid: GridView::empty(width, height),
            game_over: false,
        }
    }

    /// One move as a step of the game: the game after the current player has
    /// asked for a token in `column`, and what came of it.
    ///
    /// A game that has ended refuses every move. Otherwise a column outside
    /// the grid and a full column are refused. A refused move leaves the game
    /// as it was. An accepted move puts the token of the current player on
    /// the lowest empty cell of the column and asks the detector for its
    /// verdict on that cell. A win or a draw ends the game, and the turn stays
    /// with the player who moved; otherwise the turn passes to the opponent.
    pub open spec fn apply_move(self, column: int) -> (
        BoardView,
        Result<MoveOutcomeView, MoveError>,
    ) {
        if self.game_over {
            (self, Err(MoveError::GameOverError))
        } else if !(0 <= column < self.grid.width) {
            (self, Err(MoveError::InvalidColumnError))
        } else if self.grid.column_full(column) {
            (self, Err(MoveError::ColumnFullError))
        } else {
            let row = self.grid.landing_row(column);
            let grid = self.grid.place(column, row, self.current_player);
            let verdict = grid.win_result(column, row);
            let ended = !(verdict is NoWin);
            (
                BoardView {
                    current_player: if ended {
                        self.current_player
                    } else {
                        self.current_player.other()
                    },
                    grid,
                    game_over: ended,
                },
                Ok(
                    MoveOutcomeView {
                        row_occupied: row,
                        player_who_moved: self.current_player,
                        win_result: verdict,
                    },
                ),
            )
        }
    }

    /// A move keeps the game well formed, never changes the dimensions of the
    /// grid, and never takes a token away or gives it to the other player.
    pub proof fn lemma_tokens_stay(self, column: int)
        requires
            self.wf(),
        ensures
            self.apply_move(column).0.wf(),
            self.apply_move(column).0.grid.width == self.grid.width,
            self.apply_move(column).0.grid.height == self.grid.height,
            forall|c: int, r: int|
                self.grid.owner_at(c, r) is Some ==> #[trigger] self.apply_move(column).0.grid.owner_at(
                    c,
                    r,
                ) == self.grid.owner_at(c, r),
    {
        if !self.game_over && 0 <= column < self.grid.width && !self.grid.column_full(column) {
            self.grid.lemma_open_column_has_landing_row(column);
            self.grid.lemma_place_keeps_wf(
                column,
                self.grid.landing_row(column),
                self.current_player,
            );
        }
    }

    /// While the game goes on, a move into a column of the grid that has an
    /// empty cell is accepted: the token of the player who moves comes to
    /// rest on the lowest empty cell of that column, and no other cell
    /// changes. If the move wins, it wins for the player who made it.
    pub proof fn lemma_move_fills_lowest_empty_cell(self, column: int)
        requires
            self.wf(),
            !self.game_over,
            0 <= column < self.grid.width,
            !self.grid.column_full(column),
        ensures
            ({
                let (after, result) = self.apply_move(column);
                &&& result matches Ok(outcome)
                &&& outcome.player_who_moved == self.current_player
                &&& self.grid.lands_at(column, outcome.row_occupied)
                &&& after.grid.owner_at(column, outcome.row_occupied) == Some(self.current_player)
                &&& forall|c: int, r: int|
                    (c, r) != (column, outcome.row_occupied) ==> #[trigger] after.grid.owner_at(c, r)
                        == self.grid.owner_at(c, r)
                &&& outcome.win_result matches WinResultView::Win(winner, _) ==> winner
                    == self.current_player
            }),
    {
        self.grid.lemma_open_column_has_landing_row(column);
        self.grid.lemma_place_keeps_wf(column, self.grid.landing_row(column), self.current_player);
    }

    /// While the game goes on, a move into a full column of the grid is
    /// refused as such, and the game stays as it was.
    pub proof fn lemma_full_column_is_refused(self, column: int)
        requires
            !self.game_over,
            0 <= column < self.grid.width,
            self.grid.column_full(column),
        ensures
            self.apply_move(column) == (
                self,
                Err::<MoveOutcomeView, MoveError>(MoveError::ColumnFullError),
            ),
    {
    }

    /// Turns alternate strictly. After an accepted move that does not end the
    /// game the other player is to move. After a move that ends the game the
    /// turn stays where it was, and so it does after a refused move.
    pub proof fn lemma_turns_alternate(self, column: int)
        ensures
            ({
                let (after, result) = self.apply_move(column);
                match result {
                    Ok(outcome) => if outcome.win_result is NoWin {
                        &&& !after.game_over
                        &&& after.current_player != self.current_player
                        &&& after.current_player == self.current_player.other()
                    } else {
                        &&& after.game_over
                        &&& after.current_player == self.current_player
                    },
                    Err(_) => after == self,
                }
            }),
    {
    }

    /// A game that has ended refuses every move and stays as it was.
    pub proof fn lemma_ended_game_refuses_moves(self, column: int)
        requires
            self.game_over,
        ensures
            self.apply_move(column) == (
                self,
                Err::<MoveOutcomeView, MoveError>(MoveError::GameOverError),
            ),
    {
    }

    /// An accepted move that fills the grid, with no four in a row anywhere
    /// on it, is a draw; and after a draw or a win every further move is
    /// refused because the game is over.
    pub proof fn lemma_draw_ends_game(self, column: int, next_column: int)
        requires
            self.apply_move(column).1 is Ok,
        ensures
            ({
                let (after, result) = self.apply_move(column);
                let verdict = result->Ok_0.win_result;
                &&& after.grid.is_full() && (forall|win_method: WinMethod, c: int, r: int|
                    !after.grid.run_wins(win_method, c, r)) ==> verdict is Draw
                &&& !(verdict is NoWin) ==> after.apply_move(next_column) == (
                    after,
                    Err::<MoveOutcomeView, MoveError>(MoveError::GameOverError),
                )
            }),
    {
    }
}

/// The sign that stands for a cell in the text of a board.
pub open spec fn glyph(owner: Option<Player>) -> char {
    match owner {
        Some(Player::Player1) => 'X',
        Some(Player::Player2) => 'O',
        None => '-',
    }
}

impl GridView {
    /// One row as text: the signs of its cells from left to right, and a
    /// line feed.
    pub open spec fn row_text(self, row: int) -> Seq<char> {
        Seq::new(self.width as nat, |column: int| glyph(self.owner_at(column, row))).push('\n')
    }

    /// The topmost `rows` rows as text, the top row first.
    pub open spec fn rows_text(self, rows: int) -> Seq<char>
        decreases rows,
    {
        if rows <= 0 {
            Seq::empty()
        } else {
            self.rows_text(rows - 1) + self.row_text(self.height - rows)
        }
    }

    /// The whole grid as text, the top row first.
    pub open spec fn text(self) -> Seq<char> {
        self.rows_text(self.height)
    }
}

/// A game of two players who drop tokens in turn. It owns the grid: a move is
/// the only way to change it.
pub struct Board {
    current_player: Player,
    grid: Grid,
    game_over: bool,
}

impl View for Board {
    type V = BoardView;

    closed spec fn view(&self) -> BoardView {
        BoardView { current_player: self.current_player, grid: self.grid@, game_over: self.game_over }
    }
}

impl Board {
    /// The validity of the grid that the game holds.
    pub closed spec fn grid_valid(&self) -> bool {
        self.grid.wf()
    }

    /// The validity of a game.
    pub open spec fn wf(&self) -> bool {
        &&& self@.wf()
        &&& self.grid_valid()
    }

    /// A new game on an empty grid of `width` columns and `height` rows.
    pub fn new(width: i8, height: i8) -> (board: Board)
        requires
            0 < width,
            0 < height,
        ensures
            board.wf(),
            board@ == BoardView::start(width as int, height as int),
    {
        Board { current_player: Player::Player1, grid: Grid::new(width, height), game_over: false }
    }

    /// The number of columns.
    pub fn width(&self) -> (width: i8)
        ensures
            width == self@.grid.width,
    {
        self.grid.width()
    }

    /// The number of rows.
    pub fn height(&self) -> (height: i8)
        ensures
            height == self@.grid.height,
    {
        self.grid.height()
    }

    /// The grid, to look at.
    pub fn grid(&self) -> (grid: &Grid)
        requires
            self.wf(),
        ensures
            grid.wf(),
            grid@ == self@.grid,
    {
        &self.grid
    }

    /// The player whose move is next. Once the game has ended this stays the
    /// player who made the last move.
    pub fn current_player(&self) -> (player: Player)
        ensures
            player == self@.current_player,
    {
        self.current_player
    }

    /// Whether the game has ended in a win or a draw.
    pub fn is_game_over(&self) -> (over: bool)
        ensures
            over == self@.game_over,
    {
        self.game_over
    }

    /// The owner of the token at `(column, row)`; `None` for an empty cell
    /// and for coordinates outside the grid.
    pub fn owner_at(&self, column: i8, row: i8) -> (owner: Option<Player>)
        requires
            self.wf(),
        ensures
            owner == self@.grid.owner_at(column as int, row as int),
            !self@.grid.in_bounds(column as int, row as int) ==> owner is None,
    {
        self.grid.owner_at(column, row)
    }

    /// The player for whom four tokens in a row start at the cell in `row`
    /// and `col`, if there is such a run.
    pub fn check_win_condition_single_entry(&self, row: i8, col: i8) -> (winner: Option<Player>)
        requires
            self.wf(),
        ensures
            winner == if self@.grid.winning_method(col as int, row as int) is Some {
                self@.grid.owner_at(col as int, row as int)
            } else {
                None
            },
    {
        match get_winning_positions(&self.grid, col, row) {
            Some(_) => self.grid.owner_at(col, row),
            None => None,
        }
    }

    /// Makes one move: the current player drops a token into column `x`.
    ///
    /// The whole move is one step of the model, `BoardView::apply_move`: the
    /// game afterwards and the result are those of that step. A refused move
    /// leaves the game exactly as it was.
    pub fn occupy(&mut self, x: i8) -> (result: Result<MoveOutcome, MoveError>)
        requires
            old(self).wf(),
        ensures
            final(self).wf(),
            final(self)@ == old(self)@.apply_move(x as int).0,
            match result {
                Ok(outcome) => old(self)@.apply_move(x as int).1 == Ok::<MoveOutcomeView, MoveError>(
                    outcome@,
                ),
                Err(error) => old(self)@.apply_move(x as int).1 == Err::<MoveOutcomeView, MoveError>(
                    error,
                ),
            },
            result is Err ==> *final(self) == *old(self),
    {
        if self.game_over {
            return Err(MoveError::GameOverError);
        }
        let mover = self.current_player;
        match self.grid.drop(x, mover) {
            Err(error) => Err(error),
            Ok(row) => {
                proof {
                    old(self)@.grid.lemma_landing_row_is_unique(x as int, row as int);
                }
                let verdict = win_result(&self.grid, x, row);
                match &verdict {
                    WinResult::NoWin => {
                        self.current_player = mover.other();
                    },
                    _ => {
                        self.game_over = true;
                    },
                }
                Ok(MoveOutcome { row_occupied: row, player_who_moved: mover, win_result: verdict })
            },
        }
    }

    /// The board as text, one line for each row, the top row first: `X` for a
    /// token of the first player, `O` for one of the second, `-` for an empty
    /// cell.
    pub fn display_board(&self) -> (text: String)
        requires
            self.wf(),
        ensures
            text@ == self@.grid.text(),
    {
        let width = self.grid.width();
        let height = self.grid.height();
        let mut text = String::new();
        let mut rows: i8 = 0;
        while rows < height
            invariant
                self.wf(),
                width == self@.grid.width,
                height == self@.grid.height,
                0 <= rows <= height,
                text@ == self@.grid.rows_text(rows as int),
            decreases height - rows,
        {
            let row: i8 = height - 1 - rows;
            let ghost above = text@;
            let mut column: i8 = 0;
            while column < width
                invariant
                    self.wf(),
                    width == self@.grid.width,
                    0 <= column <= width,
                    text@ == above + Seq::new(
                        column as nat,
                        |c: int| glyph(self@.grid.owner_at(c, row as int)),
                    ),
                decreases width - column,
            {
                let owner = self.grid.owner_at(column, row);
                match owner {
                    Some(Player::Player1) => {
                        text.append("X");
                    },
                    Some(Player::Player2) => {
                        text.append("O");
                    },
                    None => {
                        text.append("-");
                    },
                }
                proof {
                    reveal_strlit("X");
                    reveal_strlit("O");
                    reveal_strlit("-");
                }
                column = column + 1;
            }
            text.append("\n");
            proof {
                reveal_strlit("\n");
            }
            rows = rows + 1;
        }
        text
    }
}

} // verus!
