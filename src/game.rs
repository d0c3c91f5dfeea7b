//! The decision taken for one request to drop a token: check the request,
//! refuse play on a finished game or a full column, else make the move.
use vstd::prelude::*;
use crate::grid::{outcome, place_result, rendered, GameState, Grid, GridView};
use crate::tile::{player_named, Player};

verus! {

/// The answer to a request to drop a token.
#[derive(Debug)]
pub enum PlaceOutcome {
    /// The team token or the column is not valid; the board was not touched.
    InvalidInput,
    /// The game is already over; carries the drawing of the board.
    GameOver(String),
    /// The chosen column has no empty cell; carries the drawing of the board.
    ColumnFull(String),
    /// The token was dropped; carries the drawing of the new board.
    Accepted(String),
}

impl PlaceOutcome {
    /// The drawing that the answer carries; nothing for invalid input.
    pub open spec fn board_text(self) -> Seq<char> {
        match self {
            PlaceOutcome::InvalidInput => Seq::empty(),
            PlaceOutcome::GameOver(t) => t@,
            PlaceOutcome::ColumnFull(t) => t@,
            PlaceOutcome::Accepted(t) => t@,
        }
    }
}

/// Whether `column`, counted from 1 as requests give it, names a column.
pub open spec fn column_in_range(column: int) -> bool {
    1 <= column <= 4
}

/// The board after the request (`team`, `column`) on board `v`, or none when
/// the request is refused and the board stays as it is.
pub open spec fn move_result(v: GridView, team: Seq<char>, column: int) -> Option<GridView> {
    match player_named(team) {
        Some(p) => if column_in_range(column) && outcome(v) == GameState::Pending {
            place_result(v, p.spec_tile(), column - 1)
        } else {
            None
        },
        None => None,
    }
}

/// Handles a request to drop a token of team `team` into `column` (counted
/// from 1). An unknown team or a column outside 1..=4 is invalid input; a
/// game already won or drawn refuses the move, as does a full column; else
/// the token is dropped. Only an accepted move changes the board.
pub fn try_place(grid: &mut Grid, team: &str, column: usize) -> (r: PlaceOutcome)
    requires
        old(grid).wf(),
    ensures
        final(grid).wf(),
        match move_result(old(grid)@, team@, column as int) {
            Some(next) => final(grid)@ == next,
            None => *final(grid) == *old(grid),
        },
        r is InvalidInput <==> (player_named(team@) is None || !column_in_range(column as int)),
        r is GameOver <==> (player_named(team@) is Some && column_in_range(column as int)
            && outcome(old(grid)@) != GameState::Pending),
        r is ColumnFull <==> (player_named(team@) is Some && column_in_range(column as int)
            && outcome(old(grid)@) == GameState::Pending && move_result(
            old(grid)@,
            team@,
            column as int,
        ) is None),
        r is Accepted <==> move_result(old(grid)@, team@, column as int) is Some,
        r.board_text() == if r is InvalidInput {
            Seq::empty()
        } else {
            rendered(final(grid)@)
        },
{
    let player = match Player::parse(team) {
        Some(p) => p,
        None => return PlaceOutcome::InvalidInput,
    };
    if column < 1 || column > 4 {
        return PlaceOutcome::InvalidInput;
    }
    match grid.check_winner() {
        GameState::Win(_) | GameState::NoWin => PlaceOutcome::GameOver(grid.render()),
        GameState::Pending => match grid.place(player.tile(), column - 1) {
            Ok(()) => PlaceOutcome::Accepted(grid.render()),
            Err(()) => PlaceOutcome::ColumnFull(grid.render()),
        },
    }
}

} // verus!
