//! Facts about play that hold for every board and every sequence of moves.
use vstd::prelude::*;
use crate::game::move_result;
use crate::grid::{
    cell_at, landing_from, landing_row, lemma_count_empty_all, lemma_count_empty_fill, outcome, place_result,
    GameState, GridView,
};
use crate::tile::TileType;

verus! {

/// A move that `Grid::place` accepts as an argument: a player's tile and a
/// column in 0..=3.
pub open spec fn valid_move(m: (TileType, int)) -> bool {
    m.0.is_color() && 0 <= m.1 < 4
}

/// The board after dropping each tile of `moves` in turn (a refused drop
/// leaves the board as it was), with the number of drops that succeeded.
pub open spec fn drop_all(v: GridView, moves: Seq<(TileType, int)>) -> (GridView, nat)
    decreases moves.len(),
{
    if moves.len() == 0 {
        (v, 0)
    } else {
        let (w, n) = drop_all(v, moves.drop_last());
        match place_result(w, moves.last().0, moves.last().1) {
            Some(x) => (x, n + 1),
            None => (w, n),
        }
    }
}

/// The board after handling each request of `requests` (team, column counted
/// from 1) in turn.
pub open spec fn play_all(v: GridView, requests: Seq<(Seq<char>, int)>) -> GridView
    decreases requests.len(),
{
    if requests.len() == 0 {
        v
    } else {
        let w = play_all(v, requests.drop_last());
        match move_result(w, requests.last().0, requests.last().1) {
            Some(x) => x,
            None => w,
        }
    }
}

/// Looking upward from `row`, the landing row is the first empty cell, and
/// every cell below it down to `row` is taken; with no landing row, every
/// cell from `row` up is taken.
pub proof fn lemma_landing_from(cells: Seq<TileType>, col: int, row: int)
    requires
        cells.len() == 16,
        0 <= col < 4,
        row < 4,
    ensures
        match landing_from(cells, col, row) {
            Some(r) => 0 <= r <= row && cell_at(cells, r, col) == TileType::Empty && forall|k: int|
                r < k <= row ==> #[trigger] cell_at(cells, k, col) != TileType::Empty,
            None => forall|k: int|
                0 <= k <= row ==> #[trigger] cell_at(cells, k, col) != TileType::Empty,
        },
    decreases row + 1,
{
    if row >= 0 && cell_at(cells, row, col) != TileType::Empty {
        lemma_landing_from(cells, col, row - 1);
    }
}

/// Dropping a player's tile into a column of a valid board gives a valid
/// board with one empty cell fewer.
pub proof fn lemma_place_keeps_wf(v: GridView, tile: TileType, col: int)
    requires
        v.wf(),
        tile.is_color(),
        0 <= col < 4,
    ensures
        place_result(v, tile, col) matches Some(next) ==> next.wf() && next.empty_left + 1
            == v.empty_left,
{
    lemma_landing_from(v.cells, col, 3);
    if let Some(row) = landing_row(v.cells, col) {
        lemma_count_empty_fill(v.cells, 4 * row + col, tile);
    }
}

/// A token always lands in the lowest empty cell of its column: that cell
/// was empty, every cell below it is taken, it now holds the token, and no
/// other cell (so no other column) changes.
pub proof fn lemma_place_fills_lowest(v: GridView, tile: TileType, col: int)
    requires
        v.wf(),
        tile.is_color(),
        0 <= col < 4,
        exists|r: int| 0 <= r < 4 && #[trigger] cell_at(v.cells, r, col) == TileType::Empty,
    ensures
        landing_row(v.cells, col) is Some,
        place_result(v, tile, col) is Some,
        ({
            let row = landing_row(v.cells, col)->Some_0;
            let next = place_result(v, tile, col)->Some_0;
            &&& 0 <= row < 4
            &&& v.cells[4 * row + col] == TileType::Empty
            &&& forall|k: int| row < k < 4 ==> #[trigger] cell_at(v.cells, k, col) != TileType::Empty
            &&& next.cells[4 * row + col] == tile
            &&& forall|i: int| 0 <= i < 16 && i != 4 * row + col ==> next.cells[i] == v.cells[i]
        }),
{
    lemma_landing_from(v.cells, col, 3);
}

/// Dropping into a column with no empty cell is refused.
pub proof fn lemma_full_column_refused(v: GridView, tile: TileType, col: int)
    requires
        v.wf(),
        0 <= col < 4,
        forall|r: int| 0 <= r < 4 ==> #[trigger] cell_at(v.cells, r, col) != TileType::Empty,
    ensures
        place_result(v, tile, col) is None,
{
    lemma_landing_from(v.cells, col, 3);
}

/// From a fresh board, after any sequence of valid drops, the number of empty
/// cells is 16 less the number of drops that succeeded.
pub proof fn lemma_empty_count_after_drops(moves: Seq<(TileType, int)>)
    requires
        forall|i: int| 0 <= i < moves.len() ==> valid_move(#[trigger] moves[i]),
    ensures
        drop_all(GridView::initial(), moves).0.wf(),
        drop_all(GridView::initial(), moves).0.empty_left + drop_all(
            GridView::initial(),
            moves,
        ).1 == 16,
    decreases moves.len(),
{
    if moves.len() == 0 {
        lemma_initial_wf();
    } else {
        let rest = moves.drop_last();
        assert forall|i: int| 0 <= i < rest.len() implies valid_move(#[trigger] rest[i]) by {
            assert(rest[i] == moves[i]);
        }
        lemma_empty_count_after_drops(rest);
        let (w, n) = drop_all(GridView::initial(), rest);
        assert(valid_move(moves[moves.len() - 1]));
        lemma_place_keeps_wf(w, moves.last().0, moves.last().1);
    }
}

/// The fresh board is valid.
pub proof fn lemma_initial_wf()
    ensures
        GridView::initial().wf(),
{
    let v = GridView::initial();
    lemma_count_empty_all(v.cells);
}

/// Once a game is won or drawn, every later request is refused and the board
/// never changes again.
pub proof fn lemma_finished_game_frozen(v: GridView, requests: Seq<(Seq<char>, int)>)
    requires
        outcome(v) != GameState::Pending,
    ensures
        play_all(v, requests) == v,
    decreases requests.len(),
{
    if requests.len() > 0 {
        lemma_finished_game_frozen(v, requests.drop_last());
    }
}

} // verus!
