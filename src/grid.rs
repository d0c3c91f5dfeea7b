//! The four-by-four board, gravity-drop placement and the game's outcome.
use vstd::prelude::*;
use crate::tile::{glyph, Player, TileType};
use vstd::string::StringExecFns;

verus! {

/// Number of cells on the board.
pub const CELLS: usize = 16;

/// Number of cells in one row, and of rows.
pub const WIDTH: usize = 4;

/// How a game stands, as derived from the board.
#[derive(Debug, Clone, Copy, PartialEq, Eq, Structural)]
pub enum GameState {
    /// A full line of one player's tokens.
    Win(Player),
    /// The board is full and nobody has a line.
    NoWin,
    /// Play goes on.
    Pending,
}

/// The board: sixteen cells in row-major order (row 0 on top, row 3 at the
/// bottom), the cell most recently filled, and how many cells are still empty.
#[derive(Debug, Clone, Copy)]
pub struct Grid {
    grid: [TileType; CELLS],
    last_placed: Option<usize>,
    empty_slots_left: usize,
}

/// The mathematical picture of a board.
pub struct GridView {
    pub cells: Seq<TileType>,
    pub last_placed: Option<int>,
    pub empty_left: nat,
}

/// Number of `Empty` tiles in `s`.
pub open spec fn count_empty(s: Seq<TileType>) -> nat
    decreases s.len(),
{
    if s.len() == 0 {
        0
    } else {
        count_empty(s.drop_last()) + if s.last() == TileType::Empty { 1nat } else { 0nat }
    }
}

/// The player owning all four cells `a`, `b`, `c`, `d`, if one does.
pub open spec fn line_owner(cells: Seq<TileType>, a: int, b: int, c: int, d: int) -> Option<Player> {
    if cells[a] == cells[b] && cells[a] == cells[c] && cells[a] == cells[d] {
        cells[a].spec_owner()
    } else {
        None
    }
}

/// The owner of the whole of row `r`.
pub open spec fn row_owner(cells: Seq<TileType>, r: int) -> Option<Player> {
    line_owner(cells, 4 * r, 4 * r + 1, 4 * r + 2, 4 * r + 3)
}

/// The owner of the whole of column `c`.
pub open spec fn column_owner(cells: Seq<TileType>, c: int) -> Option<Player> {
    line_owner(cells, c, c + 4, c + 8, c + 12)
}

/// The owner of the line through the last move: its row first, then its column.
pub open spec fn last_move_owner(v: GridView) -> Option<Player> {
    match v.last_placed {
        Some(i) => {
            if row_owner(v.cells, i / 4) is Some {
                row_owner(v.cells, i / 4)
            } else {
                column_owner(v.cells, i % 4)
            }
        },
        None => None,
    }
}

/// The winner of a board: the line through the last move, then the diagonal
/// from the top left corner, then the one from the top right corner.
pub open spec fn winner(v: GridView) -> Option<Player> {
    if last_move_owner(v) is Some {
        last_move_owner(v)
    } else if line_owner(v.cells, 0, 5, 10, 15) is Some {
        line_owner(v.cells, 0, 5, 10, 15)
    } else {
        line_owner(v.cells, 3, 6, 9, 12)
    }
}

/// How the game on a board stands.
pub open spec fn outcome(v: GridView) -> GameState {
    match winner(v) {
        Some(p) => GameState::Win(p),
        None => if v.empty_left == 0 {
            GameState::NoWin
        } else {
            GameState::Pending
        },
    }
}

/// The cell at row `row`, column `col` of a board's cells.
pub open spec fn cell_at(cells: Seq<TileType>, row: int, col: int) -> TileType {
    cells[4 * row + col]
}

/// The row where a token dropped into column `col` comes to rest, looking
/// from row `row` upward: the first empty cell met, if any.
pub open spec fn landing_from(cells: Seq<TileType>, col: int, row: int) -> Option<int>
    decreases row + 1,
{
    if row < 0 {
        None
    } else if cell_at(cells, row, col) == TileType::Empty {
        Some(row)
    } else {
        landing_from(cells, col, row - 1)
    }
}

/// The row where a token dropped into column `col` comes to rest: the lowest
/// empty cell of that column, or none when the column is full.
pub open spec fn landing_row(cells: Seq<TileType>, col: int) -> Option<int> {
    landing_from(cells, col, 3)
}

/// The board after dropping `tile` into column `col`, or none when that
/// column is full.
pub open spec fn place_result(v: GridView, tile: TileType, col: int) -> Option<GridView> {
    match landing_row(v.cells, col) {
        Some(row) => Some(
            GridView {
                cells: v.cells.update(4 * row + col, tile),
                last_placed: Some(4 * row + col),
                empty_left: (v.empty_left - 1) as nat,
            },
        ),
        None => None,
    }
}

/// Filling an empty cell takes one from the count of empty cells.
pub proof fn lemma_count_empty_fill(s: Seq<TileType>, i: int, t: TileType)
    requires
        0 <= i < s.len(),
        s[i] == TileType::Empty,
        t != TileType::Empty,
    ensures
        count_empty(s.update(i, t)) + 1 == count_empty(s),
    decreases s.len(),
{
    let u = s.update(i, t);
    if i == s.len() - 1 {
        assert(u.drop_last() =~= s.drop_last());
    } else {
        assert(u.drop_last() =~= s.drop_last().update(i, t));
        lemma_count_empty_fill(s.drop_last(), i, t);
    }
}

/// A sequence of empty tiles counts each of them.
pub proof fn lemma_count_empty_all(s: Seq<TileType>)
    requires
        forall|i: int| 0 <= i < s.len() ==> s[i] == TileType::Empty,
    ensures
        count_empty(s) == s.len(),
    decreases s.len(),
{
    if s.len() > 0 {
        lemma_count_empty_all(s.drop_last());
    }
}

/// One row of the drawing: the row's four glyphs between two walls, then a
/// line break.
pub open spec fn row_text(cells: Seq<TileType>, r: int) -> Seq<char> {
    seq![
        glyph(TileType::Wall),
        glyph(cells[4 * r]),
        glyph(cells[4 * r + 1]),
        glyph(cells[4 * r + 2]),
        glyph(cells[4 * r + 3]),
        glyph(TileType::Wall),
        '\n',
    ]
}

/// The wall drawn under the board.
pub open spec fn floor_text() -> Seq<char> {
    seq![
        glyph(TileType::Wall),
        glyph(TileType::Wall),
        glyph(TileType::Wall),
        glyph(TileType::Wall),
        glyph(TileType::Wall),
        glyph(TileType::Wall),
        '\n',
    ]
}

/// The line under the drawing that tells how the game ended; nothing while it
/// goes on.
pub open spec fn status_text(g: GameState) -> Seq<char> {
    match g {
        GameState::Win(p) => seq![glyph(p.spec_tile())] + " wins!\n"@,
        GameState::NoWin => "No winner.\n"@,
        GameState::Pending => Seq::empty(),
    }
}

/// The drawing of a board: its rows top to bottom, the floor, and the status
/// line.
pub open spec fn rendered(v: GridView) -> Seq<char> {
    row_text(v.cells, 0) + row_text(v.cells, 1) + row_text(v.cells, 2) + row_text(v.cells, 3)
        + floor_text() + status_text(outcome(v))
}

impl GridView {
    /// The board as it is built and as a reset leaves it.
    pub open spec fn initial() -> GridView {
        GridView { cells: Seq::new(16, |i: int| TileType::Empty), last_placed: None, empty_left: 16 }
    }

    /// The invariant of every board.
    pub open spec fn wf(self) -> bool {
        &&& self.cells.len() == 16
        &&& self.empty_left == count_empty(self.cells)
        &&& match self.last_placed {
            Some(i) => 0 <= i < 16 && self.cells[i] != TileType::Empty,
            None => self.empty_left == 16,
        }
    }
}

impl View for Grid {
    type V = GridView;

    closed spec fn view(&self) -> GridView {
        GridView {
            cells: self.grid@,
            last_placed: match self.last_placed {
                Some(i) => Some(i as int),
                None => None,
            },
            empty_left: self.empty_slots_left as nat,
        }
    }
}

impl Default for Grid {
    /// An empty board, with no move made yet.
    fn default() -> (r: Grid)
        ensures
            r@ == GridView::initial(),
            r.wf(),
    {
        let e = TileType::Empty;
        let r = Grid {
            grid: [e, e, e, e, e, e, e, e, e, e, e, e, e, e, e, e],
            last_placed: None,
            empty_slots_left: CELLS,
        };
        proof {
            lemma_count_empty_all(r@.cells);
        }
        assert(r@.cells =~= GridView::initial().cells);
        r
    }
}

impl Grid {
    /// The invariant of this board.
    pub open spec fn wf(&self) -> bool {
        self@.wf()
    }

    /// Whether some player owns all four cells `a`, `b`, `c`, `d`.
    fn owner_of_line(&self, a: usize, b: usize, c: usize, d: usize) -> (r: Option<Player>)
        requires
            a < 16,
            b < 16,
            c < 16,
            d < 16,
        ensures
            r == line_owner(self@.cells, a as int, b as int, c as int, d as int),
    {
        let first = self.grid[a];
        if first == self.grid[b] && first == self.grid[c] && first == self.grid[d] {
            first.owner()
        } else {
            None
        }
    }

    /// Drops `tile` into `column`: it comes to rest in the lowest empty cell of
    /// that column, which becomes the last move. A full column is refused and
    /// the board left as it was.
    pub fn place(&mut self, tile: TileType, column: usize) -> (r: Result<(), ()>)
        requires
            old(self).wf(),
            tile.is_color(),
            column < 4,
        ensures
            final(self).wf(),
            match place_result(old(self)@, tile, column as int) {
                Some(next) => r is Ok && final(self)@ == next,
                None => r is Err && *final(self) == *old(self),
            },
    {
        let mut row: usize = WIDTH;
        while row > 0
            invariant
                row <= 4,
                column < 4,
                tile.is_color(),
                old(self).wf(),
                *self == *old(self),
                landing_row(self@.cells, column as int) == landing_from(
                    self@.cells,
                    column as int,
                    row - 1,
                ),
            decreases row,
        {
            row = row - 1;
            let index = row * WIDTH + column;
            if self.grid[index] == TileType::Empty {
                proof {
                    lemma_count_empty_fill(self@.cells, index as int, tile);
                }
                self.grid[index] = tile;
                self.last_placed = Some(index);
                self.empty_slots_left = self.empty_slots_left - 1;
                assert(self@.cells =~= old(self)@.cells.update(index as int, tile));
                return Ok(());
            }
        }
        Err(())
    }

    /// Puts the board back as it was built: all cells empty, no move made.
    pub fn reset(&mut self)
        ensures
            final(self)@ == GridView::initial(),
            final(self).wf(),
    {
        *self = Grid::default();
    }

    /// Appends the drawing of row `row` to `out`.
    fn append_row(&self, out: &mut String, row: usize)
        requires
            row < 4,
            self.wf(),
        ensures
            final(out)@ == old(out)@ + row_text(self@.cells, row as int),
    {
        let start = row * WIDTH;
        out.append(TileType::Wall.glyph_text());
        out.append(self.grid[start].glyph_text());
        out.append(self.grid[start + 1].glyph_text());
        out.append(self.grid[start + 2].glyph_text());
        out.append(self.grid[start + 3].glyph_text());
        out.append(TileType::Wall.glyph_text());
        out.append("\n");
        proof {
            reveal_strlit("\n");
        }
        assert(final(out)@ =~= old(out)@ + row_text(self@.cells, row as int));
    }

    /// The board drawn as text: a line of glyphs for each row between walls,
    /// a floor of walls, then "<glyph> wins!" or "No winner." once the game
    /// is over.
    pub fn render(&self) -> (s: String)
        requires
            self.wf(),
        ensures
            s@ == rendered(self@),
    {
        let mut out = String::new();
        self.append_row(&mut out, 0);
        self.append_row(&mut out, 1);
        self.append_row(&mut out, 2);
        self.append_row(&mut out, 3);
        let wall = TileType::Wall.glyph_text();
        out.append(wall);
        out.append(wall);
        out.append(wall);
        out.append(wall);
        out.append(wall);
        out.append(wall);
        out.append("\n");
        proof {
            reveal_strlit("\n");
            reveal_strlit(" wins!\n");
            reveal_strlit("No winner.\n");
        }
        match self.check_winner() {
            GameState::Win(p) => {
                out.append(p.tile().glyph_text());
                out.append(" wins!\n");
            },
            GameState::NoWin => {
                out.append("No winner.\n");
            },
            GameState::Pending => {},
        }
        assert(out@ =~= rendered(self@));
        out
    }

    /// The tile at row `row` (0 on top) and column `column`.
    pub fn tile_at(&self, row: usize, column: usize) -> (t: TileType)
        requires
            self.wf(),
            row < 4,
            column < 4,
        ensures
            t == cell_at(self@.cells, row as int, column as int),
    {
        self.grid[row * WIDTH + column]
    }

    /// The index (row * 4 + column) of the cell most recently filled, if any.
    pub fn last_placed(&self) -> (r: Option<usize>)
        ensures
            r matches Some(i) ==> self@.last_placed == Some(i as int),
            r is None <==> self@.last_placed is None,
    {
        self.last_placed
    }

    /// How many cells are still empty.
    pub fn empty_cells(&self) -> (n: usize)
        ensures
            n == self@.empty_left,
    {
        self.empty_slots_left
    }

    /// How the game stands: a win along the row, then the column, of the last
    /// move; then along either diagonal; else a draw on a full board; else
    /// play goes on.
    pub fn check_winner(&self) -> (r: GameState)
        requires
            self.wf(),
        ensures
            r == outcome(self@),
    {
        if let Some(last) = self.last_placed {
            let row = last / WIDTH * WIDTH;
            if let Some(p) = self.owner_of_line(row, row + 1, row + 2, row + 3) {
                return GameState::Win(p);
            }
            let column = last % WIDTH;
            if let Some(p) = self.owner_of_line(column, column + 4, column + 8, column + 12) {
                return GameState::Win(p);
            }
        }
        if let Some(p) = self.owner_of_line(0, 5, 10, 15) {
            return GameState::Win(p);
        }
        if let Some(p) = self.owner_of_line(3, 6, 9, 12) {
            return GameState::Win(p);
        }
        if self.empty_slots_left == 0 {
            GameState::NoWin
        } else {
            GameState::Pending
        }
    }
}

} // verus!
