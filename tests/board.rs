use cookie_grid::game::{try_place, PlaceOutcome};
use cookie_grid::grid::{GameState, Grid};
use cookie_grid::tile::{Player, TileType};

const EMPTY_BOARD: &str = "⬜⬛⬛⬛⬛⬜\n⬜⬛⬛⬛⬛⬜\n⬜⬛⬛⬛⬛⬜\n⬜⬛⬛⬛⬛⬜\n⬜⬜⬜⬜⬜⬜\n";

fn accepted(o: PlaceOutcome) -> String {
    match o {
        PlaceOutcome::Accepted(t) => t,
        other => panic!("expected an accepted move, got {:?}", other),
    }
}

#[test]
fn new_board_is_empty_and_pending() {
    let g = Grid::default();
    assert_eq!(g.empty_cells(), 16);
    assert_eq!(g.last_placed(), None);
    assert_eq!(g.check_winner(), GameState::Pending);
    for row in 0..4 {
        for column in 0..4 {
            assert_eq!(g.tile_at(row, column), TileType::Empty);
        }
    }
    assert_eq!(g.render(), EMPTY_BOARD);
}

#[test]
fn column_fills_bottom_to_top_then_refuses() {
    let mut g = Grid::default();
    for n in 0..4 {
        assert_eq!(g.place(TileType::Cookie, 0), Ok(()));
        assert_eq!(g.tile_at(3 - n, 0), TileType::Cookie);
        assert_eq!(g.last_placed(), Some((3 - n) * 4));
        assert_eq!(g.empty_cells(), 15 - n);
    }
    let before = g.render();
    assert_eq!(g.place(TileType::Cookie, 0), Err(()));
    assert_eq!(g.render(), before);
    assert_eq!(g.empty_cells(), 12);
    assert_eq!(g.last_placed(), Some(0));
    assert_eq!(g.check_winner(), GameState::Win(Player::Cookie));
}

#[test]
fn place_leaves_other_columns_alone() {
    let mut g = Grid::default();
    g.place(TileType::Milk, 2).unwrap();
    g.place(TileType::Cookie, 2).unwrap();
    g.place(TileType::Milk, 1).unwrap();
    assert_eq!(g.tile_at(3, 2), TileType::Milk);
    assert_eq!(g.tile_at(2, 2), TileType::Cookie);
    assert_eq!(g.tile_at(3, 1), TileType::Milk);
    assert_eq!(g.tile_at(2, 1), TileType::Empty);
    assert_eq!(g.tile_at(3, 0), TileType::Empty);
    assert_eq!(g.tile_at(3, 3), TileType::Empty);
    assert_eq!(g.last_placed(), Some(13));
    assert_eq!(g.empty_cells(), 13);
}

#[test]
fn bottom_row_of_one_color_wins() {
    let mut g = Grid::default();
    for column in 1..=4 {
        assert_eq!(g.check_winner(), GameState::Pending);
        accepted(try_place(&mut g, "cookie", column));
    }
    assert_eq!(g.check_winner(), GameState::Win(Player::Cookie));
    assert_eq!(
        g.render(),
        "⬜⬛⬛⬛⬛⬜\n⬜⬛⬛⬛⬛⬜\n⬜⬛⬛⬛⬛⬜\n⬜🍪🍪🍪🍪⬜\n⬜⬜⬜⬜⬜⬜\n🍪 wins!\n"
    );
}

#[test]
fn column_of_one_color_wins() {
    let mut g = Grid::default();
    for _ in 0..4 {
        accepted(try_place(&mut g, "milk", 3));
    }
    assert_eq!(g.check_winner(), GameState::Win(Player::Milk));
    assert!(g.render().ends_with("🥛 wins!\n"));
}

#[test]
fn diagonal_of_one_color_wins() {
    let mut g = Grid::default();
    // Builds the diagonal 3, 6, 9, 12 of milk under cookie fillers.
    let moves: [(&str, usize); 10] = [
        ("milk", 1),
        ("cookie", 2),
        ("milk", 2),
        ("cookie", 3),
        ("cookie", 3),
        ("milk", 3),
        ("cookie", 4),
        ("cookie", 4),
        ("cookie", 4),
        ("milk", 4),
    ];
    for (team, column) in moves {
        accepted(try_place(&mut g, team, column));
    }
    assert_eq!(g.tile_at(0, 3), TileType::Milk);
    assert_eq!(g.check_winner(), GameState::Win(Player::Milk));
}

#[test]
fn main_diagonal_wins() {
    let mut g = Grid::default();
    let moves: [(TileType, usize); 10] = [
        (TileType::Milk, 0),
        (TileType::Milk, 0),
        (TileType::Milk, 0),
        (TileType::Cookie, 0),
        (TileType::Milk, 1),
        (TileType::Milk, 1),
        (TileType::Cookie, 1),
        (TileType::Milk, 2),
        (TileType::Cookie, 2),
        (TileType::Cookie, 3),
    ];
    for (tile, column) in moves {
        g.place(tile, column).unwrap();
    }
    assert_eq!(g.check_winner(), GameState::Win(Player::Cookie));
}

fn fill_without_a_line(g: &mut Grid) -> String {
    // Rows, top to bottom: C C M M / M M C C / C C M M / M M C C.
    let order: [usize; 4] = [1, 3, 2, 4];
    let bottom_up = [["milk", "cookie"], ["cookie", "milk"], ["milk", "cookie"], ["cookie", "milk"]];
    let mut last = String::new();
    for teams in bottom_up {
        for (k, column) in order.iter().enumerate() {
            last = accepted(try_place(g, teams[k % 2], *column));
        }
    }
    last
}

#[test]
fn full_board_without_a_line_is_a_draw() {
    let mut g = Grid::default();
    let last = fill_without_a_line(&mut g);
    assert_eq!(g.empty_cells(), 0);
    assert_eq!(g.check_winner(), GameState::NoWin);
    assert_eq!(
        last,
        "⬜🍪🍪🥛🥛⬜\n⬜🥛🥛🍪🍪⬜\n⬜🍪🍪🥛🥛⬜\n⬜🥛🥛🍪🍪⬜\n⬜⬜⬜⬜⬜⬜\nNo winner.\n"
    );
}

#[test]
fn finished_game_refuses_every_move() {
    let mut g = Grid::default();
    for column in 1..=4 {
        accepted(try_place(&mut g, "milk", column));
    }
    let before = g.render();
    for column in 1..=4 {
        match try_place(&mut g, "cookie", column) {
            PlaceOutcome::GameOver(t) => assert_eq!(t, before),
            other => panic!("expected game over, got {:?}", other),
        }
    }
    assert_eq!(g.render(), before);
    assert_eq!(g.empty_cells(), 12);
    assert_eq!(g.last_placed(), Some(15));

    let mut d = Grid::default();
    fill_without_a_line(&mut d);
    assert!(matches!(try_place(&mut d, "milk", 1), PlaceOutcome::GameOver(_)));
}

#[test]
fn full_column_through_request_is_refused() {
    let mut g = Grid::default();
    for team in ["milk", "cookie", "milk", "cookie"] {
        accepted(try_place(&mut g, team, 2));
    }
    let before = g.render();
    match try_place(&mut g, "milk", 2) {
        PlaceOutcome::ColumnFull(t) => assert_eq!(t, before),
        other => panic!("expected a full column, got {:?}", other),
    }
    assert_eq!(g.empty_cells(), 12);
}

#[test]
fn out_of_range_columns_are_invalid() {
    let mut g = Grid::default();
    accepted(try_place(&mut g, "cookie", 2));
    let before = g.render();
    assert!(matches!(try_place(&mut g, "cookie", 0), PlaceOutcome::InvalidInput));
    assert!(matches!(try_place(&mut g, "milk", 5), PlaceOutcome::InvalidInput));
    assert_eq!(g.render(), before);
    assert_eq!(g.empty_cells(), 15);
    assert_eq!(g.last_placed(), Some(13));
}

#[test]
fn unknown_teams_are_invalid() {
    let mut g = Grid::default();
    for team in ["Cookie", "MILK", "", "cookies", "wall"] {
        assert!(matches!(try_place(&mut g, team, 1), PlaceOutcome::InvalidInput));
    }
    assert_eq!(g.render(), EMPTY_BOARD);
}

#[test]
fn team_tokens_parse_exactly() {
    assert_eq!(Player::parse("cookie"), Some(Player::Cookie));
    assert_eq!(Player::parse("milk"), Some(Player::Milk));
    assert_eq!(Player::parse("cooki"), None);
    assert_eq!(Player::parse("milk "), None);
    assert_eq!(Player::Cookie.tile(), TileType::Cookie);
    assert_eq!(Player::Milk.tile(), TileType::Milk);
    assert_eq!(TileType::Milk.owner(), Some(Player::Milk));
    assert_eq!(TileType::Wall.owner(), None);
    assert_eq!(TileType::Empty.owner(), None);
}

#[test]
fn glyphs_are_fixed() {
    assert_eq!(TileType::Empty.glyph_text(), "⬛");
    assert_eq!(TileType::Cookie.glyph_text(), "🍪");
    assert_eq!(TileType::Milk.glyph_text(), "🥛");
    assert_eq!(TileType::Wall.glyph_text(), "⬜");
}

#[test]
fn reset_restores_a_fresh_board() {
    let mut g = Grid::default();
    fill_without_a_line(&mut g);
    g.reset();
    assert_eq!(g.empty_cells(), 16);
    assert_eq!(g.last_placed(), None);
    assert_eq!(g.check_winner(), GameState::Pending);
    assert_eq!(g.render(), EMPTY_BOARD);

    let mut w = Grid::default();
    for column in 1..=4 {
        accepted(try_place(&mut w, "cookie", column));
    }
    w.reset();
    assert_eq!(w.render(), Grid::default().render());
    accepted(try_place(&mut w, "milk", 1));
}

#[test]
fn rendering_twice_gives_the_same_text() {
    let mut g = Grid::default();
    accepted(try_place(&mut g, "milk", 4));
    accepted(try_place(&mut g, "cookie", 4));
    let first = g.render();
    let second = g.render();
    assert_eq!(first, second);
    assert_eq!(
        first,
        "⬜⬛⬛⬛⬛⬜\n⬜⬛⬛⬛⬛⬜\n⬜⬛⬛⬛🍪⬜\n⬜⬛⬛⬛🥛⬜\n⬜⬜⬜⬜⬜⬜\n"
    );
}

#[test]
fn empty_count_tracks_successful_drops() {
    let mut g = Grid::default();
    let mut successes: usize = 0;
    for k in 0..24usize {
        let column = k % 3;
        let tile = if k % 2 == 0 { TileType::Cookie } else { TileType::Milk };
        if g.place(tile, column).is_ok() {
            successes += 1;
        }
        assert_eq!(g.empty_cells(), 16 - successes);
    }
    assert_eq!(successes, 12);
}
