use game_of_life::Cell;
use game_of_life::GameOfLife;

/// A `rows` by `cols` grid with the given cells alive, `live` listing
/// `(x, y)` positions.
fn grid_with_live(rows: usize, cols: usize, live: &[(usize, usize)]) -> GameOfLife {
    let mut states = vec![vec![false; cols]; rows];
    for &(x, y) in live {
        states[y][x] = true;
    }
    GameOfLife::from_states(&states)
}

/// The set of live `(x, y)` positions, in row-major order.
fn live_set(game: &GameOfLife) -> Vec<(usize, usize)> {
    let mut out = Vec::new();
    for row in 0..game.height {
        for col in 0..game.width {
            if game.cell_at(col, row).is_alive() {
                out.push((col, row));
            }
        }
    }
    out
}

#[test]
fn from_states_sets_dimensions_and_liveness() {
    let game = grid_with_live(3, 4, &[(0, 0), (3, 2)]);
    assert_eq!(game.height, 3);
    assert_eq!(game.width, 4);
    assert!(game.cell_at(0, 0).is_alive());
    assert!(game.cell_at(3, 2).is_alive());
    assert!(!game.cell_at(1, 1).is_alive());
}

#[test]
fn new_sets_dimensions_and_positions() {
    let game = GameOfLife::new(5, 7);
    assert_eq!(game.height, 5);
    assert_eq!(game.width, 7);
    for row in 0..game.height {
        for col in 0..game.width {
            let cell = game.cell_at(col, row);
            assert_eq!(cell.x, col);
            assert_eq!(cell.y, row);
        }
    }
}

#[test]
fn positions_unchanged_after_update() {
    let mut game = grid_with_live(4, 4, &[(1, 1), (2, 1), (1, 2)]);
    game.update();
    assert_eq!(game.height, 4);
    assert_eq!(game.width, 4);
    for row in 0..game.height {
        for col in 0..game.width {
            let cell = game.cell_at(col, row);
            assert_eq!(cell.x, col);
            assert_eq!(cell.y, row);
        }
    }
}

#[test]
fn lone_live_cell_dies() {
    let mut game = grid_with_live(3, 3, &[(1, 1)]);
    game.update();
    assert_eq!(live_set(&game), Vec::<(usize, usize)>::new());
}

#[test]
fn live_pair_dies_of_underpopulation() {
    let mut game = grid_with_live(4, 4, &[(1, 1), (2, 1)]);
    game.update();
    assert_eq!(live_set(&game), Vec::<(usize, usize)>::new());
}

#[test]
fn block_survives() {
    let block = [(1, 1), (2, 1), (1, 2), (2, 2)];
    let mut game = grid_with_live(4, 4, &block);
    game.update();
    assert_eq!(live_set(&game), block.to_vec());
}

#[test]
fn overcrowded_center_dies() {
    // A plus shape: the center is alive with four live neighbors.
    let mut game = grid_with_live(5, 5, &[(2, 1), (1, 2), (2, 2), (3, 2), (2, 3)]);
    game.update();
    assert!(!game.cell_at(2, 2).is_alive());
}

#[test]
fn full_grid_center_dies_corners_survive() {
    let all = [
        (0, 0),
        (1, 0),
        (2, 0),
        (0, 1),
        (1, 1),
        (2, 1),
        (0, 2),
        (1, 2),
        (2, 2),
    ];
    let mut game = grid_with_live(3, 3, &all);
    game.update();
    // Eight live neighbors kill the center; each corner keeps exactly
    // three and survives.
    assert!(!game.cell_at(1, 1).is_alive());
    assert!(game.cell_at(0, 0).is_alive());
    assert!(game.cell_at(2, 0).is_alive());
    assert!(game.cell_at(0, 2).is_alive());
    assert!(game.cell_at(2, 2).is_alive());
}

#[test]
fn birth_with_exactly_three_neighbors() {
    let mut game = grid_with_live(4, 4, &[(0, 0), (1, 0), (0, 1)]);
    game.update();
    assert!(game.cell_at(1, 1).is_alive());
}

#[test]
fn no_birth_with_two_neighbors() {
    let mut game = grid_with_live(5, 5, &[(0, 0), (1, 0)]);
    game.update();
    assert_eq!(live_set(&game), Vec::<(usize, usize)>::new());
}

#[test]
fn all_dead_grid_stays_dead() {
    let mut game = grid_with_live(4, 6, &[]);
    for _ in 0..3 {
        game.update();
        assert_eq!(live_set(&game), Vec::<(usize, usize)>::new());
    }
}

#[test]
fn corner_does_not_wrap_around() {
    // On a torus the four corners would be mutual neighbors and (0, 0)
    // would survive with three; with the clamped boundary it has none
    // and dies.
    let mut game = grid_with_live(4, 4, &[(0, 0), (3, 0), (0, 3), (3, 3)]);
    game.update();
    assert!(!game.cell_at(0, 0).is_alive());
}

#[test]
fn blinker_oscillates_with_period_two() {
    let vertical = [(1, 0), (1, 1), (1, 2)];
    let horizontal = [(0, 1), (1, 1), (2, 1)];
    let mut game = grid_with_live(5, 5, &vertical);
    game.update();
    assert_eq!(live_set(&game), horizontal.to_vec());
    game.update();
    assert_eq!(live_set(&game), vertical.to_vec());
}

#[test]
fn update_is_deterministic() {
    let live = [(1, 0), (2, 1), (0, 2), (1, 2), (2, 2)];
    let mut first = grid_with_live(6, 6, &live);
    let mut second = grid_with_live(6, 6, &live);
    for _ in 0..4 {
        first.update();
        second.update();
        assert_eq!(live_set(&first), live_set(&second));
    }
}

#[test]
fn update_state_applies_the_rule() {
    let dead = Cell::new(0, 0, false);
    let alive = Cell::new(0, 0, true);

    // A live center with two live neighbors survives.
    let mut center = Cell::new(5, 7, true);
    let neighbors = [
        [alive, dead, dead],
        [dead, center, alive],
        [dead, dead, dead],
    ];
    center.update_state(neighbors);
    assert!(center.is_alive());
    assert_eq!(center.x, 5);
    assert_eq!(center.y, 7);

    // A live center with four live neighbors dies.
    let mut crowded = Cell::new(1, 1, true);
    let neighbors = [
        [alive, alive, dead],
        [alive, crowded, alive],
        [dead, dead, dead],
    ];
    crowded.update_state(neighbors);
    assert!(!crowded.is_alive());

    // A dead center with three live neighbors is born.
    let mut born = Cell::new(2, 2, false);
    let neighbors = [
        [alive, alive, dead],
        [alive, born, dead],
        [dead, dead, dead],
    ];
    born.update_state(neighbors);
    assert!(born.is_alive());

    // A dead center with two live neighbors stays dead.
    let mut still_dead = Cell::new(2, 2, false);
    let neighbors = [
        [alive, alive, dead],
        [dead, still_dead, dead],
        [dead, dead, dead],
    ];
    still_dead.update_state(neighbors);
    assert!(!still_dead.is_alive());
}

#[test]
fn default_cell_is_dead_at_origin() {
    let cell = Cell::default();
    assert_eq!(cell.x, 0);
    assert_eq!(cell.y, 0);
    assert!(!cell.is_alive());
}

#[test]
fn cell_rect_scales_positions_to_the_surface() {
    let game = grid_with_live(4, 4, &[]);
    assert_eq!(game.cell_rect(0, 0, 1000), (0, 0, 250, 250));
    assert_eq!(game.cell_rect(1, 2, 1000), (250, 500, 250, 250));
    assert_eq!(game.cell_rect(3, 3, 1000), (750, 750, 250, 250));
}
