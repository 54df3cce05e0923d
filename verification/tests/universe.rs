use game_of_life::Cell;
use game_of_life::Universe;
use game_of_life::UniverseError;

fn dead_grid(len: usize) -> Vec<Cell> {
    vec![Cell::Dead; len]
}

fn flat(width: i32, row: i32, column: i32) -> usize {
    (row * width + column) as usize
}

#[test]
fn new_buffer_length_matches_dimensions() {
    for (w, h) in [(5i32, 4i32), (1, 1), (3, 7), (128, 128)] {
        let u = Universe::new(w, h).unwrap();
        assert_eq!(u.cells().len(), (w * h) as usize);
        assert_eq!(u.width(), w);
        assert_eq!(u.height(), h);
    }
}

#[test]
fn new_rejects_non_positive_dimensions() {
    assert_eq!(Universe::new(0, 5).unwrap_err(), UniverseError::InvalidDimension);
    assert_eq!(Universe::new(5, 0).unwrap_err(), UniverseError::InvalidDimension);
    assert_eq!(Universe::new(-3, 4).unwrap_err(), UniverseError::InvalidDimension);
    assert_eq!(Universe::new(0, 0).unwrap_err(), UniverseError::InvalidDimension);
}

#[test]
fn seed_pattern_is_deterministic() {
    let u = Universe::new(5, 4).unwrap();
    for i in 0..20usize {
        let expected = if i % 2 == 0 || i % 7 == 0 { Cell::Alive } else { Cell::Dead };
        assert_eq!(u.cells()[i], expected, "seed mismatch at flat index {}", i);
    }
}

#[test]
fn default_universe_is_seeded_128_by_128() {
    let u = Universe::default();
    assert_eq!(u.width(), 128);
    assert_eq!(u.height(), 128);
    assert_eq!(u.cells().len(), 128 * 128);
    assert_eq!(u.cells()[0], Cell::Alive);
    assert_eq!(u.cells()[1], Cell::Dead);
    assert_eq!(u.cells()[7], Cell::Alive);
    assert_eq!(u.cells()[13], Cell::Dead);
}

#[test]
fn corners_are_mutual_neighbors_through_wraparound() {
    let mut cells = dead_grid(9);
    cells[flat(3, 0, 0)] = Cell::Alive;
    cells[flat(3, 0, 2)] = Cell::Alive;
    cells[flat(3, 2, 0)] = Cell::Alive;
    cells[flat(3, 2, 2)] = Cell::Alive;
    let u = Universe::from_cells(3, 3, cells);
    assert_eq!(u.live_neighbor_count(0, 0), 3);
    assert_eq!(u.live_neighbor_count(0, 2), 3);
    assert_eq!(u.live_neighbor_count(2, 0), 3);
    assert_eq!(u.live_neighbor_count(2, 2), 3);
}

#[test]
fn isolated_live_cell_dies_of_underpopulation() {
    let mut cells = dead_grid(25);
    cells[flat(5, 2, 2)] = Cell::Alive;
    let mut u = Universe::from_cells(5, 5, cells);
    assert_eq!(u.live_neighbor_count(2, 2), 0);
    u.tick();
    for i in 0..25usize {
        assert_eq!(u.cells()[i], Cell::Dead);
    }
}

#[test]
fn dead_cell_with_three_live_neighbors_is_born() {
    let mut cells = dead_grid(25);
    cells[flat(5, 1, 1)] = Cell::Alive;
    cells[flat(5, 1, 2)] = Cell::Alive;
    cells[flat(5, 1, 3)] = Cell::Alive;
    let mut u = Universe::from_cells(5, 5, cells);
    assert_eq!(u.live_neighbor_count(2, 2), 3);
    u.tick();
    assert_eq!(u.cells()[flat(5, 2, 2)], Cell::Alive);
    assert_eq!(u.cells()[flat(5, 0, 2)], Cell::Alive);
    assert_eq!(u.cells()[flat(5, 1, 2)], Cell::Alive);
    assert_eq!(u.cells()[flat(5, 1, 1)], Cell::Dead);
    assert_eq!(u.cells()[flat(5, 1, 3)], Cell::Dead);
}

#[test]
fn block_is_a_still_life_over_repeated_ticks() {
    let mut cells = dead_grid(36);
    cells[flat(6, 2, 2)] = Cell::Alive;
    cells[flat(6, 2, 3)] = Cell::Alive;
    cells[flat(6, 3, 2)] = Cell::Alive;
    cells[flat(6, 3, 3)] = Cell::Alive;
    let original = cells.clone();
    let mut u = Universe::from_cells(6, 6, cells);
    u.tick();
    let after_one = u.cells().clone();
    assert_eq!(after_one, original);
    u.tick();
    assert_eq!(*u.cells(), after_one);
}

#[test]
fn snapshot_taken_before_tick_is_isolated_from_it() {
    let mut cells = dead_grid(25);
    cells[flat(5, 2, 2)] = Cell::Alive;
    let mut u = Universe::from_cells(5, 5, cells);
    let snapshot = u.cells().clone();
    u.tick();
    assert_eq!(snapshot[flat(5, 2, 2)], Cell::Alive);
    assert_eq!(u.cells()[flat(5, 2, 2)], Cell::Dead);
    assert_ne!(snapshot, *u.cells());
}

#[test]
fn tick_preserves_dimensions_and_length() {
    let mut u = Universe::new(7, 3).unwrap();
    u.tick();
    assert_eq!(u.width(), 7);
    assert_eq!(u.height(), 3);
    assert_eq!(u.cells().len(), 21);
}

#[test]
fn single_row_torus_counts_wrapped_neighbors() {
    let mut cells = dead_grid(4);
    cells[0] = Cell::Alive;
    let u = Universe::from_cells(4, 1, cells);
    assert_eq!(u.live_neighbor_count(0, 1), 3);
    assert_eq!(u.live_neighbor_count(0, 2), 0);
    assert_eq!(u.live_neighbor_count(0, 0), 2);
}
