use lifegame::biosquare::BioSquare;
use lifegame::cell::Cell;
use lifegame::matrix::Matrix;

fn grid_of(states: &[bool], shape: (usize, usize)) -> Matrix<Cell> {
    let cells: Vec<Cell> = states.iter().map(|&b| Cell::from(b)).collect();
    Matrix::from_slice(&cells, shape)
}

fn cells_of(square: &BioSquare) -> Vec<Vec<Cell>> {
    square.observe().iterrows()
}

#[test]
fn test_population_after_construction_is_alive_count() {
    let genesis = grid_of(
        &[
            true, false, true, //
            false, false, true, //
            true, true, false,
        ],
        (3, 3),
    );
    let square = BioSquare::new(genesis);
    assert_eq!(square.population(), 5);
    assert_eq!(square.generation(), 0);
}

#[test]
fn test_population_of_empty_grid() {
    let square = BioSquare::new(grid_of(&[], (0, 0)));
    assert_eq!(square.population(), 0);
    square.observe();
    assert_eq!(square.size(), 0);
}

#[test]
fn test_population_tracks_recount_across_ticks() {
    let genesis = grid_of(
        &[
            false, true, false, true, false, //
            true, true, false, false, true, //
            false, false, true, true, false, //
            true, false, true, false, true, //
            false, true, false, true, true,
        ],
        (5, 5),
    );
    let mut square = BioSquare::new(genesis);
    for _ in 0..8 {
        square.evolve();
        assert_eq!(square.population(), BioSquare::recount(square.observe()));
    }
    assert_eq!(square.generation(), 8);
}

#[test]
fn test_lone_center_cell_dies_after_one_tick() {
    let genesis = grid_of(
        &[
            false, false, false, //
            false, true, false, //
            false, false, false,
        ],
        (3, 3),
    );
    let mut square = BioSquare::new(genesis);
    square.evolve();
    for row in cells_of(&square) {
        for cell in row {
            assert_eq!(cell, Cell::Dead);
        }
    }
    assert_eq!(square.population(), 0);
    assert_eq!(square.generation(), 1);
}

#[test]
fn test_blinker_returns_after_two_ticks() {
    let mut states = [false; 25];
    // Three cells in a row at the center of a five-by-five torus.
    states[11] = true;
    states[12] = true;
    states[13] = true;
    let genesis = grid_of(&states, (5, 5));
    let mut square = BioSquare::new(genesis.clone());
    let before = cells_of(&square);

    square.evolve();
    let middle = cells_of(&square);
    assert_ne!(before, middle);
    // The blinker stands upright after one tick.
    assert_eq!(middle[1][2], Cell::Alive);
    assert_eq!(middle[2][2], Cell::Alive);
    assert_eq!(middle[3][2], Cell::Alive);
    assert_eq!(square.population(), 3);

    square.evolve();
    assert_eq!(cells_of(&square), before);
    assert_eq!(square.population(), 3);
    assert_eq!(square.generation(), 2);
}

#[test]
fn test_unit_grid_cell_is_its_own_eight_neighbors() {
    // On a one-by-one torus an alive cell counts itself eight times, so it
    // dies of overcrowding in one tick.
    let mut square = BioSquare::new(grid_of(&[true], (1, 1)));
    square.evolve();
    assert_eq!(*square.observe().get(0, 0), Cell::Dead);
    assert_eq!(square.population(), 0);

    // A dead unit grid has zero neighbors everywhere and stays dead.
    let mut dead = BioSquare::new(grid_of(&[false], (1, 1)));
    dead.evolve();
    assert_eq!(*dead.observe().get(0, 0), Cell::Dead);
}

#[test]
fn test_corner_counts_opposite_corner_as_neighbor() {
    // Only the far corner (2, 3) is alive. The diagonal neighbor offset
    // (-1, -1) from (0, 0) must wrap to exactly that cell.
    let genesis = grid_of(
        &[
            false, false, false, false, //
            false, false, false, false, //
            false, false, false, true,
        ],
        (3, 4),
    );
    assert_eq!(*genesis.wrapping_index(-1, -1), Cell::Alive);
    assert_eq!(*genesis.wrapping_index(-1, -1), *genesis.get(2, 3));

    // And the corner cell therefore survives when its wrapped block of
    // diagonal mates keeps it company: (0, 0), (0, 3) and (2, 0) are the
    // three wrapped neighbors that hold the far corner at three.
    let corners = grid_of(
        &[
            true, false, false, true, //
            false, false, false, false, //
            true, false, false, true,
        ],
        (3, 4),
    );
    let mut square = BioSquare::new(corners);
    square.evolve();
    assert_eq!(*square.observe().get(2, 3), Cell::Alive);
}

#[test]
fn test_still_block_is_stable() {
    let genesis = grid_of(
        &[
            false, false, false, false, //
            false, true, true, false, //
            false, true, true, false, //
            false, false, false, false,
        ],
        (4, 4),
    );
    let mut square = BioSquare::new(genesis);
    let before = cells_of(&square);
    square.evolve();
    assert_eq!(cells_of(&square), before);
    assert_eq!(square.population(), 4);
}

#[test]
fn test_random_flip_applies_given_flips_exactly() {
    let genesis = grid_of(&[true, false, false, true], (2, 2));
    let mut square = BioSquare::new(genesis);
    square.random_flip(&[true, true, false, false]);
    let rows = cells_of(&square);
    assert_eq!(rows[0][0], Cell::Dead);
    assert_eq!(rows[0][1], Cell::Alive);
    assert_eq!(rows[1][0], Cell::Dead);
    assert_eq!(rows[1][1], Cell::Alive);
    assert_eq!(square.population(), 2);
    assert_eq!(square.generation(), 0);
}

#[test]
fn test_recount_matches_hand_count() {
    let grid = grid_of(&[true, true, false, true, false, false], (2, 3));
    assert_eq!(BioSquare::recount(&grid), 3);
}
