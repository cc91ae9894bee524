use lifegame::cell::Cell;
use lifegame::genesis::{BarrenGod, Genesis, WorldCreator};
use lifegame::ndarray::NDArray;

#[test]
fn test_genesis_builds_grid_from_states() {
    let genesis = Genesis::new((2, 3));
    let grid = genesis.from_states(&[true, false, false, true, true, false]);
    assert_eq!(grid.shape(), (2, 3));
    assert_eq!(*grid.get(0, 0), Cell::Alive);
    assert_eq!(*grid.get(0, 1), Cell::Dead);
    assert_eq!(*grid.get(1, 0), Cell::Alive);
    assert_eq!(*grid.get(1, 1), Cell::Alive);
    assert_eq!(*grid.get(1, 2), Cell::Dead);
}

#[test]
fn test_genesis_empty_world() {
    let genesis = Genesis::new((0, 5));
    let grid = genesis.from_states(&[]);
    assert_eq!(grid.shape(), (0, 5));
    assert_eq!(grid.size(), 0);
}

#[test]
fn test_ndarray_shape_and_strides() {
    let array: NDArray<i32> = NDArray::new(&[2, 3, 4]);
    assert_eq!(array.shape(), &[2, 3, 4]);
    assert_eq!(array.ndim(), 3);
    assert_eq!(*array.get(&[0, 0, 0]), 0);
    assert_eq!(*array.get(&[1, 2, 3]), 0);
}

#[test]
fn test_ndarray_zero_dimensional_holds_nothing() {
    let array: NDArray<i32> = NDArray::new(&[]);
    assert_eq!(array.ndim(), 0);
    assert!(array.shape().is_empty());
}

#[test]
fn test_barren_god_creates_a_dead_world() {
    let world = BarrenGod.create(2, 3);
    assert_eq!(world.shape(), (2, 3));
    for row in world.iterrows() {
        for state in row {
            assert!(!state);
        }
    }
}

#[test]
fn test_ndarray_with_zero_dimension() {
    let array: NDArray<i32> = NDArray::new(&[3, 0, 2]);
    assert_eq!(array.shape(), &[3, 0, 2]);
    assert_eq!(array.ndim(), 3);
}
