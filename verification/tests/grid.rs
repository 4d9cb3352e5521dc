use game_of_life::grid::Grid;

#[test]
fn new_grid_is_dead() {
    let grid = Grid::new(3, 4);
    assert_eq!(grid.rows(), 3);
    assert_eq!(grid.cols(), 4);
    for row in 0..3 {
        for col in 0..4 {
            assert!(!grid.get(row, col));
        }
    }
}

#[test]
fn set_changes_one_cell() {
    let mut grid = Grid::new(3, 4);
    grid.set(1, 2, true);
    for row in 0..3 {
        for col in 0..4 {
            assert_eq!(grid.get(row, col), (row, col) == (1, 2));
        }
    }
    grid.set(2, 1, true);
    assert!(grid.get(1, 2));
    assert!(grid.get(2, 1));
    assert!(!grid.get(1, 1));
    grid.set(1, 2, false);
    assert!(!grid.get(1, 2));
    assert!(grid.get(2, 1));
}

#[test]
fn set_keeps_dimensions() {
    let mut grid = Grid::new(2, 5);
    grid.set(1, 4, true);
    assert_eq!(grid.rows(), 2);
    assert_eq!(grid.cols(), 5);
}

#[test]
fn last_column_and_next_row_are_distinct() {
    let mut grid = Grid::new(3, 3);
    grid.set(0, 2, true);
    assert!(!grid.get(1, 0));
    grid.set(1, 0, true);
    grid.set(0, 2, false);
    assert!(grid.get(1, 0));
}

#[test]
fn contains_tells_cells_from_other_positions() {
    let grid = Grid::new(3, 4);
    assert!(grid.contains(0, 0));
    assert!(grid.contains(2, 3));
    assert!(!grid.contains(3, 0));
    assert!(!grid.contains(0, 4));
    assert!(!grid.contains(-1, 0));
    assert!(!grid.contains(0, -1));
    assert!(!grid.contains(i64::MIN, i64::MIN));
    assert!(!grid.contains(i64::MAX, i64::MAX));
    assert!(!Grid::new(0, 0).contains(0, 0));
}

#[test]
fn clone_is_equal_and_independent() {
    let mut grid = Grid::new(2, 2);
    grid.set(0, 1, true);
    let copy = grid.clone();
    assert_eq!(copy, grid);
    grid.set(1, 1, true);
    assert_ne!(copy, grid);
    assert!(!copy.get(1, 1));
}

#[test]
fn grids_of_other_dimensions_differ() {
    assert_ne!(Grid::new(2, 3), Grid::new(3, 2));
    assert_ne!(Grid::new(0, 3), Grid::new(0, 0));
}
