use game_of_life::engine::{count_neighbors, next_state, step};
use game_of_life::grid::Grid;

fn grid_with(rows: usize, cols: usize, live: &[(usize, usize)]) -> Grid {
    let mut grid = Grid::new(rows, cols);
    for &(row, col) in live {
        assert!(row < rows && col < cols);
        grid.set(row, col, true);
    }
    grid
}

fn live_cells(grid: &Grid) -> Vec<(usize, usize)> {
    let mut cells = Vec::new();
    for row in 0..grid.rows() {
        for col in 0..grid.cols() {
            if grid.get(row, col) {
                cells.push((row, col));
            }
        }
    }
    cells
}

#[test]
fn isolated_center_cell_dies() {
    let grid = grid_with(3, 3, &[(1, 1)]);
    for row in 0..3 {
        for col in 0..3 {
            let expected = if (row, col) == (1, 1) { 0 } else { 1 };
            assert_eq!(count_neighbors(&grid, row, col), expected);
        }
    }
    let next = step(&grid);
    assert_eq!(next, Grid::new(3, 3));
    assert_eq!(live_cells(&next), vec![]);
}

#[test]
fn block_is_stable() {
    let block = [(1, 1), (1, 2), (2, 1), (2, 2)];
    let grid = grid_with(4, 4, &block);
    let next = step(&grid);
    assert_eq!(next, grid);
    assert_eq!(live_cells(&next), block.to_vec());
}

#[test]
fn vertical_blinker_turns_horizontal() {
    let grid = grid_with(3, 3, &[(0, 1), (1, 1), (2, 1)]);
    let next = step(&grid);
    assert_eq!(live_cells(&next), vec![(1, 0), (1, 1), (1, 2)]);
    let back = step(&next);
    assert_eq!(back, grid);
}

#[test]
fn corner_cell_does_not_wrap() {
    let rows = 5;
    let cols = 4;
    let grid = grid_with(rows, cols, &[(0, 0)]);
    for row in 0..rows {
        for col in 0..cols {
            let touching = row <= 1 && col <= 1 && (row, col) != (0, 0);
            let expected = if touching { 1 } else { 0 };
            assert_eq!(count_neighbors(&grid, row, col), expected);
        }
    }
    assert_eq!(count_neighbors(&grid, rows - 1, cols - 1), 0);
    assert_eq!(count_neighbors(&grid, 0, cols - 1), 0);
    assert_eq!(count_neighbors(&grid, rows - 1, 0), 0);
    assert_eq!(step(&grid), Grid::new(rows, cols));
}

#[test]
fn far_corner_cell_does_not_wrap() {
    let grid = grid_with(4, 6, &[(3, 5)]);
    assert_eq!(count_neighbors(&grid, 0, 0), 0);
    assert_eq!(count_neighbors(&grid, 3, 0), 0);
    assert_eq!(count_neighbors(&grid, 0, 5), 0);
    assert_eq!(count_neighbors(&grid, 2, 4), 1);
    assert_eq!(count_neighbors(&grid, 3, 4), 1);
    assert_eq!(count_neighbors(&grid, 2, 5), 1);
}

#[test]
fn full_grid_neighbor_counts() {
    let mut all = Vec::new();
    for row in 0..3 {
        for col in 0..3 {
            all.push((row, col));
        }
    }
    let grid = grid_with(3, 3, &all);
    assert_eq!(count_neighbors(&grid, 1, 1), 8);
    assert_eq!(count_neighbors(&grid, 0, 0), 3);
    assert_eq!(count_neighbors(&grid, 0, 2), 3);
    assert_eq!(count_neighbors(&grid, 2, 0), 3);
    assert_eq!(count_neighbors(&grid, 2, 2), 3);
    assert_eq!(count_neighbors(&grid, 0, 1), 5);
    assert_eq!(count_neighbors(&grid, 1, 0), 5);
    assert_eq!(count_neighbors(&grid, 1, 2), 5);
    assert_eq!(count_neighbors(&grid, 2, 1), 5);
    // Corners have three neighbours and live on, everything else is crowded out.
    assert_eq!(live_cells(&step(&grid)), vec![(0, 0), (0, 2), (2, 0), (2, 2)]);
}

#[test]
fn rule_table() {
    for neighbors in 0..=8u8 {
        assert_eq!(next_state(true, neighbors), neighbors == 2 || neighbors == 3);
        assert_eq!(next_state(false, neighbors), neighbors == 3);
    }
}

#[test]
fn three_in_a_corner_give_birth() {
    let grid = grid_with(2, 2, &[(0, 0), (0, 1), (1, 0)]);
    assert_eq!(count_neighbors(&grid, 1, 1), 3);
    assert_eq!(live_cells(&step(&grid)), vec![(0, 0), (0, 1), (1, 0), (1, 1)]);
}

#[test]
fn step_leaves_its_input_alone() {
    let grid = grid_with(3, 3, &[(0, 1), (1, 1), (2, 1)]);
    let before = grid.clone();
    let next = step(&grid);
    assert_eq!(grid, before);
    assert_ne!(next, grid);
    assert_eq!(next.rows(), 3);
    assert_eq!(next.cols(), 3);
}

#[test]
fn step_is_deterministic() {
    let grid = grid_with(5, 5, &[(1, 2), (2, 3), (3, 1), (3, 2), (3, 3)]);
    assert_eq!(step(&grid), step(&grid));
}

#[test]
fn glider_travels_diagonally() {
    let mut grid = grid_with(8, 8, &[(0, 1), (1, 2), (2, 0), (2, 1), (2, 2)]);
    for _ in 0..4 {
        grid = step(&grid);
    }
    assert_eq!(live_cells(&grid), vec![(1, 2), (2, 3), (3, 1), (3, 2), (3, 3)]);
}

#[test]
fn empty_grids_step_to_themselves() {
    assert_eq!(step(&Grid::new(0, 0)), Grid::new(0, 0));
    assert_eq!(step(&Grid::new(0, 5)), Grid::new(0, 5));
    assert_eq!(step(&Grid::new(5, 0)), Grid::new(5, 0));
    assert_eq!(step(&Grid::new(4, 4)), Grid::new(4, 4));
}

#[test]
fn single_row_grid() {
    let grid = grid_with(1, 5, &[(0, 1), (0, 2), (0, 3)]);
    assert_eq!(count_neighbors(&grid, 0, 0), 1);
    assert_eq!(count_neighbors(&grid, 0, 2), 2);
    assert_eq!(count_neighbors(&grid, 0, 4), 1);
    assert_eq!(live_cells(&step(&grid)), vec![(0, 2)]);
}
