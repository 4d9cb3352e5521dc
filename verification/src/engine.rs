//! The evolution rule: Conway's Game of Life on a bounded grid whose edges
//! do not wrap around.

use vstd::prelude::*;
use crate::grid::{Board, Grid};

verus! {

/// One if the cell at `(row, col)` is alive, zero if it is dead or lies
/// outside the board.
pub open spec fn live_count(board: Board, row: int, col: int) -> int {
    if board.alive(row, col) {
        1
    } else {
        0
    }
}

/// Number of live cells among the eight cells that touch `(row, col)`.
/// Positions beyond an edge count as dead.
pub open spec fn neighbor_sum(board: Board, row: int, col: int) -> int {
    live_count(board, row - 1, col - 1) + live_count(board, row - 1, col) + live_count(
        board,
        row - 1,
        col + 1,
    ) + live_count(board, row, col - 1) + live_count(board, row, col + 1) + live_count(
        board,
        row + 1,
        col - 1,
    ) + live_count(board, row + 1, col) + live_count(board, row + 1, col + 1)
}

/// Whether a cell is alive in the next generation: a live cell stays alive
/// with two or three live neighbours, a dead cell comes alive with exactly
/// three.
pub open spec fn lives_on(alive: bool, neighbors: int) -> bool {
    if alive {
        neighbors == 2 || neighbors == 3
    } else {
        neighbors == 3
    }
}

/// Whether the cell at `(row, col)` is alive after one generation.
pub open spec fn alive_next(board: Board, row: int, col: int) -> bool {
    board.has_cell(row, col) && lives_on(board.alive(row, col), neighbor_sum(board, row, col))
}

/// The board one generation later. Every cell is decided from the board as
/// it was before the step.
pub open spec fn next_board(board: Board) -> Board {
    Board {
        rows: board.rows,
        cols: board.cols,
        live: Set::new(|cell: (int, int)| alive_next(board, cell.0, cell.1)),
    }
}

/// Counts the live neighbours of a cell of the grid.
pub fn count_neighbors(grid: &Grid, row: usize, col: usize) -> (sum: u8)
    requires
        grid.wf(),
        grid@.has_cell(row as int, col as int),
    ensures
        sum == neighbor_sum(grid@, row as int, col as int),
        sum <= 8,
{
    proof {
        grid.lemma_view_wf();
    }
    let rows = grid.rows();
    let cols = grid.cols();
    let above = row > 0;
    let below = row + 1 < rows;
    let left = col > 0;
    let right = col + 1 < cols;
    let mut sum: u8 = 0;
    if above && left && grid.get(row - 1, col - 1) {
        sum += 1;
    }
    if above && grid.get(row - 1, col) {
        sum += 1;
    }
    if above && right && grid.get(row - 1, col + 1) {
        sum += 1;
    }
    if left && grid.get(row, col - 1) {
        sum += 1;
    }
    if right && grid.get(row, col + 1) {
        sum += 1;
    }
    if below && left && grid.get(row + 1, col - 1) {
        sum += 1;
    }
    if below && grid.get(row + 1, col) {
        sum += 1;
    }
    if below && right && grid.get(row + 1, col + 1) {
        sum += 1;
    }
    sum
}

/// Applies the rule to one cell.
pub fn next_state(alive: bool, neighbors: u8) -> (next: bool)
    ensures
        next == lives_on(alive, neighbors as int),
{
    if alive {
        neighbors == 2 || neighbors == 3
    } else {
        neighbors == 3
    }
}

/// Computes the next generation into a fresh grid and leaves `grid`
/// untouched.
pub fn step(grid: &Grid) -> (next: Grid)
    requires
        grid.wf(),
    ensures
        next.wf(),
        next@ == next_board(grid@),
{
    let rows = grid.rows();
    let cols = grid.cols();
    proof {
        grid.lemma_present_cells_fit();
    }
    let mut next = Grid::new(rows, cols);
    for row in 0..rows
        invariant
            grid.wf(),
            next.wf(),
            rows == grid@.rows,
            cols == grid@.cols,
            next@.rows == rows,
            next@.cols == cols,
            forall|r: int, c: int|
                #[trigger] next@.live.contains((r, c)) <==> r < row && alive_next(grid@, r, c),
    {
        for col in 0..cols
            invariant
                grid.wf(),
                next.wf(),
                row < rows,
                rows == grid@.rows,
                cols == grid@.cols,
                next@.rows == rows,
                next@.cols == cols,
                forall|r: int, c: int|
                    #[trigger] next@.live.contains((r, c)) <==> (r < row || (r == row && c
                        < col)) && alive_next(grid@, r, c),
        {
            let neighbors = count_neighbors(grid, row, col);
            if next_state(grid.get(row, col), neighbors) {
                next.set(row, col, true);
            }
        }
    }
    assert(next@.live =~= next_board(grid@).live);
    next
}

/// Whether two cells touch: they differ, and by at most one row and one
/// column.
pub open spec fn touches(row_a: int, col_a: int, row_b: int, col_b: int) -> bool {
    &&& row_a - 1 <= row_b <= row_a + 1
    &&& col_a - 1 <= col_b <= col_a + 1
    &&& !(row_a == row_b && col_a == col_b)
}

/// A cell counts toward the neighbour sums of the cells that touch it and
/// of no others: changing it leaves every other sum as it was. In
/// particular nothing carries over from one edge of the board to the
/// opposite one.
pub proof fn lemma_cell_reaches_only_what_it_touches(
    board: Board,
    row: int,
    col: int,
    value: bool,
    at_row: int,
    at_col: int,
)
    requires
        !touches(row, col, at_row, at_col),
    ensures
        neighbor_sum(board.with_cell(row, col, value), at_row, at_col) == neighbor_sum(
            board,
            at_row,
            at_col,
        ),
{
}

/// On a board whose only live cell is the corner `(0, 0)`, the neighbour sum
/// is one at the cells that touch the corner and zero everywhere else, the
/// far edges and the opposite corner included.
pub proof fn lemma_corner_does_not_wrap(board: Board, row: int, col: int)
    requires
        board.live == Set::<(int, int)>::empty().insert((0, 0)),
    ensures
        neighbor_sum(board, row, col) == (if touches(0, 0, row, col) {
            1int
        } else {
            0int
        }),
        (row >= 2 || col >= 2) ==> neighbor_sum(board, row, col) == 0 && !alive_next(
            board,
            row,
            col,
        ),
{
}

/// A step keeps the dimensions and leaves nothing alive outside the board.
pub proof fn lemma_next_board_wf(board: Board)
    ensures
        next_board(board).rows == board.rows,
        next_board(board).cols == board.cols,
        next_board(board).wf(),
{
}

} // verus!
