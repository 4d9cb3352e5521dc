//! The grid of cells: a rectangle of fixed dimensions in which every cell is
//! alive or dead.

use vstd::prelude::*;

verus! {

/// What a grid is, mathematically: its dimensions and the set of the
/// `(row, column)` pairs that are alive.
pub struct Board {
    /// Number of rows.
    pub rows: nat,
    /// Number of columns.
    pub cols: nat,
    /// The cells that are alive.
    pub live: Set<(int, int)>,
}

impl Board {
    /// Whether `(row, col)` names a cell of the board.
    pub open spec fn has_cell(self, row: int, col: int) -> bool {
        0 <= row < self.rows && 0 <= col < self.cols
    }

    /// Whether the cell at `(row, col)` is alive. Nothing outside the board
    /// is alive.
    pub open spec fn alive(self, row: int, col: int) -> bool {
        self.live.contains((row, col))
    }

    /// Every live cell lies on the board.
    pub open spec fn wf(self) -> bool {
        forall|row: int, col: int| #[trigger] self.alive(row, col) ==> self.has_cell(row, col)
    }

    /// The board of the given dimensions on which nothing is alive.
    pub open spec fn blank(rows: nat, cols: nat) -> Board {
        Board { rows, cols, live: Set::empty() }
    }

    /// This board with one cell set to `value`.
    pub open spec fn with_cell(self, row: int, col: int, value: bool) -> Board {
        Board {
            rows: self.rows,
            cols: self.cols,
            live: if value {
                self.live.insert((row, col))
            } else {
                self.live.remove((row, col))
            },
        }
    }
}

/// A grid of cells, stored row by row. Its dimensions are fixed when it is
/// made.
#[derive(Debug, PartialEq, Eq)]
pub struct Grid {
    rows: usize,
    cols: usize,
    cells: Vec<bool>,
}

impl View for Grid {
    type V = Board;

    closed spec fn view(&self) -> Board {
        Board {
            rows: self.rows as nat,
            cols: self.cols as nat,
            live: Set::new(
                |cell: (int, int)|
                    0 <= cell.0 < self.rows && 0 <= cell.1 < self.cols && self.cells@[cell.0
                        * self.cols + cell.1],
            ),
        }
    }
}

impl Grid {
    /// The grid holds exactly one stored state for each of its cells.
    pub closed spec fn wf(&self) -> bool {
        self.cells.len() == self.rows * self.cols
    }

    /// The view of a grid never holds a live cell outside its dimensions.
    pub proof fn lemma_view_wf(&self)
        ensures
            self@.wf(),
    {
    }

    /// The dimensions of a grid are machine integers.
    pub proof fn lemma_dimensions_fit(&self)
        ensures
            self@.rows <= usize::MAX,
            self@.cols <= usize::MAX,
    {
    }

    /// The cells of a well-formed grid can be counted in a `usize`.
    pub proof fn lemma_present_cells_fit(&self)
        requires
            self.wf(),
        ensures
            self@.rows * self@.cols <= usize::MAX,
    {
    }

    /// A grid of `rows` by `cols` dead cells.
    pub fn new(rows: usize, cols: usize) -> (grid: Grid)
        requires
            rows * cols <= usize::MAX,
        ensures
            grid.wf(),
            grid@ == Board::blank(rows as nat, cols as nat),
    {
        let cells = vec![false; rows * cols];
        let grid = Grid { rows, cols, cells };
        assert forall|cell: (int, int)| !grid@.live.contains(cell) by {
            if 0 <= cell.0 < rows && 0 <= cell.1 < cols {
                lemma_slot_in_range(rows as int, cols as int, cell.0, cell.1);
            }
        }
        assert(grid@.live =~= Set::empty());
        grid
    }

    /// Number of rows.
    pub fn rows(&self) -> (rows: usize)
        ensures
            rows == self@.rows,
    {
        self.rows
    }

    /// Number of columns.
    pub fn cols(&self) -> (cols: usize)
        ensures
            cols == self@.cols,
    {
        self.cols
    }

    /// Whether a signed `(row, col)` pair names a cell of this grid.
    pub fn contains(&self, row: i64, col: i64) -> (inside: bool)
        ensures
            inside == self@.has_cell(row as int, col as int),
    {
        row >= 0 && col >= 0 && (row as u64) < self.rows as u64 && (col as u64) < self.cols as u64
    }

    /// State of the cell at `(row, col)`.
    pub fn get(&self, row: usize, col: usize) -> (alive: bool)
        requires
            self.wf(),
            self@.has_cell(row as int, col as int),
        ensures
            alive == self@.alive(row as int, col as int),
    {
        proof {
            lemma_slot_in_range(self.rows as int, self.cols as int, row as int, col as int);
        }
        self.cells[row * self.cols + col]
    }

    /// Sets the cell at `(row, col)` and leaves every other cell as it was.
    pub fn set(&mut self, row: usize, col: usize, value: bool)
        requires
            old(self).wf(),
            old(self)@.has_cell(row as int, col as int),
        ensures
            final(self).wf(),
            final(self)@ == old(self)@.with_cell(row as int, col as int, value),
    {
        proof {
            lemma_slot_in_range(self.rows as int, self.cols as int, row as int, col as int);
        }
        let slot: usize = row * self.cols + col;
        self.cells.set(slot, value);
        proof {
            let after = self@;
            let expected = old(self)@.with_cell(row as int, col as int, value);
            assert forall|cell: (int, int)|
                after.live.contains(cell) == expected.live.contains(cell) by {
                if 0 <= cell.0 < self.rows && 0 <= cell.1 < self.cols {
                    lemma_slot_in_range(self.rows as int, self.cols as int, cell.0, cell.1);
                    if cell.0 * self.cols + cell.1 == slot {
                        lemma_slot_distinct(
                            self.cols as int,
                            row as int,
                            col as int,
                            cell.0,
                            cell.1,
                        );
                    }
                }
            }
            assert(after.live =~= expected.live);
        }
    }
}

impl Clone for Grid {
    fn clone(&self) -> (copy: Grid)
        ensures
            copy@ == self@,
            copy.wf() == self.wf(),
    {
        let copy = Grid { rows: self.rows, cols: self.cols, cells: self.cells.clone() };
        assert(copy.cells@ =~= self.cells@);
        assert(copy@.live =~= self@.live);
        copy
    }
}

/// The cell at `(row, col)` is stored at a slot below `rows * cols`.
proof fn lemma_slot_in_range(rows: int, cols: int, row: int, col: int)
    requires
        0 <= row < rows,
        0 <= col < cols,
    ensures
        0 <= row * cols + col < rows * cols,
{
    assert(0 <= row * cols && row * cols + cols <= rows * cols) by (nonlinear_arith)
        requires
            0 <= row,
            row + 1 <= rows,
            0 <= cols,
    ;
}

/// Two cells share a slot only if they are the same cell.
proof fn lemma_slot_distinct(cols: int, row_a: int, col_a: int, row_b: int, col_b: int)
    requires
        0 <= col_a < cols,
        0 <= col_b < cols,
        row_a * cols + col_a == row_b * cols + col_b,
    ensures
        row_a == row_b,
        col_a == col_b,
{
    vstd::arithmetic::div_mod::lemma_fundamental_div_mod_converse(
        row_a * cols + col_a,
        cols,
        row_a,
        col_a,
    );
    vstd::arithmetic::div_mod::lemma_fundamental_div_mod_converse(
        row_b * cols + col_b,
        cols,
        row_b,
        col_b,
    );
}

} // verus!
