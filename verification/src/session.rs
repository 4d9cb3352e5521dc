//! Drag painting: while the primary button is held, every cell that the
//! pointer enters is painted once with the value chosen at the press.

use vstd::prelude::*;
use crate::grid::{Board, Grid};

verus! {

/// A drag in progress: the value that it paints and the cell painted last.
#[derive(Clone, Copy, Debug, PartialEq, Eq)]
pub struct Stroke {
    /// The state written into each cell the pointer enters.
    pub value: bool,
    /// Row of the cell painted last.
    pub row: usize,
    /// Column of the cell painted last.
    pub col: usize,
}

/// Whether moving the pointer to `(row, col)` paints that cell: a drag is in
/// progress, the cell is on the board, and it is not the cell painted last.
pub open spec fn paints(stroke: Option<Stroke>, board: Board, row: int, col: int) -> bool {
    match stroke {
        Some(s) => board.has_cell(row, col) && !(row == s.row && col == s.col),
        None => false,
    }
}

/// The drag after the pointer has moved to `(row, col)`.
pub open spec fn stroke_after(stroke: Option<Stroke>, board: Board, row: int, col: int) -> Option<
    Stroke,
> {
    if paints(stroke, board, row, col) {
        Some(Stroke { value: stroke->Some_0.value, row: row as usize, col: col as usize })
    } else {
        stroke
    }
}

/// The board after the pointer has moved to `(row, col)`.
pub open spec fn board_after(stroke: Option<Stroke>, board: Board, row: int, col: int) -> Board {
    if paints(stroke, board, row, col) {
        board.with_cell(row, col, stroke->Some_0.value)
    } else {
        board
    }
}

/// The editing state: idle, or in the middle of a drag.
///
/// A session owns no grid. The grid to paint on is handed to `continue_to`
/// for the length of the call.
#[derive(Clone, Copy, Debug, PartialEq, Eq)]
pub struct EditSession {
    /// The drag in progress, if there is one.
    pub stroke: Option<Stroke>,
}

impl EditSession {
    /// A session with no drag in progress.
    pub fn idle() -> (session: EditSession)
        ensures
            session.stroke is None,
    {
        EditSession { stroke: None }
    }

    /// Whether a drag is in progress.
    pub fn is_active(&self) -> (active: bool)
        ensures
            active == self.stroke is Some,
    {
        self.stroke.is_some()
    }

    /// Starts a drag at `(row, col)` that paints `value`. The cell itself
    /// counts as painted.
    pub fn begin(&mut self, row: usize, col: usize, value: bool)
        ensures
            final(self).stroke == Some(Stroke { value, row, col }),
    {
        self.stroke = Some(Stroke { value, row, col });
    }

    /// Follows the pointer to `(row, col)`.
    ///
    /// The cell is painted with the drag's value, and remembered, if a drag
    /// is in progress, the cell is on the grid and differs from the cell
    /// painted last. Otherwise nothing changes. Returns whether it painted.
    pub fn continue_to(&mut self, grid: &mut Grid, row: i64, col: i64) -> (painted: bool)
        requires
            old(grid).wf(),
        ensures
            final(grid).wf(),
            painted == paints(old(self).stroke, old(grid)@, row as int, col as int),
            final(self).stroke == stroke_after(
                old(self).stroke,
                old(grid)@,
                row as int,
                col as int,
            ),
            final(grid)@ == board_after(old(self).stroke, old(grid)@, row as int, col as int),
    {
        proof {
            grid.lemma_dimensions_fit();
        }
        match self.stroke {
            Some(stroke) => {
                if !grid.contains(row, col) {
                    return false;
                }
                let target_row = row as usize;
                let target_col = col as usize;
                if target_row == stroke.row && target_col == stroke.col {
                    return false;
                }
                grid.set(target_row, target_col, stroke.value);
                self.stroke = Some(
                    Stroke { value: stroke.value, row: target_row, col: target_col },
                );
                true
            },
            None => false,
        }
    }

    /// Ends the drag, if there is one.
    pub fn end(&mut self)
        ensures
            final(self).stroke is None,
    {
        self.stroke = None;
    }
}

/// Following the pointer to the same cell twice in a row leaves the drag and
/// the board as following it there once.
pub proof fn lemma_same_cell_paints_once(stroke: Option<Stroke>, board: Board, row: int, col: int)
    requires
        board.rows <= usize::MAX,
        board.cols <= usize::MAX,
    ensures
        stroke_after(
            stroke_after(stroke, board, row, col),
            board_after(stroke, board, row, col),
            row,
            col,
        ) == stroke_after(stroke, board, row, col),
        board_after(
            stroke_after(stroke, board, row, col),
            board_after(stroke, board, row, col),
            row,
            col,
        ) == board_after(stroke, board, row, col),
{
}

} // verus!
