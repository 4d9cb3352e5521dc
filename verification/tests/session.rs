use game_of_life::grid::Grid;
use game_of_life::session::{EditSession, Stroke};

#[test]
fn idle_session_has_no_stroke() {
    let session = EditSession::idle();
    assert!(!session.is_active());
    assert_eq!(session.stroke, None);
}

#[test]
fn begin_remembers_cell_and_value() {
    let mut session = EditSession::idle();
    session.begin(2, 3, true);
    assert!(session.is_active());
    assert_eq!(session.stroke, Some(Stroke { value: true, row: 2, col: 3 }));
    session.begin(0, 1, false);
    assert_eq!(session.stroke, Some(Stroke { value: false, row: 0, col: 1 }));
}

#[test]
fn entering_a_new_cell_paints_it() {
    let mut grid = Grid::new(4, 4);
    let mut session = EditSession::idle();
    session.begin(1, 1, true);
    assert!(session.continue_to(&mut grid, 1, 2));
    assert!(grid.get(1, 2));
    assert!(!grid.get(1, 1));
    assert_eq!(session.stroke, Some(Stroke { value: true, row: 1, col: 2 }));
}

#[test]
fn staying_in_the_start_cell_paints_nothing() {
    let mut grid = Grid::new(4, 4);
    let mut session = EditSession::idle();
    session.begin(1, 1, true);
    assert!(!session.continue_to(&mut grid, 1, 1));
    assert_eq!(grid, Grid::new(4, 4));
    assert_eq!(session.stroke, Some(Stroke { value: true, row: 1, col: 1 }));
}

#[test]
fn same_cell_twice_is_the_same_as_once() {
    let mut once_grid = Grid::new(4, 4);
    let mut once = EditSession::idle();
    once.begin(0, 0, true);
    assert!(once.continue_to(&mut once_grid, 2, 3));

    let mut twice_grid = Grid::new(4, 4);
    let mut twice = EditSession::idle();
    twice.begin(0, 0, true);
    assert!(twice.continue_to(&mut twice_grid, 2, 3));
    assert!(!twice.continue_to(&mut twice_grid, 2, 3));

    assert_eq!(twice_grid, once_grid);
    assert_eq!(twice, once);
    assert!(twice_grid.get(2, 3));
}

#[test]
fn repeated_cell_is_not_repainted_after_the_grid_changed() {
    let mut grid = Grid::new(3, 3);
    let mut session = EditSession::idle();
    session.begin(0, 0, true);
    assert!(session.continue_to(&mut grid, 1, 1));
    grid.set(1, 1, false);
    assert!(!session.continue_to(&mut grid, 1, 1));
    assert!(!grid.get(1, 1));
}

#[test]
fn returning_to_a_cell_paints_it_again() {
    let mut grid = Grid::new(3, 3);
    let mut session = EditSession::idle();
    session.begin(0, 0, true);
    assert!(session.continue_to(&mut grid, 0, 1));
    assert!(session.continue_to(&mut grid, 0, 0));
    assert!(grid.get(0, 0));
    assert!(grid.get(0, 1));
}

#[test]
fn erasing_stroke_kills_cells() {
    let mut grid = Grid::new(3, 3);
    grid.set(0, 1, true);
    grid.set(0, 2, true);
    let mut session = EditSession::idle();
    session.begin(0, 0, false);
    assert!(session.continue_to(&mut grid, 0, 1));
    assert!(session.continue_to(&mut grid, 0, 2));
    assert_eq!(grid, Grid::new(3, 3));
}

#[test]
fn positions_outside_the_grid_are_ignored() {
    let mut grid = Grid::new(3, 3);
    let mut session = EditSession::idle();
    session.begin(1, 1, true);
    for (row, col) in [(-1, 0), (0, -1), (3, 0), (0, 3), (i64::MAX, 1), (1, i64::MIN)] {
        assert!(!session.continue_to(&mut grid, row, col));
    }
    assert_eq!(grid, Grid::new(3, 3));
    assert_eq!(session.stroke, Some(Stroke { value: true, row: 1, col: 1 }));
}

#[test]
fn idle_session_paints_nothing() {
    let mut grid = Grid::new(3, 3);
    let mut session = EditSession::idle();
    assert!(!session.continue_to(&mut grid, 1, 1));
    assert_eq!(grid, Grid::new(3, 3));
    assert!(!session.is_active());
}

#[test]
fn end_closes_the_session_and_keeps_the_grid() {
    let mut grid = Grid::new(3, 3);
    let mut session = EditSession::idle();
    session.begin(1, 1, true);
    session.continue_to(&mut grid, 1, 2);
    let painted = grid.clone();
    session.end();
    assert!(!session.is_active());
    assert!(!session.continue_to(&mut grid, 2, 2));
    assert_eq!(grid, painted);
    session.end();
    assert!(!session.is_active());
}
