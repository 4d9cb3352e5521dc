//! The sandbox as a host sees it: one value that takes ticks and input
//! events, and shows the grid and the squares to draw.

use vstd::prelude::*;
use crate::clock::{Clock, ClockState};
use crate::config::Config;
use crate::engine::{next_board, step};
use crate::grid::{Board, Grid};
use crate::input::{
    motion_event,
    press_event,
    release_event,
    Button,
    Event,
    Key,
    Motion,
    MouseButton,
};
use crate::session::{board_after, stroke_after, EditSession, Stroke};

verus! {

/// A filled square to draw, by the pixel of its top-left corner and the
/// length of its side.
#[derive(Clone, Copy, Debug, PartialEq, Eq)]
pub struct Square {
    /// Horizontal pixel of the top-left corner.
    pub x: i32,
    /// Vertical pixel of the top-left corner.
    pub y: i32,
    /// Length of the side, in pixels.
    pub side: u32,
}

/// The square that shows the cell at `(row, col)`.
pub open spec fn square_at(config: Config, row: int, col: int) -> Square {
    Square {
        x: config.origin_of(col) as i32,
        y: config.origin_of(row) as i32,
        side: config.cell_size,
    }
}

/// The squares of the live cells among the first `count` cells of a row,
/// from left to right.
pub open spec fn row_squares(config: Config, board: Board, row: int, count: nat) -> Seq<Square>
    decreases count,
{
    if count == 0 {
        Seq::empty()
    } else {
        let before = row_squares(config, board, row, (count - 1) as nat);
        if board.alive(row, count - 1) {
            before.push(square_at(config, row, count - 1))
        } else {
            before
        }
    }
}

/// The squares of the live cells in the first `count` rows, row by row from
/// the top.
pub open spec fn rows_squares(config: Config, board: Board, count: nat) -> Seq<Square>
    decreases count,
{
    if count == 0 {
        Seq::empty()
    } else {
        rows_squares(config, board, (count - 1) as nat) + row_squares(
            config,
            board,
            count - 1,
            board.cols,
        )
    }
}

/// What a sandbox is, mathematically.
pub struct AppState {
    /// The fixed parameters.
    pub config: Config,
    /// The current generation.
    pub board: Board,
    /// The clock.
    pub clock: ClockState,
    /// The drag in progress, if there is one.
    pub stroke: Option<Stroke>,
    /// Horizontal pixel of the pointer's last known position.
    pub pointer_x: int,
    /// Vertical pixel of the pointer's last known position.
    pub pointer_y: int,
}

impl AppState {
    /// The parts fit together: the board has the configured dimensions and
    /// the clock runs at the configured base rate.
    pub open spec fn wf(self) -> bool {
        &&& self.config.wf()
        &&& self.board.wf()
        &&& self.board.rows == self.config.rows
        &&& self.board.cols == self.config.cols
        &&& self.clock.wf()
        &&& self.clock.base == self.config.base_ticks
    }

    /// The sandbox as it starts: an empty board, a running clock at speed
    /// zero, no drag, the pointer at the window's origin.
    pub open spec fn initial(config: Config) -> AppState {
        AppState {
            config,
            board: Board::blank(config.rows as nat, config.cols as nat),
            clock: ClockState::initial(config.base_ticks as int),
            stroke: None,
            pointer_x: 0,
            pointer_y: 0,
        }
    }

    /// Row that the pointer resolves to; it may lie outside the board.
    pub open spec fn pointed_row(self) -> int {
        self.config.index_of(self.pointer_y)
    }

    /// Column that the pointer resolves to; it may lie outside the board.
    pub open spec fn pointed_col(self) -> int {
        self.config.index_of(self.pointer_x)
    }

    /// After a tick: the clock has counted, and the board has moved on by
    /// one generation if the clock said so.
    pub open spec fn after_tick(self) -> AppState {
        AppState {
            clock: self.clock.ticked(),
            board: if self.clock.steps_on_tick() {
                next_board(self.board)
            } else {
                self.board
            },
            ..self
        }
    }

    /// After the pointer has moved to pixel `(x, y)`: the position is
    /// remembered, and a drag in progress has followed it.
    pub open spec fn after_pointer_move(self, x: int, y: int) -> AppState {
        let row = self.config.index_of(y);
        let col = self.config.index_of(x);
        AppState {
            pointer_x: x,
            pointer_y: y,
            stroke: stroke_after(self.stroke, self.board, row, col),
            board: board_after(self.stroke, self.board, row, col),
            ..self
        }
    }

    /// After the primary button went down: the cell under the pointer has
    /// flipped and a drag with its new state has begun there. A press
    /// outside the board changes nothing.
    pub open spec fn after_press(self) -> AppState {
        let row = self.pointed_row();
        let col = self.pointed_col();
        if self.board.has_cell(row, col) {
            let value = !self.board.alive(row, col);
            AppState {
                board: self.board.with_cell(row, col, value),
                stroke: Some(Stroke { value, row: row as usize, col: col as usize }),
                ..self
            }
        } else {
            self
        }
    }

    /// After the primary button came up: no drag is in progress.
    pub open spec fn after_release(self) -> AppState {
        AppState { stroke: None, ..self }
    }

    /// After a request to pause or resume.
    pub open spec fn after_pause_toggle(self) -> AppState {
        AppState { clock: self.clock.toggled(), ..self }
    }

    /// After the speed level has changed by `delta`.
    pub open spec fn after_speed_change(self, delta: int) -> AppState {
        AppState { clock: self.clock.with_speed_change(delta), ..self }
    }

    /// The state after an event.
    pub open spec fn after(self, event: Event) -> AppState {
        match event {
            Event::Tick => self.after_tick(),
            Event::PointerMoved { x, y } => self.after_pointer_move(x as int, y as int),
            Event::PrimaryButtonPressed => self.after_press(),
            Event::PrimaryButtonReleased => self.after_release(),
            Event::PauseToggleRequested => self.after_pause_toggle(),
            Event::SpeedIncreaseRequested => self.after_speed_change(1),
            Event::SpeedDecreaseRequested => self.after_speed_change(-1),
        }
    }

    /// The state after an event that may be absent.
    pub open spec fn after_maybe(self, event: Option<Event>) -> AppState {
        match event {
            Some(event) => self.after(event),
            None => self,
        }
    }

    /// Whether the speed level can still take the change that `event` asks
    /// for. Every other event is always accepted.
    pub open spec fn accepts(self, event: Event) -> bool {
        match event {
            Event::SpeedIncreaseRequested => self.clock.speed < i32::MAX,
            Event::SpeedDecreaseRequested => self.clock.speed > i32::MIN,
            _ => true,
        }
    }

    /// Whether an event that may be absent is accepted.
    pub open spec fn accepts_maybe(self, event: Option<Event>) -> bool {
        match event {
            Some(event) => self.accepts(event),
            None => true,
        }
    }

    /// The squares that show this state: one for each live cell, row by row.
    pub open spec fn squares(self) -> Seq<Square> {
        rows_squares(self.config, self.board, self.board.rows)
    }
}

/// The sandbox: a grid, the clock that paces it, and the editing state.
#[derive(Debug, PartialEq, Eq)]
pub struct App {
    config: Config,
    grid: Grid,
    clock: Clock,
    session: EditSession,
    pointer_x: i32,
    pointer_y: i32,
}

impl View for App {
    type V = AppState;

    closed spec fn view(&self) -> AppState {
        AppState {
            config: self.config,
            board: self.grid@,
            clock: self.clock@,
            stroke: self.session.stroke,
            pointer_x: self.pointer_x as int,
            pointer_y: self.pointer_y as int,
        }
    }
}

impl Clone for App {
    fn clone(&self) -> (copy: App)
        ensures
            copy@ == self@,
            copy.wf() == self.wf(),
    {
        App {
            config: self.config,
            grid: self.grid.clone(),
            clock: self.clock,
            session: self.session,
            pointer_x: self.pointer_x,
            pointer_y: self.pointer_y,
        }
    }
}

impl App {
    /// The parts of the sandbox fit together.
    pub closed spec fn wf(&self) -> bool {
        self.grid.wf() && self@.wf()
    }

    /// A well-formed sandbox has a well-formed view.
    pub proof fn lemma_view_wf(&self)
        requires
            self.wf(),
        ensures
            self@.wf(),
    {
    }

    /// A sandbox with an empty grid, a running clock at speed zero and no
    /// drag in progress.
    pub fn new(config: Config) -> (app: App)
        requires
            config.wf(),
        ensures
            app.wf(),
            app@ == AppState::initial(config),
    {
        App {
            config,
            grid: Grid::new(config.rows, config.cols),
            clock: Clock::new(config.base_ticks),
            session: EditSession::idle(),
            pointer_x: 0,
            pointer_y: 0,
        }
    }

    /// The fixed parameters.
    pub fn config(&self) -> (config: Config)
        ensures
            config == self@.config,
    {
        self.config
    }

    /// The current generation, for reading.
    pub fn current_grid(&self) -> (grid: &Grid)
        ensures
            grid@ == self@.board,
            self.wf() ==> grid.wf(),
    {
        &self.grid
    }

    /// The clock.
    pub fn clock(&self) -> (clock: Clock)
        ensures
            clock@ == self@.clock,
    {
        self.clock
    }

    /// The editing state.
    pub fn session(&self) -> (session: EditSession)
        ensures
            session.stroke == self@.stroke,
    {
        self.session
    }

    /// The pointer's last known position, as pixel `(x, y)`.
    pub fn pointer(&self) -> (pointer: (i32, i32))
        ensures
            pointer.0 == self@.pointer_x,
            pointer.1 == self@.pointer_y,
    {
        (self.pointer_x, self.pointer_y)
    }

    /// Lists what to draw: a square of one cell's size for each live cell,
    /// at the cell's pixel position, row by row. Dead cells are left to the
    /// background.
    pub fn on_render(&self) -> (squares: Vec<Square>)
        requires
            self.wf(),
        ensures
            squares@ == self@.squares(),
    {
        let rows = self.grid.rows();
        let cols = self.grid.cols();
        let ghost config = self.config;
        let ghost board = self.grid@;
        let mut squares: Vec<Square> = Vec::new();
        for row in 0..rows
            invariant
                self.wf(),
                config == self.config,
                board == self.grid@,
                rows == board.rows,
                cols == board.cols,
                squares@ == rows_squares(config, board, row as nat),
        {
            let ghost above = squares@;
            for col in 0..cols
                invariant
                    self.wf(),
                    config == self.config,
                    board == self.grid@,
                    rows == board.rows,
                    cols == board.cols,
                    row < rows,
                    above == rows_squares(config, board, row as nat),
                    squares@ == above + row_squares(config, board, row as int, col as nat),
            {
                let ghost so_far = row_squares(config, board, row as int, col as nat);
                if self.grid.get(row, col) {
                    let (x, y) = self.config.cell_to_pixel(row, col);
                    squares.push(Square { x, y, side: self.config.cell_size });
                    assert(squares@ =~= above + so_far.push(
                        square_at(config, row as int, col as int),
                    ));
                }
            }
        }
        squares
    }

    /// Takes one tick: asks the clock, and moves on by one generation if one
    /// is due. Returns whether it did.
    pub fn on_update(&mut self) -> (stepped: bool)
        requires
            old(self).wf(),
        ensures
            final(self).wf(),
            final(self)@ == old(self)@.after_tick(),
            stepped == old(self)@.clock.steps_on_tick(),
    {
        if !self.should_generate() {
            return false;
        }
        self.grid = self.next_generation();
        true
    }

    /// Handles the press of a button or key.
    ///
    /// The primary mouse button flips the cell under the pointer and starts
    /// a drag, the space bar pauses or resumes, the up and down arrows change
    /// the speed level by one. Anything else is ignored.
    pub fn on_press(&mut self, button: Button)
        requires
            old(self).wf(),
            old(self)@.accepts_maybe(press_event(button)),
        ensures
            final(self).wf(),
            final(self)@ == old(self)@.after_maybe(press_event(button)),
    {
        match button {
            Button::Mouse(pressed) => self.on_mouse_click(pressed),
            Button::Keyboard(key) => self.on_keyboard_press(key),
            Button::Other => {},
        }
    }

    /// Handles the press of a mouse button.
    pub fn on_mouse_click(&mut self, button: MouseButton)
        requires
            old(self).wf(),
        ensures
            final(self).wf(),
            final(self)@ == old(self)@.after_maybe(press_event(Button::Mouse(button))),
    {
        match button {
            MouseButton::Left => self.on_mouse_left_click(),
            MouseButton::Other => {},
        }
    }

    /// Flips the cell under the pointer and starts a drag that paints the
    /// cell's new state. Does nothing if the pointer is outside the grid.
    pub fn on_mouse_left_click(&mut self)
        requires
            old(self).wf(),
        ensures
            final(self).wf(),
            final(self)@ == old(self)@.after_press(),
    {
        let (row, col) = self.get_cell_pos(self.pointer_x, self.pointer_y);
        if !self.grid.contains(row, col) {
            return;
        }
        proof {
            self.grid.lemma_dimensions_fit();
            self.grid.lemma_view_wf();
        }
        let state = self.cell_toggle(row, col);
        let target_row = row as usize;
        let target_col = col as usize;
        self.grid.set(target_row, target_col, state);
        self.session.begin(target_row, target_col, state);
        proof {
            self.grid.lemma_view_wf();
        }
    }

    /// The state that a click would give the cell at `(row, col)`: the
    /// opposite of its current one. For a position outside the grid the
    /// answer is `false`.
    pub fn cell_toggle(&self, row: i64, col: i64) -> (state: bool)
        requires
            self.wf(),
        ensures
            state == (self@.board.has_cell(row as int, col as int) && !self@.board.alive(
                row as int,
                col as int,
            )),
    {
        proof {
            self.grid.lemma_dimensions_fit();
        }
        if self.grid.contains(row, col) {
            !self.grid.get(row as usize, col as usize)
        } else {
            false
        }
    }

    /// Handles the press of a key.
    pub fn on_keyboard_press(&mut self, key: Key)
        requires
            old(self).wf(),
            old(self)@.accepts_maybe(press_event(Button::Keyboard(key))),
        ensures
            final(self).wf(),
            final(self)@ == old(self)@.after_maybe(press_event(Button::Keyboard(key))),
    {
        match key {
            Key::Space => self.on_keyboard_press_space(),
            Key::Up => self.on_keyboard_press_up(),
            Key::Down => self.on_keyboard_press_down(),
            Key::Other => {},
        }
    }

    /// Pauses or resumes.
    pub fn on_keyboard_press_space(&mut self)
        requires
            old(self).wf(),
        ensures
            final(self).wf(),
            final(self)@ == old(self)@.after_pause_toggle(),
    {
        self.clock.toggle_pause();
    }

    /// Raises the speed level by one.
    pub fn on_keyboard_press_up(&mut self)
        requires
            old(self).wf(),
            old(self)@.clock.speed < i32::MAX,
        ensures
            final(self).wf(),
            final(self)@ == old(self)@.after_speed_change(1),
    {
        proof {
            self.clock.lemma_view_fits();
        }
        self.clock.set_speed(1);
    }

    /// Lowers the speed level by one.
    pub fn on_keyboard_press_down(&mut self)
        requires
            old(self).wf(),
            old(self)@.clock.speed > i32::MIN,
        ensures
            final(self).wf(),
            final(self)@ == old(self)@.after_speed_change(-1),
    {
        proof {
            self.clock.lemma_view_fits();
        }
        self.clock.set_speed(-1);
    }

    /// Handles the release of a button or key. Only the primary mouse
    /// button matters: it ends the drag.
    pub fn on_release(&mut self, button: Button)
        requires
            old(self).wf(),
        ensures
            final(self).wf(),
            final(self)@ == old(self)@.after_maybe(release_event(button)),
    {
        match button {
            Button::Mouse(released) => self.on_mouse_release(released),
            _ => {},
        }
    }

    /// Handles the release of a mouse button.
    pub fn on_mouse_release(&mut self, button: MouseButton)
        requires
            old(self).wf(),
        ensures
            final(self).wf(),
            final(self)@ == old(self)@.after_maybe(release_event(Button::Mouse(button))),
    {
        match button {
            MouseButton::Left => self.on_mouse_left_release(),
            MouseButton::Other => {},
        }
    }

    /// Ends the drag, if there is one. The grid stays as it is.
    pub fn on_mouse_left_release(&mut self)
        requires
            old(self).wf(),
        ensures
            final(self).wf(),
            final(self)@ == old(self)@.after_release(),
    {
        self.session.end();
    }

    /// The generation that follows the current one, as a fresh grid.
    pub fn next_generation(&self) -> (next: Grid)
        requires
            self.wf(),
        ensures
            next.wf(),
            next@ == next_board(self@.board),
    {
        step(&self.grid)
    }

    /// Handles a movement. Only the pointer's matters.
    pub fn on_move(&mut self, motion: Motion)
        requires
            old(self).wf(),
        ensures
            final(self).wf(),
            final(self)@ == old(self)@.after_maybe(motion_event(motion)),
    {
        match motion {
            Motion::MouseCursor(x, y) => self.on_cursor_move(x, y),
            Motion::Other => {},
        }
    }

    /// Remembers the pointer's position and lets a drag in progress follow
    /// it: a cell that the pointer has newly entered is painted.
    pub fn on_cursor_move(&mut self, x: i32, y: i32)
        requires
            old(self).wf(),
        ensures
            final(self).wf(),
            final(self)@ == old(self)@.after_pointer_move(x as int, y as int),
    {
        self.pointer_x = x;
        self.pointer_y = y;
        let (row, col) = self.get_cell_pos(x, y);
        self.session.continue_to(&mut self.grid, row, col);
        proof {
            self.grid.lemma_view_wf();
        }
    }

    /// Counts one tick on the clock and reports whether a generation is due.
    pub fn should_generate(&mut self) -> (due: bool)
        requires
            old(self).wf(),
        ensures
            final(self).wf(),
            due == old(self)@.clock.steps_on_tick(),
            final(self)@ == (AppState { clock: old(self)@.clock.ticked(), ..old(self)@ }),
    {
        self.clock.on_tick()
    }

    /// Resolves a pixel position to the `(row, column)` it falls on, which
    /// may lie outside the grid.
    pub fn get_cell_pos(&self, x: i32, y: i32) -> (cell: (i64, i64))
        requires
            self.wf(),
        ensures
            cell.0 == self@.config.index_of(y as int),
            cell.1 == self@.config.index_of(x as int),
    {
        self.config.pixel_to_cell(x, y)
    }

    /// Handles one event and reports whether the grid moved on by a
    /// generation.
    pub fn handle(&mut self, event: Event) -> (stepped: bool)
        requires
            old(self).wf(),
            old(self)@.accepts(event),
        ensures
            final(self).wf(),
            final(self)@ == old(self)@.after(event),
            stepped == (event == Event::Tick && old(self)@.clock.steps_on_tick()),
    {
        match event {
            Event::Tick => {
                return self.on_update();
            },
            Event::PointerMoved { x, y } => self.on_cursor_move(x, y),
            Event::PrimaryButtonPressed => self.on_mouse_left_click(),
            Event::PrimaryButtonReleased => self.on_mouse_left_release(),
            Event::PauseToggleRequested => self.on_keyboard_press_space(),
            Event::SpeedIncreaseRequested => self.on_keyboard_press_up(),
            Event::SpeedDecreaseRequested => self.on_keyboard_press_down(),
        }
        false
    }
}

/// Every event leaves a well-formed state well-formed, with the
/// configuration and the grid's dimensions it had.
pub proof fn lemma_event_keeps_state_wf(state: AppState, event: Event)
    requires
        state.wf(),
    ensures
        state.after(event).wf(),
        state.after(event).config == state.config,
        state.after(event).board.rows == state.board.rows,
        state.after(event).board.cols == state.board.cols,
{
    crate::engine::lemma_next_board_wf(state.board);
    let next = state.after(event);
    assert forall|row: int, col: int| #[trigger]
        next.board.alive(row, col) implies next.board.has_cell(row, col) by {
        // A cell that is alive afterwards was alive before, or is the one
        // cell that the event has written.
        if !state.board.alive(row, col) {
            assert(next.board.has_cell(row, col));
        }
    }
}

/// While the clock is paused a tick changes nothing, whatever the counter
/// holds.
pub proof fn lemma_paused_tick_changes_nothing(state: AppState)
    requires
        state.clock.paused,
    ensures
        state.after(Event::Tick) == state,
        !state.clock.steps_on_tick(),
{
}

/// Reporting the same pointer position twice in a row leaves the state as
/// reporting it once: a cell is painted when the pointer enters it, not
/// while it stays.
pub proof fn lemma_repeated_pointer_position_changes_nothing(state: AppState, x: int, y: int)
    requires
        state.wf(),
    ensures
        state.after_pointer_move(x, y).after_pointer_move(x, y) == state.after_pointer_move(x, y),
{
    let row = state.config.index_of(y);
    let col = state.config.index_of(x);
    crate::session::lemma_same_cell_paints_once(state.stroke, state.board, row, col);
}

/// A press on a cell flips it, and only it: pressing twice at the same
/// position gives the board back.
pub proof fn lemma_press_twice_restores_board(state: AppState)
    requires
        state.wf(),
    ensures
        state.after_press().after_press().board == state.board,
{
    let row = state.pointed_row();
    let col = state.pointed_col();
    if state.board.has_cell(row, col) {
        let once = state.after_press();
        let twice = once.after_press();
        assert(twice.board.live =~= state.board.live);
    }
}

} // verus!
