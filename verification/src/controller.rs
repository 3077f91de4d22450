//! The application controller's dispatch logic.
//!
//! The controller owns the shared application state, the immutable
//! monitor and grid configuration, and the capture bookkeeping. Each
//! handler feeds the state machine one event and returns the side
//! effects the new state implies — showing or hiding overlays,
//! starting or stopping capture, positioning a window — as plain
//! values for the platform loop to perform outside any lock.

use crate::capture::{
    KEY_EVENT_MESSAGE_ID, KeyEvent, KeyboardCaptureError, KeyboardCaptureGuard, spec_classify_vk,
};
use crate::capture;
use crate::grid::{
    Grid, GridError, MIN_CELL_HEIGHT, MIN_CELL_WIDTH, spec_cell_height, spec_cell_width,
    spec_grid_accepts, spec_grid_error, valid_screen_area,
};
use crate::hotkeys::HotkeyError;
use crate::keyboard::GridCoords;
use crate::monitor::{Monitor, MonitorError};
use crate::rect::Rect;
use crate::selection::{Selection, SelectionState, spec_normalize};
use crate::state::{
    AppState, NavigationDirection, SELECTION_TIMEOUT_MS, SelectingState, StateEvent, StateMachine,
    spec_transition,
};
use vstd::prelude::*;

verus! {

/// Rows of the controller's default grid.
pub const DEFAULT_GRID_ROWS: u32 = 2;

/// Columns of the controller's default grid.
pub const DEFAULT_GRID_COLS: u32 = 3;

/// Application errors surfaced during controller operations.
#[derive(Debug, Clone, PartialEq, Eq)]
pub enum AppError {
    /// Monitor enumeration failed.
    MonitorError(MonitorError),
    /// A grid could not be created for a monitor.
    GridCreationFailed { monitor_index: usize, source: GridError },
    /// No suitable monitors found for grid positioning.
    NoSuitableMonitors,
    /// Hotkey management failed.
    HotkeyError(HotkeyError),
    /// Keyboard capture failed.
    KeyboardCaptureError(KeyboardCaptureError),
}

/// A side effect the platform loop performs after a handler returns:
/// overlay visibility, capture installation, and window positioning
/// all happen outside the state lock.
#[derive(Debug, Clone, Copy, PartialEq, Eq, Structural)]
pub enum SideEffect {
    /// Show the grid overlays on all monitors.
    ShowOverlays,
    /// Hide the grid overlays on all monitors.
    HideOverlays,
    /// Mark the given monitor as the active one (it shows letters).
    SetActiveMonitor(usize),
    /// Redraw the grid overlays.
    RenderGrids,
    /// Install the keyboard interceptor.
    StartCapture,
    /// Remove the keyboard interceptor.
    StopCapture,
    /// Move the active window to the given rectangle.
    PositionWindow(Rect),
}

/// Whether capture is on after performing `effects`, starting from
/// `was_on`: the handlers never emit both a start and a stop.
pub open spec fn spec_capture_after(was_on: bool, effects: Seq<SideEffect>) -> bool {
    if effects.contains(SideEffect::StopCapture) {
        false
    } else if effects.contains(SideEffect::StartCapture) {
        true
    } else {
        was_on
    }
}

/// Whether a selection state only holds coordinates inside the grid.
pub open spec fn spec_selection_in_grid(state: SelectionState, g: Grid) -> bool {
    match state {
        SelectionState::NotStarted => true,
        SelectionState::InProgress { start } => g.spec_contains_coords(start),
        SelectionState::Complete { top_left, bottom_right } => g.spec_contains_coords(top_left)
            && g.spec_contains_coords(bottom_right),
    }
}

/// The pixel rectangle of a normalized selection on a grid.
pub open spec fn spec_selection_rect(g: Grid, top_left: GridCoords, bottom_right: GridCoords) -> Rect {
    g.spec_span_rect(
        top_left.row as int,
        top_left.col as int,
        bottom_right.row as int,
        bottom_right.col as int,
    )
}

/// The overlay effects implied by a state transition: entering the
/// selection mode shows the overlays, leaving it hides them.
pub open spec fn spec_transition_effects(old_state: AppState, new_state: AppState) -> Seq<
    SideEffect,
> {
    match (old_state, new_state) {
        (AppState::Idle, AppState::Selecting(_)) => seq![SideEffect::ShowOverlays],
        (AppState::Selecting(_), AppState::Idle) => seq![SideEffect::HideOverlays],
        _ => Seq::empty(),
    }
}

/// The effects of a hotkey toggle, given the state it produced.
pub open spec fn spec_hotkey_effects(new_state: AppState) -> Seq<SideEffect> {
    match new_state {
        AppState::Idle => seq![SideEffect::HideOverlays, SideEffect::StopCapture],
        AppState::Selecting(s) => seq![
            SideEffect::SetActiveMonitor(s.active_monitor_index),
            SideEffect::ShowOverlays,
            SideEffect::StartCapture,
        ],
    }
}

/// The effects of a navigation event, given the state it produced.
pub open spec fn spec_navigation_effects(new_state: AppState) -> Seq<SideEffect> {
    match new_state {
        AppState::Selecting(s) => seq![
            SideEffect::SetActiveMonitor(s.active_monitor_index),
            SideEffect::RenderGrids,
        ],
        AppState::Idle => Seq::empty(),
    }
}

/// The effects of applying the selection: position the window when a
/// completed selection names a rectangle, then always tear down the
/// modal state.
pub open spec fn spec_apply_effects(state: AppState, grids: Seq<Grid>) -> Seq<SideEffect> {
    match state {
        AppState::Selecting(s) => match s.selection.view_state() {
            SelectionState::Complete { top_left, bottom_right } => seq![
                SideEffect::PositionWindow(
                    spec_selection_rect(
                        grids[s.active_monitor_index as int],
                        top_left,
                        bottom_right,
                    ),
                ),
                SideEffect::HideOverlays,
                SideEffect::StopCapture,
            ],
            _ => seq![SideEffect::HideOverlays, SideEffect::StopCapture],
        },
        AppState::Idle => seq![SideEffect::HideOverlays, SideEffect::StopCapture],
    }
}

/// The state and effects a key press produces. A key outside the
/// active grid is ignored silently. The first valid key starts the
/// selection, the second completes it and positions the window, and a
/// key arriving on an already completed selection cancels the episode.
pub open spec fn spec_key_press_step(state: AppState, grids: Seq<Grid>, key: char) -> (
    AppState,
    Seq<SideEffect>,
) {
    match state {
        AppState::Idle => (state, Seq::empty()),
        AppState::Selecting(s) => {
            let g = grids[s.active_monitor_index as int];
            match g.layout_spec().spec_key_to_coords(key) {
                Err(_) => (state, Seq::empty()),
                Ok(coords) => match s.selection.view_state() {
                    SelectionState::NotStarted => (
                        AppState::Selecting(
                            SelectingState {
                                selection: Selection::spec_selection(
                                    SelectionState::InProgress { start: coords },
                                ),
                                ..s
                            },
                        ),
                        seq![SideEffect::RenderGrids],
                    ),
                    SelectionState::InProgress { start } => {
                        let corners = spec_normalize(start, coords);
                        (
                            AppState::Idle,
                            seq![
                                SideEffect::PositionWindow(
                                    spec_selection_rect(g, corners.0, corners.1),
                                ),
                                SideEffect::HideOverlays,
                                SideEffect::StopCapture,
                            ],
                        )
                    },
                    SelectionState::Complete { .. } => (
                        AppState::Idle,
                        seq![SideEffect::HideOverlays, SideEffect::StopCapture],
                    ),
                },
            }
        },
    }
}

/// A captured navigation direction, as the state machine names it.
pub open spec fn spec_nav_direction(direction: capture::NavigationDirection) -> NavigationDirection {
    match direction {
        capture::NavigationDirection::Left => NavigationDirection::Left,
        capture::NavigationDirection::Right => NavigationDirection::Right,
        capture::NavigationDirection::Up => NavigationDirection::Up,
        capture::NavigationDirection::Down => NavigationDirection::Down,
    }
}

/// Capture bookkeeping for the controller: at most one capture guard,
/// bound to the main window.
pub struct KeyboardCaptureManager {
    capture: Option<KeyboardCaptureGuard>,
    main_window: u64,
}

impl KeyboardCaptureManager {
    /// Whether a capture guard is currently held, for contracts.
    pub closed spec fn capturing_spec(&self) -> bool {
        self.capture is Some
    }

    /// The window key events are posted to, for contracts.
    pub closed spec fn window_spec(&self) -> u64 {
        self.main_window
    }

    /// Creates a manager with no active capture.
    pub fn new(main_window: u64) -> (r: KeyboardCaptureManager)
        ensures
            !r.capturing_spec(),
            r.window_spec() == main_window,
    {
        KeyboardCaptureManager { capture: None, main_window }
    }

    /// Starts keyboard capture; idempotent.
    pub fn start_capture(&mut self) -> (r: Result<(), KeyboardCaptureError>)
        ensures
            r is Ok,
            final(self).capturing_spec(),
            final(self).window_spec() == old(self).window_spec(),
    {
        if self.capture.is_none() {
            let guard = match KeyboardCaptureGuard::new(self.main_window) {
                Ok(guard) => guard,
                Err(e) => {
                    return Err(e);
                },
            };
            self.capture = Some(guard);
        }
        Ok(())
    }

    /// Stops keyboard capture; idempotent.
    pub fn stop_capture(&mut self)
        ensures
            !final(self).capturing_spec(),
            final(self).window_spec() == old(self).window_spec(),
    {
        self.capture = None;
    }

    /// Whether capture is currently active.
    pub fn is_capturing(&self) -> (r: bool)
        ensures
            r == self.capturing_spec(),
    {
        match &self.capture {
            Some(guard) => guard.is_capturing(),
            None => false,
        }
    }

    /// The message identifier keyboard events are posted under.
    pub fn message_id() -> (r: u32)
        ensures
            r == KEY_EVENT_MESSAGE_ID,
    {
        KeyboardCaptureGuard::message_id()
    }

    /// Parses a posted keyboard message into its classified key event.
    pub fn parse_message(wparam: usize) -> (r: Option<KeyEvent>)
        requires
            wparam <= u32::MAX,
        ensures
            r == Some(spec_classify_vk(wparam as u32)),
    {
        KeyboardCaptureGuard::parse_message(wparam)
    }
}

/// Whether `g` is the controller's default grid over a monitor's work
/// area.
pub open spec fn spec_default_grid_for(g: Grid, m: Monitor) -> bool {
    &&& g.rows_spec() == DEFAULT_GRID_ROWS
    &&& g.cols_spec() == DEFAULT_GRID_COLS
    &&& g.screen_area_spec() == m.work_area
    &&& g.cell_width_spec() == spec_cell_width(m.work_area, DEFAULT_GRID_COLS)
    &&& g.cell_height_spec() == spec_cell_height(m.work_area, DEFAULT_GRID_ROWS)
}

/// Main application controller: the shared state, the stable monitor
/// and grid configuration, and the capture bookkeeping.
pub struct AppController {
    /// Current application state.
    state: AppState,
    /// Available monitors (stable configuration).
    monitors: Vec<Monitor>,
    /// Grid instances per monitor (stable configuration).
    grids: Vec<Grid>,
    /// Keyboard capture management, bound to the main window that
    /// receives the posted key events.
    keyboard_capture: KeyboardCaptureManager,
}

impl AppController {
    /// The current state, for contracts.
    pub closed spec fn state_spec(&self) -> AppState {
        self.state
    }

    /// The monitor configuration, for contracts.
    pub closed spec fn monitors_spec(&self) -> Seq<Monitor> {
        self.monitors@
    }

    /// The grid configuration, for contracts.
    pub closed spec fn grids_spec(&self) -> Seq<Grid> {
        self.grids@
    }

    /// Whether keyboard capture is active, for contracts.
    pub closed spec fn capture_on_spec(&self) -> bool {
        self.keyboard_capture.capturing_spec()
    }

    /// The main window handle, for contracts.
    pub closed spec fn main_window_spec(&self) -> u64 {
        self.keyboard_capture.window_spec()
    }

    /// A controller is well-formed when it has one grid per monitor,
    /// at least one monitor, and, while selecting, an active monitor
    /// index inside the configuration and selection coordinates inside
    /// the active grid.
    pub open spec fn wf(&self) -> bool {
        &&& self.grids_spec().len() == self.monitors_spec().len()
        &&& self.grids_spec().len() >= 1
        &&& match self.state_spec() {
            AppState::Selecting(s) => s.active_monitor_index < self.grids_spec().len()
                && spec_selection_in_grid(
                s.selection.view_state(),
                self.grids_spec()[s.active_monitor_index as int],
            ),
            AppState::Idle => true,
        }
    }

    /// Creates a controller over the given monitors: one default grid
    /// per monitor, idle, with capture off. Fails with
    /// `NoSuitableMonitors` when no monitor is given and with
    /// `GridCreationFailed` when a monitor cannot hold the default
    /// grid.
    pub fn new(main_window: u64, monitors: Vec<Monitor>) -> (r: Result<AppController, AppError>)
        requires
            forall|i: int|
                0 <= i < monitors@.len() ==> valid_screen_area(#[trigger] monitors@[i].work_area),
        ensures
            r is Ok <==> monitors@.len() > 0 && (forall|i: int|
                0 <= i < monitors@.len() ==> spec_grid_accepts(
                    DEFAULT_GRID_ROWS,
                    DEFAULT_GRID_COLS,
                    #[trigger] monitors@[i].work_area,
                    MIN_CELL_WIDTH,
                    MIN_CELL_HEIGHT,
                )),
            monitors@.len() == 0 ==> r == Err::<AppController, AppError>(
                AppError::NoSuitableMonitors,
            ),
            r matches Ok(c) ==> {
                &&& c.wf()
                &&& c.state_spec() is Idle
                &&& c.monitors_spec() == monitors@
                &&& c.grids_spec().len() == monitors@.len()
                &&& (forall|i: int|
                    0 <= i < monitors@.len() ==> spec_default_grid_for(
                        #[trigger] c.grids_spec()[i],
                        monitors@[i],
                    ))
                &&& !c.capture_on_spec()
                &&& c.main_window_spec() == main_window
            },
            monitors@.len() > 0 ==> (r matches Err(e) ==> exists|i: int|
                0 <= i < monitors@.len() && !spec_grid_accepts(
                    DEFAULT_GRID_ROWS,
                    DEFAULT_GRID_COLS,
                    #[trigger] monitors@[i].work_area,
                    MIN_CELL_WIDTH,
                    MIN_CELL_HEIGHT,
                ) && e == (AppError::GridCreationFailed {
                    monitor_index: i as usize,
                    source: spec_grid_error(
                        DEFAULT_GRID_ROWS,
                        DEFAULT_GRID_COLS,
                        monitors@[i].work_area,
                        MIN_CELL_WIDTH,
                        MIN_CELL_HEIGHT,
                    ),
                })),
    {
        if monitors.len() == 0 {
            return Err(AppError::NoSuitableMonitors);
        }

        let mut grids: Vec<Grid> = Vec::new();
        let mut i: usize = 0;
        while i < monitors.len()
            invariant
                0 <= i <= monitors@.len(),
                monitors@.len() > 0,
                grids@.len() == i,
                forall|j: int|
                    0 <= j < monitors@.len() ==> valid_screen_area(
                        #[trigger] monitors@[j].work_area,
                    ),
                forall|j: int|
                    0 <= j < i ==> spec_default_grid_for(#[trigger] grids@[j], monitors@[j]),
                forall|j: int|
                    0 <= j < i ==> spec_grid_accepts(
                        DEFAULT_GRID_ROWS,
                        DEFAULT_GRID_COLS,
                        #[trigger] monitors@[j].work_area,
                        MIN_CELL_WIDTH,
                        MIN_CELL_HEIGHT,
                    ),
            decreases monitors@.len() - i,
        {
            let monitor = &monitors[i];
            match Grid::new(DEFAULT_GRID_ROWS, DEFAULT_GRID_COLS, monitor.work_area) {
                Ok(grid) => {
                    grids.push(grid);
                },
                Err(source) => {
                    return Err(AppError::GridCreationFailed { monitor_index: i, source });
                },
            }
            i = i + 1;
        }

        Ok(AppController {
            state: AppState::Idle,
            monitors,
            grids,
            keyboard_capture: KeyboardCaptureManager::new(main_window),
        })
    }

    /// The current application state.
    pub fn get_state(&self) -> (r: AppState)
        ensures
            r == self.state_spec(),
    {
        self.state
    }

    /// The number of configured monitors.
    pub fn monitor_count(&self) -> (r: usize)
        ensures
            r == self.monitors_spec().len(),
    {
        self.monitors.len()
    }

    /// A reference to one monitor, by index.
    pub fn get_monitor(&self, index: usize) -> (r: Option<&Monitor>)
        ensures
            index < self.monitors_spec().len() ==> (r matches Some(m) && *m
                == self.monitors_spec()[index as int]),
            index >= self.monitors_spec().len() ==> r is None,
    {
        if index < self.monitors.len() {
            Some(&self.monitors[index])
        } else {
            None
        }
    }

    /// A reference to one grid, by monitor index.
    pub fn get_grid(&self, index: usize) -> (r: Option<&Grid>)
        ensures
            index < self.grids_spec().len() ==> (r matches Some(g) && *g
                == self.grids_spec()[index as int]),
            index >= self.grids_spec().len() ==> r is None,
    {
        if index < self.grids.len() {
            Some(&self.grids[index])
        } else {
            None
        }
    }

    /// Feeds the state machine one event and stores the new state.
    pub fn process_event(&mut self, event: StateEvent, now_ms: u64) -> (r: AppState)
        requires
            old(self).wf(),
        ensures
            final(self).wf(),
            r == spec_transition(
                old(self).state_spec(),
                event,
                old(self).monitors_spec().len() as usize,
                now_ms,
            ),
            final(self).state_spec() == r,
            final(self).monitors_spec() == old(self).monitors_spec(),
            final(self).grids_spec() == old(self).grids_spec(),
            final(self).capture_on_spec() == old(self).capture_on_spec(),
            final(self).main_window_spec() == old(self).main_window_spec(),
    {
        let monitor_count = self.monitors.len();
        let new_state = StateMachine::process_event(self.state, event, monitor_count, now_ms);
        proof {
            crate::selection::lemma_selection_is_its_state(
                SelectionState::NotStarted,
                Selection::spec_empty(),
                Selection::spec_empty(),
            );
        }
        self.state = new_state;
        new_state
    }

    /// The overlay effects implied by a state transition.
    pub fn handle_state_transition(&self, old_state: &AppState, new_state: &AppState) -> (r: Vec<
        SideEffect,
    >)
        ensures
            r@ == spec_transition_effects(*old_state, *new_state),
    {
        let mut effects: Vec<SideEffect> = Vec::new();
        match (old_state, new_state) {
            (AppState::Idle, AppState::Selecting(_)) => {
                effects.push(SideEffect::ShowOverlays);
            },
            (AppState::Selecting(_), AppState::Idle) => {
                effects.push(SideEffect::HideOverlays);
            },
            _ => {},
        }
        proof {
            assert(effects@ =~= spec_transition_effects(*old_state, *new_state));
        }
        effects
    }

    /// Handles a hotkey press: toggles between idle and selecting, and
    /// returns the overlay and capture effects the new state implies.
    pub fn handle_hotkey(&mut self, now_ms: u64) -> (r: Vec<SideEffect>)
        requires
            old(self).wf(),
        ensures
            final(self).wf(),
            final(self).state_spec() == spec_transition(
                old(self).state_spec(),
                StateEvent::HotkeyPressed,
                old(self).monitors_spec().len() as usize,
                now_ms,
            ),
            r@ == spec_hotkey_effects(final(self).state_spec()),
            final(self).monitors_spec() == old(self).monitors_spec(),
            final(self).grids_spec() == old(self).grids_spec(),
            final(self).main_window_spec() == old(self).main_window_spec(),
            final(self).capture_on_spec() == spec_capture_after(old(self).capture_on_spec(), r@),
    {
        let new_state = self.process_event(StateEvent::HotkeyPressed, now_ms);

        let mut effects: Vec<SideEffect> = Vec::new();
        match new_state {
            AppState::Idle => {
                effects.push(SideEffect::HideOverlays);
                effects.push(SideEffect::StopCapture);
                self.keyboard_capture.stop_capture();
            },
            AppState::Selecting(selecting) => {
                effects.push(SideEffect::SetActiveMonitor(selecting.active_monitor_index));
                effects.push(SideEffect::ShowOverlays);
                effects.push(SideEffect::StartCapture);
                let _ = self.keyboard_capture.start_capture();
            },
        }
        proof {
            assert(effects@ =~= spec_hotkey_effects(self.state_spec()));
        }
        effects
    }

    /// Handles a key press during selection. Keys outside the active
    /// grid are ignored silently; the first valid key starts the
    /// selection, the second completes it and applies it.
    pub fn handle_key_press(&mut self, key: char, now_ms: u64) -> (r: Vec<SideEffect>)
        requires
            old(self).wf(),
        ensures
            final(self).wf(),
            final(self).state_spec() == spec_key_press_step(
                old(self).state_spec(),
                old(self).grids_spec(),
                key,
            ).0,
            r@ == spec_key_press_step(old(self).state_spec(), old(self).grids_spec(), key).1,
            final(self).monitors_spec() == old(self).monitors_spec(),
            final(self).grids_spec() == old(self).grids_spec(),
            final(self).main_window_spec() == old(self).main_window_spec(),
            final(self).capture_on_spec() == spec_capture_after(old(self).capture_on_spec(), r@),
    {
        let current_state = self.get_state();
        let mut selecting = match current_state {
            AppState::Selecting(selecting) => selecting,
            AppState::Idle => {
                return Vec::new();
            },
        };

        let grid = match self.get_grid(selecting.active_monitor_index) {
            Some(grid) => grid,
            None => {
                return Vec::new();
            },
        };

        if !grid.contains_key(key) {
            return Vec::new();
        }

        let coords = match grid.key_to_coords(key) {
            Ok(coords) => coords,
            Err(_) => {
                return Vec::new();
            },
        };

        proof {
            use_type_invariant(grid);
        }

        match selecting.selection.add_coords(coords) {
            Ok(()) => {
                self.state = AppState::Selecting(selecting);
                if selecting.selection.is_complete() {
                    self.apply_selection(now_ms)
                } else {
                    let mut effects: Vec<SideEffect> = Vec::new();
                    effects.push(SideEffect::RenderGrids);
                    proof {
                        assert(effects@ =~= seq![SideEffect::RenderGrids]);
                        crate::selection::lemma_selection_is_its_state(
                            SelectionState::InProgress { start: coords },
                            selecting.selection,
                            Selection::spec_selection(
                                SelectionState::InProgress { start: coords },
                            ),
                        );
                    }
                    effects
                }
            },
            Err(_) => {
                let _ = self.process_event(StateEvent::SelectionCancelled, now_ms);
                let mut effects: Vec<SideEffect> = Vec::new();
                effects.push(SideEffect::HideOverlays);
                effects.push(SideEffect::StopCapture);
                self.keyboard_capture.stop_capture();
                proof {
                    assert(effects@ =~= seq![SideEffect::HideOverlays, SideEffect::StopCapture]);
                }
                effects
            },
        }
    }

    /// Handles a navigation event: switches the active monitor with
    /// wraparound, resetting the selection.
    pub fn handle_navigation(&mut self, direction: NavigationDirection, now_ms: u64) -> (r: Vec<
        SideEffect,
    >)
        requires
            old(self).wf(),
        ensures
            final(self).wf(),
            final(self).state_spec() == spec_transition(
                old(self).state_spec(),
                StateEvent::Navigation(direction),
                old(self).monitors_spec().len() as usize,
                now_ms,
            ),
            r@ == spec_navigation_effects(final(self).state_spec()),
            final(self).monitors_spec() == old(self).monitors_spec(),
            final(self).grids_spec() == old(self).grids_spec(),
            final(self).main_window_spec() == old(self).main_window_spec(),
            final(self).capture_on_spec() == old(self).capture_on_spec(),
    {
        let new_state = self.process_event(StateEvent::Navigation(direction), now_ms);

        let mut effects: Vec<SideEffect> = Vec::new();
        match new_state {
            AppState::Selecting(selecting) => {
                effects.push(SideEffect::SetActiveMonitor(selecting.active_monitor_index));
                effects.push(SideEffect::RenderGrids);
            },
            AppState::Idle => {},
        }
        proof {
            assert(effects@ =~= spec_navigation_effects(self.state_spec()));
        }
        effects
    }

    /// Handles the thirty-second timeout: returns to idle and tears
    /// the modal state down.
    pub fn handle_selection_timeout(&mut self, now_ms: u64) -> (r: Vec<SideEffect>)
        requires
            old(self).wf(),
        ensures
            final(self).wf(),
            final(self).state_spec() is Idle,
            r@ == seq![SideEffect::HideOverlays, SideEffect::StopCapture],
            final(self).monitors_spec() == old(self).monitors_spec(),
            final(self).grids_spec() == old(self).grids_spec(),
            final(self).main_window_spec() == old(self).main_window_spec(),
            !final(self).capture_on_spec(),
    {
        let new_state = self.process_event(StateEvent::SelectionTimedOut, now_ms);

        let mut effects: Vec<SideEffect> = Vec::new();
        match new_state {
            AppState::Idle => {
                effects.push(SideEffect::HideOverlays);
                effects.push(SideEffect::StopCapture);
                self.keyboard_capture.stop_capture();
            },
            AppState::Selecting(_) => {},
        }
        proof {
            assert(effects@ =~= seq![SideEffect::HideOverlays, SideEffect::StopCapture]);
        }
        effects
    }

    /// Handles Escape or another cancellation: returns to idle and
    /// tears the modal state down.
    pub fn handle_cancellation(&mut self, now_ms: u64) -> (r: Vec<SideEffect>)
        requires
            old(self).wf(),
        ensures
            final(self).wf(),
            final(self).state_spec() is Idle,
            r@ == seq![SideEffect::HideOverlays, SideEffect::StopCapture],
            final(self).monitors_spec() == old(self).monitors_spec(),
            final(self).grids_spec() == old(self).grids_spec(),
            final(self).main_window_spec() == old(self).main_window_spec(),
            !final(self).capture_on_spec(),
    {
        let new_state = self.process_event(StateEvent::SelectionCancelled, now_ms);

        let mut effects: Vec<SideEffect> = Vec::new();
        match new_state {
            AppState::Idle => {
                effects.push(SideEffect::HideOverlays);
                effects.push(SideEffect::StopCapture);
                self.keyboard_capture.stop_capture();
            },
            AppState::Selecting(_) => {},
        }
        proof {
            assert(effects@ =~= seq![SideEffect::HideOverlays, SideEffect::StopCapture]);
        }
        effects
    }

    /// Applies a completed selection: names the rectangle to position
    /// the active window into, then returns to idle and tears the
    /// modal state down. Without a completed selection nothing is
    /// positioned, but the teardown still happens.
    pub fn apply_selection(&mut self, now_ms: u64) -> (r: Vec<SideEffect>)
        requires
            old(self).wf(),
        ensures
            final(self).wf(),
            final(self).state_spec() is Idle,
            r@ == spec_apply_effects(old(self).state_spec(), old(self).grids_spec()),
            final(self).monitors_spec() == old(self).monitors_spec(),
            final(self).grids_spec() == old(self).grids_spec(),
            final(self).main_window_spec() == old(self).main_window_spec(),
            !final(self).capture_on_spec(),
    {
        let mut effects: Vec<SideEffect> = Vec::new();

        let current_state = self.get_state();
        match current_state {
            AppState::Selecting(selecting) => {
                proof {
                    use_type_invariant(&selecting.selection);
                }
                match selecting.selection.get_normalized_coords() {
                    Some((top_left, bottom_right)) => {
                        match self.get_grid(selecting.active_monitor_index) {
                            Some(grid) => {
                                match grid.coords_to_rect(top_left, bottom_right) {
                                    Ok(target_rect) => {
                                        effects.push(SideEffect::PositionWindow(target_rect));
                                    },
                                    Err(_) => {},
                                }
                            },
                            None => {},
                        }
                    },
                    None => {},
                }
            },
            AppState::Idle => {},
        }

        let _ = self.process_event(StateEvent::SelectionCompleted, now_ms);
        effects.push(SideEffect::HideOverlays);
        effects.push(SideEffect::StopCapture);
        self.keyboard_capture.stop_capture();

        proof {
            assert(effects@ =~= spec_apply_effects(old(self).state_spec(), old(self).grids_spec()));
        }
        effects
    }

    /// Dispatches a keyboard event posted by the interceptor: grid
    /// letters drive the selection, arrows navigate, Escape cancels,
    /// and an unmapped key cancels the selection rather than leaving a
    /// dead modal state.
    pub fn handle_keyboard_event(&mut self, wparam: usize, now_ms: u64) -> (r: Vec<SideEffect>)
        requires
            old(self).wf(),
            wparam <= u32::MAX,
        ensures
            final(self).wf(),
            final(self).monitors_spec() == old(self).monitors_spec(),
            final(self).grids_spec() == old(self).grids_spec(),
            final(self).main_window_spec() == old(self).main_window_spec(),
            final(self).capture_on_spec() == spec_capture_after(old(self).capture_on_spec(), r@),
            match spec_classify_vk(wparam as u32) {
                KeyEvent::GridKey(ch) => final(self).state_spec() == spec_key_press_step(
                    old(self).state_spec(),
                    old(self).grids_spec(),
                    ch,
                ).0 && r@ == spec_key_press_step(
                    old(self).state_spec(),
                    old(self).grids_spec(),
                    ch,
                ).1,
                KeyEvent::Navigation(direction) => final(self).state_spec() == spec_transition(
                    old(self).state_spec(),
                    StateEvent::Navigation(spec_nav_direction(direction)),
                    old(self).monitors_spec().len() as usize,
                    now_ms,
                ) && r@ == spec_navigation_effects(final(self).state_spec()),
                KeyEvent::Cancel => final(self).state_spec() is Idle && r@ == seq![
                    SideEffect::HideOverlays,
                    SideEffect::StopCapture,
                ],
                KeyEvent::Invalid(_) => final(self).state_spec() is Idle && r@ == seq![
                    SideEffect::HideOverlays,
                    SideEffect::StopCapture,
                ],
            },
    {
        match KeyboardCaptureManager::parse_message(wparam) {
            Some(KeyEvent::GridKey(ch)) => self.handle_key_press(ch, now_ms),
            Some(KeyEvent::Navigation(direction)) => {
                let app_direction = match direction {
                    capture::NavigationDirection::Left => NavigationDirection::Left,
                    capture::NavigationDirection::Right => NavigationDirection::Right,
                    capture::NavigationDirection::Up => NavigationDirection::Up,
                    capture::NavigationDirection::Down => NavigationDirection::Down,
                };
                self.handle_navigation(app_direction, now_ms)
            },
            Some(KeyEvent::Cancel) => self.handle_cancellation(now_ms),
            Some(KeyEvent::Invalid(_)) => self.handle_cancellation(now_ms),
            None => Vec::new(),
        }
    }

    /// Checks the thirty-second deadline: when it has passed, handles
    /// the timeout and reports that it did.
    pub fn check_timeout(&mut self, now_ms: u64) -> (r: (bool, Vec<SideEffect>))
        requires
            old(self).wf(),
        ensures
            final(self).wf(),
            r.0 == match old(self).state_spec() {
                AppState::Selecting(s) => now_ms >= s.selection_started + SELECTION_TIMEOUT_MS,
                AppState::Idle => false,
            },
            r.0 ==> final(self).state_spec() is Idle && r.1@ == seq![
                SideEffect::HideOverlays,
                SideEffect::StopCapture,
            ] && !final(self).capture_on_spec(),
            !r.0 ==> *final(self) == *old(self) && r.1@ == Seq::<SideEffect>::empty(),
            final(self).monitors_spec() == old(self).monitors_spec(),
            final(self).grids_spec() == old(self).grids_spec(),
            final(self).main_window_spec() == old(self).main_window_spec(),
    {
        let current_state = self.get_state();
        match current_state {
            AppState::Selecting(selecting) => {
                if selecting.is_timed_out(now_ms) {
                    let effects = self.handle_selection_timeout(now_ms);
                    (true, effects)
                } else {
                    (false, Vec::new())
                }
            },
            AppState::Idle => (false, Vec::new()),
        }
    }

    /// The message identifier keyboard events are posted under.
    pub fn get_keyboard_message_id() -> (r: u32)
        ensures
            r == KEY_EVENT_MESSAGE_ID,
    {
        KeyboardCaptureManager::message_id()
    }
}

} // verus!
