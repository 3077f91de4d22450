//! Application state and the modal state machine.
//!
//! The application is either `Idle` or `Selecting`. Transitions are a
//! pure function of the current state, the event, the monitor count and
//! the current time, so they are deterministic and testable without any
//! platform dependency. Timestamps are plain milliseconds supplied by
//! the caller; the selection deadline is absolute, thirty seconds after
//! the selection started.

use crate::selection::Selection;
use vstd::prelude::*;

verus! {

/// The modal selection deadline, in milliseconds.
pub const SELECTION_TIMEOUT_MS: u64 = 30000;

/// Main application state: idle, or actively selecting grid cells.
#[derive(Debug, Clone, Copy, PartialEq, Eq, Structural)]
pub enum AppState {
    /// Waiting for hotkey activation.
    Idle,
    /// The user is actively selecting grid cells.
    Selecting(SelectingState),
}

/// Transient state during an active selection episode.
#[derive(Debug, Clone, Copy, PartialEq, Eq, Structural)]
pub struct SelectingState {
    /// Index of the currently active monitor (where letters are shown).
    pub active_monitor_index: usize,
    /// Current selection progress.
    pub selection: Selection,
    /// When the selection started, in milliseconds; the absolute
    /// deadline is thirty seconds later, and navigation does not
    /// extend it.
    pub selection_started: u64,
}

impl SelectingState {
    /// Creates a new selecting state on the given monitor, started at
    /// `now_ms`.
    pub fn new(active_monitor_index: usize, now_ms: u64) -> (r: SelectingState)
        ensures
            r == (SelectingState {
                active_monitor_index,
                selection: Selection::spec_empty(),
                selection_started: now_ms,
            }),
            r.selection.view_state() is NotStarted,
    {
        SelectingState {
            active_monitor_index,
            selection: Selection::new(),
            selection_started: now_ms,
        }
    }

    /// Whether the selection has reached its absolute thirty-second
    /// deadline at time `now_ms`.
    pub fn is_timed_out(&self, now_ms: u64) -> (r: bool)
        ensures
            r == (now_ms >= self.selection_started + SELECTION_TIMEOUT_MS),
    {
        now_ms >= self.selection_started && now_ms - self.selection_started
            >= SELECTION_TIMEOUT_MS
    }

    /// Seconds remaining before the automatic timeout at time `now_ms`.
    pub fn remaining_timeout(&self, now_ms: u64) -> (r: u64)
        ensures
            now_ms <= self.selection_started ==> r == SELECTION_TIMEOUT_MS / 1000,
            now_ms > self.selection_started ==> r == ({
                let elapsed_s = (now_ms - self.selection_started) / 1000;
                if elapsed_s >= SELECTION_TIMEOUT_MS / 1000 {
                    0int
                } else {
                    SELECTION_TIMEOUT_MS / 1000 - elapsed_s
                }
            }),
    {
        if now_ms <= self.selection_started {
            return SELECTION_TIMEOUT_MS / 1000;
        }
        let elapsed_s = (now_ms - self.selection_started) / 1000;
        if elapsed_s >= SELECTION_TIMEOUT_MS / 1000 {
            0
        } else {
            SELECTION_TIMEOUT_MS / 1000 - elapsed_s
        }
    }

    /// Switches to a different monitor during selection, resetting the
    /// selection progress but keeping the original deadline.
    pub fn switch_monitor(&mut self, monitor_index: usize)
        ensures
            *final(self) == (SelectingState {
                active_monitor_index: monitor_index,
                selection: Selection::spec_empty(),
                selection_started: old(self).selection_started,
            }),
            final(self).selection.view_state() is NotStarted,
    {
        self.active_monitor_index = monitor_index;
        self.selection.reset();
    }
}

impl Default for AppState {
    /// The initial application state is idle.
    fn default() -> (r: AppState)
        ensures
            r is Idle,
    {
        AppState::Idle
    }
}

/// Events the state machine reacts to.
#[derive(Debug, Clone, Copy, PartialEq, Eq, Structural)]
pub enum StateEvent {
    /// The global hotkey was pressed.
    HotkeyPressed,
    /// A grid key was pressed; the controller validates it against the
    /// active grid, so the state machine itself leaves the state as is.
    KeyPressed(char),
    /// An arrow key was pressed.
    Navigation(NavigationDirection),
    /// Escape was pressed or the selection was cancelled.
    SelectionCancelled,
    /// The selection completed successfully.
    SelectionCompleted,
    /// The selection reached its thirty-second deadline.
    SelectionTimedOut,
}

/// Navigation directions for monitor switching.
#[derive(Debug, Clone, Copy, PartialEq, Eq, Structural)]
pub enum NavigationDirection {
    Left,
    Right,
    Up,
    Down,
}

/// The monitor index reached by navigating from `index` among
/// `monitor_count` monitors: left and right wrap around, up and down
/// are reserved and leave the index unchanged.
pub open spec fn spec_navigate(
    index: usize,
    direction: NavigationDirection,
    monitor_count: usize,
) -> int {
    match direction {
        NavigationDirection::Left => if index > 0 {
            index - 1
        } else if monitor_count > 0 {
            monitor_count - 1
        } else {
            0
        },
        NavigationDirection::Right => if index + 1 < monitor_count {
            index + 1
        } else {
            0
        },
        NavigationDirection::Up => index as int,
        NavigationDirection::Down => index as int,
    }
}

/// The pure transition function of the state machine. `now_ms` only
/// stamps a freshly started selection episode.
pub open spec fn spec_transition(
    state: AppState,
    event: StateEvent,
    monitor_count: usize,
    now_ms: u64,
) -> AppState {
    match (state, event) {
        (AppState::Idle, StateEvent::HotkeyPressed) => AppState::Selecting(
            SelectingState {
                active_monitor_index: 0,
                selection: Selection::spec_empty(),
                selection_started: now_ms,
            },
        ),
        (AppState::Selecting(selecting), StateEvent::KeyPressed(_)) => AppState::Selecting(
            selecting,
        ),
        (AppState::Selecting(selecting), StateEvent::Navigation(direction)) => AppState::Selecting(
            SelectingState {
                active_monitor_index: spec_navigate(
                    selecting.active_monitor_index,
                    direction,
                    monitor_count,
                ) as usize,
                selection: Selection::spec_empty(),
                selection_started: selecting.selection_started,
            },
        ),
        (AppState::Selecting(_), StateEvent::SelectionCompleted) => AppState::Idle,
        (AppState::Selecting(_), StateEvent::SelectionCancelled) => AppState::Idle,
        (AppState::Selecting(_), StateEvent::SelectionTimedOut) => AppState::Idle,
        (AppState::Selecting(_), StateEvent::HotkeyPressed) => AppState::Idle,
        (s, _) => s,
    }
}

/// State machine for application state transitions.
pub struct StateMachine;

impl StateMachine {
    /// Creates a new state machine instance.
    pub fn new() -> StateMachine {
        StateMachine
    }

    /// Processes a state event and returns the new state. This is a
    /// pure function of its arguments: identical inputs always yield
    /// identical outputs.
    pub fn process_event(
        current_state: AppState,
        event: StateEvent,
        monitor_count: usize,
        now_ms: u64,
    ) -> (r: AppState)
        ensures
            r == spec_transition(current_state, event, monitor_count, now_ms),
    {
        match (current_state, event) {
            (AppState::Idle, StateEvent::HotkeyPressed) => {
                AppState::Selecting(SelectingState::new(0, now_ms))
            },
            (AppState::Selecting(selecting), StateEvent::KeyPressed(_key)) => {
                AppState::Selecting(selecting)
            },
            (AppState::Selecting(selecting), StateEvent::Navigation(direction)) => {
                let new_monitor_index: usize = match direction {
                    NavigationDirection::Left => {
                        if selecting.active_monitor_index > 0 {
                            selecting.active_monitor_index - 1
                        } else if monitor_count > 0 {
                            monitor_count - 1
                        } else {
                            0
                        }
                    },
                    NavigationDirection::Right => {
                        if selecting.active_monitor_index < monitor_count
                            && selecting.active_monitor_index + 1 < monitor_count {
                            selecting.active_monitor_index + 1
                        } else {
                            0
                        }
                    },
                    NavigationDirection::Up | NavigationDirection::Down => {
                        selecting.active_monitor_index
                    },
                };

                let mut selecting = selecting;
                selecting.switch_monitor(new_monitor_index);
                AppState::Selecting(selecting)
            },
            (AppState::Selecting(_), StateEvent::SelectionCompleted) => AppState::Idle,
            (AppState::Selecting(_), StateEvent::SelectionCancelled) => AppState::Idle,
            (AppState::Selecting(_), StateEvent::SelectionTimedOut) => AppState::Idle,
            (AppState::Selecting(_), StateEvent::HotkeyPressed) => AppState::Idle,
            (state, _) => state,
        }
    }
}

/// While idle, every event other than the hotkey leaves the state
/// unchanged.
pub proof fn lemma_idle_ignores_other_events(
    event: StateEvent,
    monitor_count: usize,
    now_ms: u64,
)
    requires
        event != StateEvent::HotkeyPressed,
    ensures
        spec_transition(AppState::Idle, event, monitor_count, now_ms) == AppState::Idle,
{
}

/// Navigation wraps around the monitor range: going left from the first
/// monitor reaches the last one, going right from the last reaches the
/// first, and otherwise left and right move by one.
pub proof fn lemma_navigation_wraparound(index: usize, monitor_count: usize)
    requires
        index < monitor_count,
    ensures
        index == 0 ==> spec_navigate(index, NavigationDirection::Left, monitor_count)
            == monitor_count - 1,
        index > 0 ==> spec_navigate(index, NavigationDirection::Left, monitor_count) == index - 1,
        index == monitor_count - 1 ==> spec_navigate(
            index,
            NavigationDirection::Right,
            monitor_count,
        ) == 0,
        index < monitor_count - 1 ==> spec_navigate(
            index,
            NavigationDirection::Right,
            monitor_count,
        ) == index + 1,
{
}

} // verus!
