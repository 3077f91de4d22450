//! Keyboard-driven window snapping: a per-monitor grid is labeled with
//! home-row letters, a modal selection picks one or two cells, and the
//! resulting rectangle is handed to the platform for window placement.
//!
//! Everything algorithmic lives here, verified: rectangle math, the
//! QWERTY key/cell mapping, the two-step selection protocol, the modal
//! state machine with its 30-second deadline, grid configuration, and the
//! controller's dispatch logic. Platform plumbing (hooks, overlay windows,
//! the message loop) stays outside and talks to this crate in plain values.

pub mod capture;
pub mod config;
pub mod controller;
pub mod grid;
pub mod hotkeys;
pub mod keyboard;
pub mod monitor;
pub mod platform;
pub mod rect;
pub mod selection;
pub mod state;
pub mod window;
