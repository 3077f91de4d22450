//! Window information and positioning decisions.
//!
//! The platform reads window state and moves windows; the decisions
//! about that state are made here on plain values. Window handles are
//! carried as plain numbers.

use crate::rect::Rect;
use vstd::prelude::*;

verus! {

/// Error types for window operations.
#[derive(Debug, Clone, PartialEq, Eq, Structural)]
pub enum WindowError {
    /// No active window found.
    NoActiveWindow,
    /// Failed to get window information.
    InfoFailed(u64),
    /// The window cannot be resized (dialog boxes and the like).
    NotResizable(u64),
    /// Failed to position the window.
    PositionFailed(u64),
    /// The window handle is invalid.
    InvalidHandle(u64),
}

/// Information about a window.
#[derive(Debug, Clone)]
pub struct WindowInfo {
    /// Window handle.
    pub handle: u64,
    /// Window title, if available.
    pub title: String,
    /// Current window rectangle in screen coordinates.
    pub rect: Rect,
    /// Whether the window can be resized.
    pub is_resizable: bool,
    /// Whether this is a child window.
    pub is_child: bool,
    /// Whether the window is currently maximized.
    pub is_maximized: bool,
}

/// Checks whether a window is suitable for grid positioning: it must
/// be resizable and must not be a child window.
pub fn is_window_suitable_for_positioning(info: &WindowInfo) -> (r: bool)
    ensures
        r == (info.is_resizable && !info.is_child),
{
    info.is_resizable && !info.is_child
}

/// The checks window positioning performs before moving a window:
/// a resizable window passes; a non-resizable one is rejected with
/// `NotResizable`. A maximized window must be restored first, which the
/// second component reports.
pub fn positioning_precheck(info: &WindowInfo) -> (r: (Result<(), WindowError>, bool))
    ensures
        info.is_resizable ==> r.0 is Ok,
        !info.is_resizable ==> r.0 == Err::<(), WindowError>(
            WindowError::NotResizable(info.handle),
        ),
        r.1 == (info.is_resizable && info.is_maximized),
{
    if !info.is_resizable {
        (Err(WindowError::NotResizable(info.handle)), false)
    } else {
        (Ok(()), info.is_maximized)
    }
}

} // verus!
