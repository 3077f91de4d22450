//! Monitors as the grid logic sees them.
//!
//! The platform enumerates physical monitors and hands them over as
//! plain values: a stable index, the work area in real pixels (the
//! usable region excluding reserved OS chrome), and the primary flag.

use crate::rect::Rect;
use vstd::prelude::*;

verus! {

/// A monitor with the information needed for grid calculations.
#[derive(Debug, Clone, Copy, PartialEq, Eq, Structural)]
pub struct Monitor {
    /// Zero-based index for stable identification.
    pub index: usize,
    /// Work area in real pixels (excluding the taskbar).
    pub work_area: Rect,
    /// Whether this is the primary monitor.
    pub is_primary: bool,
}

impl Monitor {
    /// Returns true if this monitor can support a grid with the given
    /// dimensions while keeping each cell at least the minimum size.
    pub fn can_support_grid(
        &self,
        grid_cols: u32,
        grid_rows: u32,
        min_cell_width: i32,
        min_cell_height: i32,
    ) -> (r: bool)
        requires
            1 <= grid_cols <= i32::MAX,
            1 <= grid_rows <= i32::MAX,
            self.work_area.w >= 0,
            self.work_area.h >= 0,
        ensures
            r == (self.work_area.w as int / grid_cols as int >= min_cell_width
                && self.work_area.h as int / grid_rows as int >= min_cell_height),
    {
        let cell_width = self.work_area.w / (grid_cols as i32);
        let cell_height = self.work_area.h / (grid_rows as i32);

        cell_width >= min_cell_width && cell_height >= min_cell_height
    }

    /// Returns true if this monitor should be rejected because its
    /// work area is shorter than the given minimum height.
    pub fn should_reject(&self, min_height: i32) -> (r: bool)
        ensures
            r == (self.work_area.h < min_height),
    {
        self.work_area.h < min_height
    }
}

/// Error types for monitor operations. Handles are carried as plain
/// numbers.
#[derive(Debug, Clone, PartialEq, Eq, Structural)]
pub enum MonitorError {
    /// Failed to enumerate monitors.
    EnumerationFailed,
    /// Failed to get information for a monitor.
    InfoFailed(u64),
    /// Failed to get DPI information for a monitor.
    DpiFailed(u64),
    /// No monitors found during enumeration.
    NoMonitors,
    /// Monitor not found at the specified location.
    MonitorNotFound,
    /// Failed to look up monitor information.
    MonitorLookupFailed,
}

} // verus!
