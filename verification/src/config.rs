//! Per-monitor grid configuration.
//!
//! The user-facing configuration surface: per-monitor grid dimensions
//! and minimum cell sizes, the bounds a monitor imposes on them, and a
//! store that keeps one sanitized configuration per monitor and builds
//! the grids from them.

use crate::grid::{
    Grid, GridError, spec_cell_height, spec_cell_width, spec_grid_accepts, spec_grid_error,
    valid_screen_area,
};
use crate::monitor::Monitor;
use crate::rect::Rect;
use vstd::prelude::*;

verus! {

/// Fewest columns a configured grid may have.
pub const MIN_COLS: u32 = 2;

/// Fewest rows a configured grid may have.
pub const MIN_ROWS: u32 = 2;

/// Most rows the keyboard layout can label.
pub const MAX_ROWS: u32 = 3;

/// Most columns the keyboard layout can label.
pub const MAX_COLS: u32 = 4;

/// Default minimum cell size, in pixels, for configured grids.
pub const DEFAULT_MIN_CELL: u32 = 300;

/// Smallest accepted minimum cell size, in pixels.
pub const MIN_CELL_LIMIT: u32 = 200;

/// Largest accepted minimum cell size, in pixels.
pub const MAX_CELL_LIMIT: u32 = 1200;

/// Orientation of a monitor, computed from its work area.
#[derive(Debug, Clone, Copy, PartialEq, Eq, Structural)]
pub enum ScreenOrientation {
    Landscape,
    Portrait,
}

/// The orientation of a work area: landscape when at least as wide as
/// it is tall.
pub open spec fn spec_orientation(rect: Rect) -> ScreenOrientation {
    if rect.w >= rect.h {
        ScreenOrientation::Landscape
    } else {
        ScreenOrientation::Portrait
    }
}

impl ScreenOrientation {
    /// Computes the orientation of a work area.
    pub fn from_rect(rect: &Rect) -> (r: ScreenOrientation)
        ensures
            r == spec_orientation(*rect),
    {
        if rect.w >= rect.h {
            ScreenOrientation::Landscape
        } else {
            ScreenOrientation::Portrait
        }
    }
}

/// A minimum cell size clamped into the accepted range.
pub open spec fn spec_sanitize(value: u32) -> u32 {
    if value < MIN_CELL_LIMIT {
        MIN_CELL_LIMIT
    } else if value > MAX_CELL_LIMIT {
        MAX_CELL_LIMIT
    } else {
        value
    }
}

/// How many cells of at least `min_size` pixels fit in `length` pixels.
pub open spec fn spec_capacity(length: i32, min_size: u32) -> int {
    if length <= 0 {
        0
    } else {
        length as int / (if min_size == 0 { 1int } else { min_size as int })
    }
}

/// Whether a monitor can hold the smallest configurable grid at the
/// given (unsanitized) minimum cell size.
pub open spec fn spec_bounds_ok(monitor: Monitor, min_w: u32, min_h: u32) -> bool {
    &&& spec_capacity(monitor.work_area.w, spec_sanitize(min_w)) >= MIN_COLS
    &&& spec_capacity(monitor.work_area.h, spec_sanitize(min_h)) >= MIN_ROWS
}

/// The bounds a monitor imposes at the given minimum cell size.
pub open spec fn spec_bounds(monitor: Monitor, min_w: u32, min_h: u32) -> GridBounds {
    let cap_cols = spec_capacity(monitor.work_area.w, spec_sanitize(min_w));
    let cap_rows = spec_capacity(monitor.work_area.h, spec_sanitize(min_h));
    GridBounds {
        min_cols: MIN_COLS,
        max_cols: if cap_cols <= MAX_COLS { cap_cols as u32 } else { MAX_COLS },
        min_rows: MIN_ROWS,
        max_rows: if cap_rows <= MAX_ROWS { cap_rows as u32 } else { MAX_ROWS },
    }
}

/// The error reported when a monitor cannot hold the smallest
/// configurable grid: the pixel spans it would need.
pub open spec fn spec_too_small_error(monitor: Monitor, min_w: u32, min_h: u32) -> GridConfigError {
    GridConfigError::MonitorTooSmall {
        monitor_index: monitor.index,
        needed_width: (MIN_COLS * spec_sanitize(min_w)) as u32,
        needed_height: (MIN_ROWS * spec_sanitize(min_h)) as u32,
    }
}

/// User-facing configuration for one monitor's grid.
#[derive(Debug, Clone, Copy, PartialEq, Eq, Structural)]
pub struct MonitorGridConfig {
    pub monitor_index: usize,
    pub cols: u32,
    pub rows: u32,
    pub min_cell_width: u32,
    pub min_cell_height: u32,
}

/// The default configuration for a monitor: dimensions chosen by
/// orientation, default minimum cell size.
pub open spec fn spec_default_config(monitor: Monitor) -> MonitorGridConfig {
    let dims = spec_orientation_defaults(spec_orientation(monitor.work_area));
    MonitorGridConfig {
        monitor_index: monitor.index,
        cols: dims.0,
        rows: dims.1,
        min_cell_width: DEFAULT_MIN_CELL,
        min_cell_height: DEFAULT_MIN_CELL,
    }
}

/// The default grid dimensions `(cols, rows)` for an orientation:
/// three by two for landscape, two by three for portrait.
pub open spec fn spec_orientation_defaults(orientation: ScreenOrientation) -> (u32, u32) {
    match orientation {
        ScreenOrientation::Landscape => (3u32, 2u32),
        ScreenOrientation::Portrait => (2u32, 3u32),
    }
}

/// A configuration with its dimensions clamped to what the monitor
/// allows at the configuration's own minimum cell size.
pub open spec fn spec_clamped_config(cfg: MonitorGridConfig, monitor: Monitor) -> MonitorGridConfig {
    let bounds = spec_bounds(monitor, cfg.min_cell_width, cfg.min_cell_height);
    MonitorGridConfig {
        cols: spec_clamp(cfg.cols, bounds.min_cols, bounds.max_cols),
        rows: spec_clamp(cfg.rows, bounds.min_rows, bounds.max_rows),
        ..cfg
    }
}

/// A value clamped into `[lo, hi]`.
pub open spec fn spec_clamp(value: u32, lo: u32, hi: u32) -> u32 {
    if value < lo {
        lo
    } else if value > hi {
        hi
    } else {
        value
    }
}

/// The grid dimensions `(rows, cols)` that `build_grid` derives from a
/// configuration on a monitor, after sanitizing the minimum cell size
/// and clamping to the monitor's bounds.
pub open spec fn spec_built_dims(cfg: MonitorGridConfig, monitor: Monitor) -> (u32, u32) {
    let sw = spec_sanitize(cfg.min_cell_width);
    let sh = spec_sanitize(cfg.min_cell_height);
    let bounds = spec_bounds(monitor, sw, sh);
    (
        spec_clamp(cfg.rows, bounds.min_rows, bounds.max_rows),
        spec_clamp(cfg.cols, bounds.min_cols, bounds.max_cols),
    )
}

/// Whether `g` is exactly the grid that `build_grid` constructs from
/// `cfg` on `monitor`.
pub open spec fn spec_grid_built_from(g: Grid, cfg: MonitorGridConfig, monitor: Monitor) -> bool {
    let dims = spec_built_dims(cfg, monitor);
    &&& g.rows_spec() == dims.0
    &&& g.cols_spec() == dims.1
    &&& g.screen_area_spec() == monitor.work_area
    &&& g.cell_width_spec() == spec_cell_width(monitor.work_area, dims.1)
    &&& g.cell_height_spec() == spec_cell_height(monitor.work_area, dims.0)
}

/// Whether `build_grid` succeeds for `cfg` on `monitor`.
pub open spec fn spec_build_accepts(cfg: MonitorGridConfig, monitor: Monitor) -> bool {
    let sw = spec_sanitize(cfg.min_cell_width);
    let sh = spec_sanitize(cfg.min_cell_height);
    let dims = spec_built_dims(cfg, monitor);
    &&& spec_bounds_ok(monitor, sw, sh)
    &&& spec_grid_accepts(dims.0, dims.1, monitor.work_area, sw, sh)
}

/// The error `build_grid` reports for `cfg` on `monitor`: the monitor
/// too small for the smallest configurable grid, or else the grid
/// constructor's own failure.
pub open spec fn spec_build_error(cfg: MonitorGridConfig, monitor: Monitor) -> GridConfigError {
    let sw = spec_sanitize(cfg.min_cell_width);
    let sh = spec_sanitize(cfg.min_cell_height);
    if !spec_bounds_ok(monitor, sw, sh) {
        spec_too_small_error(monitor, sw, sh)
    } else {
        GridConfigError::GridCreationFailed {
            monitor_index: monitor.index,
            source: spec_grid_error(
                spec_built_dims(cfg, monitor).0,
                spec_built_dims(cfg, monitor).1,
                monitor.work_area,
                sw,
                sh,
            ),
        }
    }
}

/// What stops `build_grids` on configurations `configs`, walking the
/// monitors in order: a monitor whose index has no stored
/// configuration stops it with a mismatch, a monitor whose stored
/// configuration cannot be built stops it with that build error, and
/// `None` means every monitor's grid builds.
pub open spec fn spec_grids_error(
    configs: Seq<MonitorGridConfig>,
    monitors: Seq<Monitor>,
) -> Option<GridConfigError>
    decreases monitors.len(),
{
    if monitors.len() == 0 {
        None
    } else {
        let m = monitors[0];
        if m.index >= configs.len() {
            Some(GridConfigError::MonitorMismatch)
        } else if !spec_build_accepts(configs[m.index as int], m) {
            Some(spec_build_error(configs[m.index as int], m))
        } else {
            spec_grids_error(configs, monitors.drop_first())
        }
    }
}

impl MonitorGridConfig {
    /// The default configuration for a monitor, by orientation.
    pub fn default_for_monitor(monitor: &Monitor) -> (r: MonitorGridConfig)
        ensures
            r == spec_default_config(*monitor),
    {
        let orientation = ScreenOrientation::from_rect(&monitor.work_area);
        let (cols, rows) = Self::orientation_defaults(orientation);
        MonitorGridConfig {
            monitor_index: monitor.index,
            cols,
            rows,
            min_cell_width: DEFAULT_MIN_CELL,
            min_cell_height: DEFAULT_MIN_CELL,
        }
    }

    /// The default grid dimensions `(cols, rows)` for an orientation.
    pub fn orientation_defaults(orientation: ScreenOrientation) -> (r: (u32, u32))
        ensures
            r == spec_orientation_defaults(orientation),
    {
        match orientation {
            ScreenOrientation::Landscape => (3, 2),
            ScreenOrientation::Portrait => (2, 3),
        }
    }

    /// Clamps a minimum cell size into the accepted range.
    pub fn sanitize_cell_dimension(value: u32) -> (r: u32)
        ensures
            r == spec_sanitize(value),
    {
        if value < MIN_CELL_LIMIT {
            MIN_CELL_LIMIT
        } else if value > MAX_CELL_LIMIT {
            MAX_CELL_LIMIT
        } else {
            value
        }
    }

    /// Resets dimensions and minimum cell size to the defaults for the
    /// monitor, keeping the monitor index.
    pub fn reset_to_defaults(&mut self, monitor: &Monitor)
        ensures
            *final(self) == (MonitorGridConfig {
                monitor_index: old(self).monitor_index,
                ..spec_default_config(*monitor)
            }),
    {
        let (cols, rows) = Self::orientation_defaults(
            ScreenOrientation::from_rect(&monitor.work_area),
        );
        self.cols = cols;
        self.rows = rows;
        self.min_cell_width = DEFAULT_MIN_CELL;
        self.min_cell_height = DEFAULT_MIN_CELL;
    }

    /// Clamps this configuration's dimensions to the bounds the monitor
    /// imposes at the configured minimum cell size. Fails, leaving the
    /// configuration unchanged, when the monitor cannot hold the
    /// smallest configurable grid.
    pub fn apply_bounds_from_monitor(&mut self, monitor: &Monitor) -> (r: Result<
        (),
        GridConfigError,
    >)
        ensures
            r is Ok <==> spec_bounds_ok(*monitor, old(self).min_cell_width, old(self).min_cell_height),
            r is Ok ==> *final(self) == spec_clamped_config(*old(self), *monitor),
            r matches Err(e) ==> *final(self) == *old(self) && e == spec_too_small_error(
                *monitor,
                old(self).min_cell_width,
                old(self).min_cell_height,
            ),
    {
        let bounds = match GridBounds::for_monitor(monitor, self.min_cell_width, self.min_cell_height) {
            Ok(bounds) => bounds,
            Err(e) => {
                return Err(e);
            },
        };
        self.cols = bounds.clamp_cols(self.cols);
        self.rows = bounds.clamp_rows(self.rows);
        Ok(())
    }

    /// Builds the grid this configuration describes on the monitor:
    /// the minimum cell size is sanitized, the dimensions are clamped
    /// to the monitor's bounds, and the grid is constructed over the
    /// monitor's work area.
    pub fn build_grid(&self, monitor: &Monitor) -> (r: Result<Grid, GridConfigError>)
        requires
            valid_screen_area(monitor.work_area),
        ensures
            r is Ok <==> spec_build_accepts(*self, *monitor),
            r matches Ok(g) ==> spec_grid_built_from(g, *self, *monitor),
            r matches Err(e) ==> e == spec_build_error(*self, *monitor),
    {
        let sanitized_width = Self::sanitize_cell_dimension(self.min_cell_width);
        let sanitized_height = Self::sanitize_cell_dimension(self.min_cell_height);
        let bounds = match GridBounds::for_monitor(monitor, sanitized_width, sanitized_height) {
            Ok(bounds) => bounds,
            Err(e) => {
                return Err(e);
            },
        };
        let cols = bounds.clamp_cols(self.cols);
        let rows = bounds.clamp_rows(self.rows);

        match Grid::with_min_cell_size(rows, cols, monitor.work_area, sanitized_width, sanitized_height) {
            Ok(grid) => Ok(grid),
            Err(source) => Err(GridConfigError::GridCreationFailed {
                monitor_index: monitor.index,
                source,
            }),
        }
    }

    /// The bounds a monitor imposes at the given minimum cell size.
    pub fn bounds_for_monitor(
        monitor: &Monitor,
        min_cell_width: u32,
        min_cell_height: u32,
    ) -> (r: Result<GridBounds, GridConfigError>)
        ensures
            r is Ok <==> spec_bounds_ok(*monitor, min_cell_width, min_cell_height),
            r matches Ok(bounds) ==> bounds == spec_bounds(*monitor, min_cell_width, min_cell_height),
            r matches Err(e) ==> e == spec_too_small_error(*monitor, min_cell_width, min_cell_height),
    {
        GridBounds::for_monitor(monitor, min_cell_width, min_cell_height)
    }
}

/// Bounds on grid dimensions for a monitor at a specific minimum cell
/// size.
#[derive(Debug, Clone, Copy, PartialEq, Eq, Structural)]
pub struct GridBounds {
    pub min_cols: u32,
    pub max_cols: u32,
    pub min_rows: u32,
    pub max_rows: u32,
}

impl GridBounds {
    /// Computes the bounds a monitor imposes at the given minimum cell
    /// size: the size is sanitized, then capacity caps the dimensions
    /// at what the keyboard layout supports. Fails when fewer than the
    /// smallest configurable grid fits.
    pub fn for_monitor(
        monitor: &Monitor,
        min_cell_width: u32,
        min_cell_height: u32,
    ) -> (r: Result<GridBounds, GridConfigError>)
        ensures
            r is Ok <==> spec_bounds_ok(*monitor, min_cell_width, min_cell_height),
            r matches Ok(bounds) ==> bounds == spec_bounds(*monitor, min_cell_width, min_cell_height),
            r matches Err(e) ==> e == spec_too_small_error(*monitor, min_cell_width, min_cell_height),
    {
        let width_req = MonitorGridConfig::sanitize_cell_dimension(min_cell_width);
        let height_req = MonitorGridConfig::sanitize_cell_dimension(min_cell_height);

        let max_cols_by_size = capacity_for(monitor.work_area.w, width_req);
        let max_rows_by_size = capacity_for(monitor.work_area.h, height_req);

        if max_cols_by_size < MIN_COLS || max_rows_by_size < MIN_ROWS {
            return Err(GridConfigError::MonitorTooSmall {
                monitor_index: monitor.index,
                needed_width: MIN_COLS * width_req,
                needed_height: MIN_ROWS * height_req,
            });
        }

        Ok(GridBounds {
            min_cols: MIN_COLS,
            max_cols: if max_cols_by_size <= MAX_COLS { max_cols_by_size } else { MAX_COLS },
            min_rows: MIN_ROWS,
            max_rows: if max_rows_by_size <= MAX_ROWS { max_rows_by_size } else { MAX_ROWS },
        })
    }

    /// Clamps a column count into this bound.
    pub fn clamp_cols(&self, value: u32) -> (r: u32)
        requires
            self.min_cols <= self.max_cols,
        ensures
            r == spec_clamp(value, self.min_cols, self.max_cols),
    {
        if value < self.min_cols {
            self.min_cols
        } else if value > self.max_cols {
            self.max_cols
        } else {
            value
        }
    }

    /// Clamps a row count into this bound.
    pub fn clamp_rows(&self, value: u32) -> (r: u32)
        requires
            self.min_rows <= self.max_rows,
        ensures
            r == spec_clamp(value, self.min_rows, self.max_rows),
    {
        if value < self.min_rows {
            self.min_rows
        } else if value > self.max_rows {
            self.max_rows
        } else {
            value
        }
    }
}

/// Errors of the configuration surface.
#[derive(Debug, Clone, PartialEq, Eq, Structural)]
pub enum GridConfigError {
    /// Configuration does not line up with the runtime monitors.
    MonitorMismatch,
    /// The monitor cannot satisfy the minimum cell size: it would need
    /// at least the given pixel spans for the smallest configurable
    /// grid.
    MonitorTooSmall { monitor_index: usize, needed_width: u32, needed_height: u32 },
    /// Grid creation failed for the monitor.
    GridCreationFailed { monitor_index: usize, source: GridError },
}

/// Store keeping one grid configuration per monitor, aligned with the
/// runtime monitor list.
#[derive(Debug, Clone, PartialEq, Eq)]
pub struct GridConfigStore {
    configs: Vec<MonitorGridConfig>,
}

/// A monitor's initial store entry: the orientation default, clamped
/// to the monitor's bounds.
pub open spec fn spec_initial_config(monitor: Monitor) -> MonitorGridConfig {
    spec_clamped_config(spec_default_config(monitor), monitor)
}

impl GridConfigStore {
    /// The stored configurations, for contracts.
    pub closed spec fn configs_spec(&self) -> Seq<MonitorGridConfig> {
        self.configs@
    }

    /// Creates a store with the default configuration of every
    /// monitor, clamped to that monitor's bounds. Fails with
    /// `MonitorMismatch` for an empty monitor list and with
    /// `MonitorTooSmall` when a monitor cannot hold the smallest
    /// configurable grid.
    pub fn new(monitors: &Vec<Monitor>) -> (r: Result<GridConfigStore, GridConfigError>)
        ensures
            r is Ok <==> monitors@.len() > 0 && (forall|i: int|
                0 <= i < monitors@.len() ==> spec_bounds_ok(
                    monitors@[i],
                    DEFAULT_MIN_CELL,
                    DEFAULT_MIN_CELL,
                )),
            monitors@.len() == 0 ==> r == Err::<GridConfigStore, GridConfigError>(
                GridConfigError::MonitorMismatch,
            ),
            r matches Ok(store) ==> store.configs_spec().len() == monitors@.len() && (forall|i: int|
                0 <= i < monitors@.len() ==> store.configs_spec()[i] == spec_initial_config(
                    monitors@[i],
                )),
            monitors@.len() > 0 ==> (r matches Err(e) ==> exists|i: int|
                0 <= i < monitors@.len() && !spec_bounds_ok(
                    monitors@[i],
                    DEFAULT_MIN_CELL,
                    DEFAULT_MIN_CELL,
                ) && e == spec_too_small_error(monitors@[i], DEFAULT_MIN_CELL, DEFAULT_MIN_CELL)),
    {
        if monitors.len() == 0 {
            return Err(GridConfigError::MonitorMismatch);
        }

        let mut configs: Vec<MonitorGridConfig> = Vec::new();
        let mut i: usize = 0;
        while i < monitors.len()
            invariant
                0 <= i <= monitors@.len(),
                configs@.len() == i,
                forall|j: int|
                    0 <= j < i ==> configs@[j] == spec_initial_config(monitors@[j]),
                forall|j: int|
                    0 <= j < i ==> spec_bounds_ok(monitors@[j], DEFAULT_MIN_CELL, DEFAULT_MIN_CELL),
            decreases monitors@.len() - i,
        {
            let monitor = &monitors[i];
            let mut config = MonitorGridConfig::default_for_monitor(monitor);
            match config.apply_bounds_from_monitor(monitor) {
                Ok(()) => {},
                Err(e) => {
                    return Err(e);
                },
            }
            configs.push(config);
            i = i + 1;
        }

        Ok(GridConfigStore { configs })
    }

    /// The stored configurations, one per monitor.
    pub fn configs(&self) -> (r: &Vec<MonitorGridConfig>)
        ensures
            r@ == self.configs_spec(),
    {
        &self.configs
    }

    /// The stored configuration for one monitor index.
    pub fn config_for(&self, monitor_index: usize) -> (r: Option<&MonitorGridConfig>)
        ensures
            monitor_index < self.configs_spec().len() ==> (r matches Some(cfg) && *cfg
                == self.configs_spec()[monitor_index as int]),
            monitor_index >= self.configs_spec().len() ==> r is None,
    {
        if monitor_index < self.configs.len() {
            Some(&self.configs[monitor_index])
        } else {
            None
        }
    }

    /// Replaces the stored configurations with sanitized versions of
    /// `updated`: each entry names its monitor, has its minimum cell
    /// size clamped into the accepted range, its dimensions raised to
    /// the configurable minimum and clamped to the monitor's bounds.
    /// Entries are applied in order until the first failure.
    pub fn update_configs(
        &mut self,
        monitors: &Vec<Monitor>,
        updated: Vec<MonitorGridConfig>,
    ) -> (r: Result<(), GridConfigError>)
        ensures
            (updated@.len() != monitors@.len() || updated@.len()
                != old(self).configs_spec().len()) ==> r == Err::<(), GridConfigError>(
                GridConfigError::MonitorMismatch,
            ) && final(self).configs_spec() == old(self).configs_spec(),
            updated@.len() == monitors@.len() && updated@.len() == old(self).configs_spec().len()
                ==> ({
                let folded = spec_update_fold(old(self).configs_spec(), monitors@, updated@);
                &&& final(self).configs_spec() == folded.0
                &&& r == match folded.1 {
                    Option::None => Ok::<(), GridConfigError>(()),
                    Option::Some(e) => Err::<(), GridConfigError>(e),
                }
            }),
    {
        if updated.len() != monitors.len() || updated.len() != self.configs.len() {
            return Err(GridConfigError::MonitorMismatch);
        }

        let ghost orig: Seq<MonitorGridConfig> = self.configs@;
        proof {
            assert(updated@.skip(0) =~= updated@);
        }
        let mut k: usize = 0;
        while k < updated.len()
            invariant
                0 <= k <= updated@.len(),
                monitors@.len() == updated@.len(),
                self.configs@.len() == updated@.len(),
                orig == old(self).configs_spec(),
                orig.len() == updated@.len(),
                spec_update_fold(orig, monitors@, updated@) == spec_update_fold(
                    self.configs@,
                    monitors@,
                    updated@.skip(k as int),
                ),
            decreases updated@.len() - k,
        {
            let ghost pre = self.configs@;
            let ghost rest = updated@.skip(k as int);
            let cfg = updated[k];
            let monitor_index = cfg.monitor_index;
            proof {
                assert(rest.len() > 0);
                assert(rest[0] == updated@[k as int]);
            }
            if monitor_index >= monitors.len() {
                proof {
                    assert(spec_update_fold(pre, monitors@, rest) == (
                        pre,
                        Some(GridConfigError::MonitorMismatch),
                    ));
                }
                return Err(GridConfigError::MonitorMismatch);
            }
            let monitor = &monitors[monitor_index];
            if monitor.index != monitor_index {
                proof {
                    assert(spec_update_fold(pre, monitors@, rest) == (
                        pre,
                        Some(GridConfigError::MonitorMismatch),
                    ));
                }
                return Err(GridConfigError::MonitorMismatch);
            }

            let mut sanitized = cfg;
            sanitized.min_cell_width = MonitorGridConfig::sanitize_cell_dimension(
                sanitized.min_cell_width,
            );
            sanitized.min_cell_height = MonitorGridConfig::sanitize_cell_dimension(
                sanitized.min_cell_height,
            );
            sanitized.cols = if sanitized.cols >= MIN_COLS { sanitized.cols } else { MIN_COLS };
            sanitized.rows = if sanitized.rows >= MIN_ROWS { sanitized.rows } else { MIN_ROWS };
            proof {
                assert(sanitized == spec_sanitized_update(rest[0]));
            }
            match sanitized.apply_bounds_from_monitor(monitor) {
                Ok(()) => {},
                Err(e) => {
                    proof {
                        assert(spec_update_fold(pre, monitors@, rest) == (pre, Some(e)));
                    }
                    return Err(e);
                },
            }
            self.configs.set(monitor_index, sanitized);
            proof {
                assert(rest.drop_first() =~= updated@.skip(k + 1));
                assert(self.configs@ =~= pre.update(
                    monitor_index as int,
                    spec_clamped_config(spec_sanitized_update(rest[0]), monitors@[monitor_index as int]),
                ));
                assert(spec_update_fold(pre, monitors@, rest) == spec_update_fold(
                    self.configs@,
                    monitors@,
                    rest.drop_first(),
                ));
            }
            k = k + 1;
        }
        proof {
            assert(updated@.skip(updated@.len() as int) =~= Seq::<MonitorGridConfig>::empty());
        }
        Ok(())
    }

    /// Builds one grid per monitor from the stored configurations: it
    /// succeeds exactly when the lengths line up and every monitor's
    /// stored configuration builds, and otherwise reports what stopped
    /// the first monitor that failed.
    pub fn build_grids(&self, monitors: &Vec<Monitor>) -> (r: Result<Vec<Grid>, GridConfigError>)
        requires
            forall|i: int| 0 <= i < monitors@.len() ==> valid_screen_area(
                #[trigger] monitors@[i].work_area,
            ),
        ensures
            self.configs_spec().len() != monitors@.len() ==> r == Err::<Vec<Grid>, GridConfigError>(
                GridConfigError::MonitorMismatch,
            ),
            self.configs_spec().len() == monitors@.len() ==> ({
                let failure = spec_grids_error(self.configs_spec(), monitors@);
                &&& (r is Ok <==> failure is None)
                &&& (r matches Err(e) ==> Some(e) == failure)
            }),
            r matches Ok(grids) ==> grids@.len() == monitors@.len() && (forall|i: int|
                0 <= i < monitors@.len() ==> #[trigger] monitors@[i].index
                    < self.configs_spec().len()) && (forall|i: int|
                0 <= i < monitors@.len() ==> spec_grid_built_from(
                    #[trigger] grids@[i],
                    self.configs_spec()[monitors@[i].index as int],
                    monitors@[i],
                )),
    {
        if self.configs.len() != monitors.len() {
            return Err(GridConfigError::MonitorMismatch);
        }

        proof {
            assert(monitors@.skip(0) =~= monitors@);
        }
        let mut grids: Vec<Grid> = Vec::new();
        let mut i: usize = 0;
        while i < monitors.len()
            invariant
                0 <= i <= monitors@.len(),
                self.configs_spec().len() == monitors@.len(),
                grids@.len() == i,
                spec_grids_error(self.configs_spec(), monitors@) == spec_grids_error(
                    self.configs_spec(),
                    monitors@.skip(i as int),
                ),
                forall|i2: int| 0 <= i2 < monitors@.len() ==> valid_screen_area(
                    #[trigger] monitors@[i2].work_area,
                ),
                forall|j: int|
                    0 <= j < i ==> #[trigger] monitors@[j].index < self.configs_spec().len(),
                forall|j: int|
                    0 <= j < i ==> spec_grid_built_from(
                        #[trigger] grids@[j],
                        self.configs_spec()[monitors@[j].index as int],
                        monitors@[j],
                    ),
            decreases monitors@.len() - i,
        {
            let ghost rest = monitors@.skip(i as int);
            let monitor = &monitors[i];
            proof {
                assert(rest.len() > 0);
                assert(rest[0] == monitors@[i as int]);
            }
            if monitor.index >= self.configs.len() {
                proof {
                    assert(spec_grids_error(self.configs_spec(), rest) == Some(
                        GridConfigError::MonitorMismatch,
                    ));
                }
                return Err(GridConfigError::MonitorMismatch);
            }
            proof {
                assert(monitors@[i as int].index < self.configs_spec().len());
            }
            let config = &self.configs[monitor.index];
            let grid = match config.build_grid(monitor) {
                Ok(grid) => grid,
                Err(e) => {
                    proof {
                        assert(spec_grids_error(self.configs_spec(), rest) == Some(e));
                    }
                    return Err(e);
                },
            };
            proof {
                assert(spec_grid_built_from(
                    grid,
                    self.configs_spec()[monitors@[i as int].index as int],
                    monitors@[i as int],
                ));
                assert(rest.drop_first() =~= monitors@.skip(i + 1));
                assert(spec_grids_error(self.configs_spec(), rest) == spec_grids_error(
                    self.configs_spec(),
                    rest.drop_first(),
                ));
            }
            grids.push(grid);
            proof {
                assert(grids@.len() == i + 1);
                assert(grids@[i as int] == grid);
            }
            i = i + 1;
        }

        proof {
            assert(monitors@.skip(monitors@.len() as int) =~= Seq::<Monitor>::empty());
        }
        Ok(grids)
    }
}

/// The result of applying a list of configuration updates in order:
/// the configurations after the applied prefix, and the error that
/// stopped the processing, if one did.
pub open spec fn spec_update_fold(
    configs: Seq<MonitorGridConfig>,
    monitors: Seq<Monitor>,
    updated: Seq<MonitorGridConfig>,
) -> (Seq<MonitorGridConfig>, Option<GridConfigError>)
    decreases updated.len(),
{
    if updated.len() == 0 {
        (configs, None)
    } else {
        let cfg = updated[0];
        let idx = cfg.monitor_index;
        if idx >= monitors.len() || monitors[idx as int].index != idx || idx >= configs.len() {
            (configs, Some(GridConfigError::MonitorMismatch))
        } else {
            let sanitized = spec_sanitized_update(cfg);
            if !spec_bounds_ok(
                monitors[idx as int],
                sanitized.min_cell_width,
                sanitized.min_cell_height,
            ) {
                (
                    configs,
                    Some(
                        spec_too_small_error(
                            monitors[idx as int],
                            sanitized.min_cell_width,
                            sanitized.min_cell_height,
                        ),
                    ),
                )
            } else {
                spec_update_fold(
                    configs.update(idx as int, spec_clamped_config(sanitized, monitors[idx as int])),
                    monitors,
                    updated.drop_first(),
                )
            }
        }
    }
}

/// An update entry after sanitization: minimum cell size clamped into
/// the accepted range, dimensions raised to the configurable minimum.
pub open spec fn spec_sanitized_update(cfg: MonitorGridConfig) -> MonitorGridConfig {
    MonitorGridConfig {
        min_cell_width: spec_sanitize(cfg.min_cell_width),
        min_cell_height: spec_sanitize(cfg.min_cell_height),
        cols: if cfg.cols >= MIN_COLS { cfg.cols } else { MIN_COLS },
        rows: if cfg.rows >= MIN_ROWS { cfg.rows } else { MIN_ROWS },
        ..cfg
    }
}

/// How many cells of at least `min_size` pixels fit in `length`
/// pixels; a degenerate minimum counts as one pixel.
fn capacity_for(length: i32, min_size: u32) -> (r: u32)
    ensures
        r == spec_capacity(length, min_size),
{
    if length <= 0 {
        return 0;
    }

    let min_size = if min_size >= 1 { min_size } else { 1 };
    (length as u32) / min_size
}

} // verus!
