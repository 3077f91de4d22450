//! Grid geometry and cell calculations.
//!
//! A grid divides a rectangular screen area into `rows x cols` cells.
//! Each cell is identified by grid coordinates `(row, col)`, converted to
//! screen pixel rectangles, and labeled by the embedded keyboard layout.

use crate::keyboard::{GridCoords, QwertyLayout, spec_key_at};
use crate::rect::Rect;
use vstd::prelude::*;

verus! {

/// Minimum cell width in pixels for the default constructor.
pub const MIN_CELL_WIDTH: u32 = 480;

/// Minimum cell height in pixels for the default constructor.
pub const MIN_CELL_HEIGHT: u32 = 360;

/// Errors that can occur during grid operations.
#[derive(Debug, Clone, PartialEq, Eq, Structural)]
pub enum GridError {
    /// Grid dimensions are invalid (zero, or beyond what the keyboard
    /// layout supports).
    InvalidDimensions { rows: u32, cols: u32 },
    /// Screen area is too small for the minimum cell requirements.
    ScreenTooSmall {
        screen_width: u32,
        screen_height: u32,
        min_cell_width: u32,
        min_cell_height: u32,
    },
    /// Grid coordinates are outside the valid range.
    InvalidCoordinates { coords: GridCoords, max_row: u32, max_col: u32 },
    /// Calculated cell dimensions would be invalid.
    InvalidCellSize { width: u32, height: u32 },
}

/// A screen area a grid can be built over: non-negative extent, with
/// both far edges representable as `i32`.
pub open spec fn valid_screen_area(area: Rect) -> bool {
    &&& area.w >= 0
    &&& area.h >= 0
    &&& area.x + area.w <= i32::MAX
    &&& area.y + area.h <= i32::MAX
}

/// The cell width a grid over `area` with `cols` columns would have.
pub open spec fn spec_cell_width(area: Rect, cols: u32) -> int {
    area.w as int / cols as int
}

/// The cell height a grid over `area` with `rows` rows would have.
pub open spec fn spec_cell_height(area: Rect, rows: u32) -> int {
    area.h as int / rows as int
}

/// Whether grid construction succeeds for these dimensions, area and
/// minimum cell size.
pub open spec fn spec_grid_accepts(
    rows: u32,
    cols: u32,
    area: Rect,
    min_w: u32,
    min_h: u32,
) -> bool {
    &&& rows >= 1
    &&& cols >= 1
    &&& spec_cell_width(area, cols) >= min_w
    &&& spec_cell_height(area, rows) >= min_h
    &&& spec_cell_width(area, cols) >= 1
    &&& spec_cell_height(area, rows) >= 1
    &&& rows <= 3
    &&& cols <= 4
}

/// The error grid construction reports when it fails: zero dimensions
/// first, then a too-small screen, then a degenerate cell size, then
/// dimensions the keyboard layout cannot label.
pub open spec fn spec_grid_error(
    rows: u32,
    cols: u32,
    area: Rect,
    min_w: u32,
    min_h: u32,
) -> GridError {
    if rows == 0 || cols == 0 {
        GridError::InvalidDimensions { rows, cols }
    } else if spec_cell_width(area, cols) < min_w || spec_cell_height(area, rows) < min_h {
        GridError::ScreenTooSmall {
            screen_width: area.w as u32,
            screen_height: area.h as u32,
            min_cell_width: min_w,
            min_cell_height: min_h,
        }
    } else if spec_cell_width(area, cols) == 0 || spec_cell_height(area, rows) == 0 {
        GridError::InvalidCellSize {
            width: spec_cell_width(area, cols) as u32,
            height: spec_cell_height(area, rows) as u32,
        }
    } else {
        GridError::InvalidDimensions { rows, cols }
    }
}

/// A logical grid overlaid on a screen area, immutable once built.
#[derive(Debug, Clone, Copy, PartialEq, Eq, Structural)]
pub struct Grid {
    /// Number of rows in the grid.
    rows: u32,
    /// Number of columns in the grid.
    cols: u32,
    /// The screen area this grid covers, in screen coordinates.
    screen_area: Rect,
    /// Width of each cell in pixels.
    cell_width: u32,
    /// Height of each cell in pixels.
    cell_height: u32,
    /// Associated keyboard layout for this grid.
    keyboard_layout: QwertyLayout,
}

impl Grid {
    /// Number of rows, for contracts.
    pub closed spec fn rows_spec(&self) -> u32 {
        self.rows
    }

    /// Number of columns, for contracts.
    pub closed spec fn cols_spec(&self) -> u32 {
        self.cols
    }

    /// The covered screen area, for contracts.
    pub closed spec fn screen_area_spec(&self) -> Rect {
        self.screen_area
    }

    /// Cell width in pixels, for contracts.
    pub closed spec fn cell_width_spec(&self) -> u32 {
        self.cell_width
    }

    /// Cell height in pixels, for contracts.
    pub closed spec fn cell_height_spec(&self) -> u32 {
        self.cell_height
    }

    /// The embedded keyboard layout, for contracts.
    pub closed spec fn layout_spec(&self) -> QwertyLayout {
        self.keyboard_layout
    }

    /// Every grid is internally consistent: supported dimensions, a
    /// well-formed screen area, derived cell sizes, and a keyboard
    /// layout matching the grid dimensions.
    #[verifier::type_invariant]
    pub open spec fn wf(&self) -> bool {
        &&& 1 <= self.rows_spec() <= 3
        &&& 1 <= self.cols_spec() <= 4
        &&& valid_screen_area(self.screen_area_spec())
        &&& self.cell_width_spec() == spec_cell_width(self.screen_area_spec(), self.cols_spec())
        &&& self.cell_height_spec() == spec_cell_height(self.screen_area_spec(), self.rows_spec())
        &&& self.cell_width_spec() >= 1
        &&& self.cell_height_spec() >= 1
        &&& self.layout_spec().cols_spec() == self.cols_spec()
        &&& self.layout_spec().rows_spec() == self.rows_spec()
    }

    /// The pixel rectangle of the bounding box of the cells from
    /// `(min_row, min_col)` to `(max_row, max_col)` inclusive.
    pub open spec fn spec_span_rect(&self, min_row: int, min_col: int, max_row: int, max_col: int) -> Rect {
        Rect {
            x: (self.screen_area_spec().x + min_col * self.cell_width_spec()) as i32,
            y: (self.screen_area_spec().y + min_row * self.cell_height_spec()) as i32,
            w: ((max_col - min_col + 1) * self.cell_width_spec()) as i32,
            h: ((max_row - min_row + 1) * self.cell_height_spec()) as i32,
        }
    }

    /// The pixel rectangle of the single cell at `coords`.
    pub open spec fn spec_cell_rect(&self, coords: GridCoords) -> Rect {
        self.spec_span_rect(coords.row as int, coords.col as int, coords.row as int, coords.col as int)
    }

    /// Whether `coords` lies inside this grid.
    pub open spec fn spec_contains_coords(&self, coords: GridCoords) -> bool {
        coords.row < self.rows_spec() && coords.col < self.cols_spec()
    }

    /// The out-of-range error this grid reports for `coords`.
    pub open spec fn spec_coords_error(&self, coords: GridCoords) -> GridError {
        GridError::InvalidCoordinates {
            coords,
            max_row: (self.rows_spec() - 1) as u32,
            max_col: (self.cols_spec() - 1) as u32,
        }
    }

    /// Creates a new grid for the specified screen area, using the
    /// default minimum cell size. Fails with `InvalidDimensions` for a
    /// zero or unsupported dimension and with `ScreenTooSmall` when a
    /// derived cell would be smaller than the minimum.
    pub fn new(rows: u32, cols: u32, screen_area: Rect) -> (r: Result<Grid, GridError>)
        requires
            valid_screen_area(screen_area),
        ensures
            r is Ok <==> spec_grid_accepts(rows, cols, screen_area, MIN_CELL_WIDTH, MIN_CELL_HEIGHT),
            r matches Ok(g) ==> {
                &&& g.rows_spec() == rows
                &&& g.cols_spec() == cols
                &&& g.screen_area_spec() == screen_area
                &&& g.cell_width_spec() == spec_cell_width(screen_area, cols)
                &&& g.cell_height_spec() == spec_cell_height(screen_area, rows)
            },
            r matches Err(e) ==> e == spec_grid_error(
                rows,
                cols,
                screen_area,
                MIN_CELL_WIDTH,
                MIN_CELL_HEIGHT,
            ),
    {
        Grid::with_min_cell_size(rows, cols, screen_area, MIN_CELL_WIDTH, MIN_CELL_HEIGHT)
    }

    /// Creates a new grid with an explicit minimum cell size, for the
    /// configurable construction path.
    pub fn with_min_cell_size(
        rows: u32,
        cols: u32,
        screen_area: Rect,
        min_cell_width: u32,
        min_cell_height: u32,
    ) -> (r: Result<Grid, GridError>)
        requires
            valid_screen_area(screen_area),
        ensures
            r is Ok <==> spec_grid_accepts(rows, cols, screen_area, min_cell_width, min_cell_height),
            r matches Ok(g) ==> {
                &&& g.rows_spec() == rows
                &&& g.cols_spec() == cols
                &&& g.screen_area_spec() == screen_area
                &&& g.cell_width_spec() == spec_cell_width(screen_area, cols)
                &&& g.cell_height_spec() == spec_cell_height(screen_area, rows)
            },
            r matches Err(e) ==> e == spec_grid_error(
                rows,
                cols,
                screen_area,
                min_cell_width,
                min_cell_height,
            ),
    {
        if rows == 0 || cols == 0 {
            return Err(GridError::InvalidDimensions { rows, cols });
        }

        let screen_width = screen_area.w as u32;
        let screen_height = screen_area.h as u32;
        let cell_width = screen_width / cols;
        let cell_height = screen_height / rows;

        if cell_width < min_cell_width || cell_height < min_cell_height {
            return Err(GridError::ScreenTooSmall {
                screen_width,
                screen_height,
                min_cell_width,
                min_cell_height,
            });
        }

        if cell_width == 0 || cell_height == 0 {
            return Err(GridError::InvalidCellSize { width: cell_width, height: cell_height });
        }

        let keyboard_layout = match QwertyLayout::new(cols, rows) {
            Ok(layout) => layout,
            Err(_) => {
                return Err(GridError::InvalidDimensions { rows, cols });
            },
        };

        Ok(Grid { rows, cols, screen_area, cell_width, cell_height, keyboard_layout })
    }

    /// Returns the grid dimensions as `(rows, cols)`.
    pub fn dimensions(&self) -> (r: (u32, u32))
        ensures
            r.0 == self.rows_spec(),
            r.1 == self.cols_spec(),
    {
        (self.rows, self.cols)
    }

    /// Returns the screen area this grid covers.
    pub fn screen_area(&self) -> (r: Rect)
        ensures
            r == self.screen_area_spec(),
    {
        self.screen_area
    }

    /// Returns the pixel dimensions of each cell as `(width, height)`.
    pub fn cell_size(&self) -> (r: (u32, u32))
        ensures
            r.0 == self.cell_width_spec(),
            r.1 == self.cell_height_spec(),
    {
        (self.cell_width, self.cell_height)
    }

    /// Returns the keyboard layout associated with this grid.
    pub fn keyboard_layout(&self) -> (r: &QwertyLayout)
        ensures
            *r == self.layout_spec(),
    {
        &self.keyboard_layout
    }

    /// Gets the keyboard key labeling the cell at `coords`.
    pub fn key_for_coords(&self, coords: GridCoords) -> (r: Result<char, GridError>)
        ensures
            self.spec_contains_coords(coords) ==> r == Ok::<char, GridError>(
                spec_key_at(coords.row as int, coords.col as int),
            ),
            !self.spec_contains_coords(coords) ==> r == Err::<char, GridError>(
                self.spec_coords_error(coords),
            ),
    {
        proof {
            use_type_invariant(self);
        }
        if !self.contains_coords(coords) {
            return Err(GridError::InvalidCoordinates {
                coords,
                max_row: self.rows - 1,
                max_col: self.cols - 1,
            });
        }

        match self.keyboard_layout.coords_to_key(coords) {
            Ok(key) => Ok(key),
            Err(_) => Err(GridError::InvalidCoordinates {
                coords,
                max_row: self.rows - 1,
                max_col: self.cols - 1,
            }),
        }
    }

    /// Converts grid coordinates to the screen rectangle of that cell.
    pub fn cell_rect(&self, coords: GridCoords) -> (r: Result<Rect, GridError>)
        ensures
            self.spec_contains_coords(coords) ==> r == Ok::<Rect, GridError>(
                self.spec_cell_rect(coords),
            ),
            !self.spec_contains_coords(coords) ==> r == Err::<Rect, GridError>(
                self.spec_coords_error(coords),
            ),
    {
        proof {
            use_type_invariant(self);
        }
        if coords.row >= self.rows || coords.col >= self.cols {
            return Err(GridError::InvalidCoordinates {
                coords,
                max_row: self.rows - 1,
                max_col: self.cols - 1,
            });
        }

        proof {
            lemma_cell_span_bound(
                coords.col as int,
                1,
                self.cols as int,
                self.cell_width as int,
                self.screen_area.w as int,
            );
            lemma_cell_span_bound(
                coords.row as int,
                1,
                self.rows as int,
                self.cell_height as int,
                self.screen_area.h as int,
            );
        }

        let x = self.screen_area.x + ((coords.col * self.cell_width) as i32);
        let y = self.screen_area.y + ((coords.row * self.cell_height) as i32);

        Ok(Rect::new(x, y, self.cell_width as i32, self.cell_height as i32))
    }

    /// Converts a keyboard key to the rectangle of the corresponding cell.
    pub fn key_to_rect(&self, key: char) -> (r: Result<Rect, GridError>)
        ensures
            match self.layout_spec().spec_key_to_coords(key) {
                Ok(coords) => r == Ok::<Rect, GridError>(self.spec_cell_rect(coords)),
                Err(_) => r == Err::<Rect, GridError>(
                    self.spec_coords_error(GridCoords { row: 0, col: 0 }),
                ),
            },
    {
        proof {
            use_type_invariant(self);
        }
        let coords = match self.keyboard_layout.key_to_coords(key) {
            Ok(coords) => coords,
            Err(_) => {
                return Err(GridError::InvalidCoordinates {
                    coords: GridCoords::new(0, 0),
                    max_row: self.rows - 1,
                    max_col: self.cols - 1,
                });
            },
        };

        self.cell_rect(coords)
    }

    /// Returns all valid keyboard keys for this grid, in row-major order.
    pub fn valid_keys(&self) -> (r: Vec<char>)
        ensures
            r@.len() == self.rows_spec() * self.cols_spec(),
            forall|i: int|
                0 <= i < r@.len() ==> r@[i] == spec_key_at(
                    i / (self.cols_spec() as int),
                    i % (self.cols_spec() as int),
                ),
    {
        proof {
            use_type_invariant(self);
        }
        self.keyboard_layout.valid_keys()
    }

    /// Checks whether the given grid coordinates are valid for this grid.
    pub fn contains_coords(&self, coords: GridCoords) -> (r: bool)
        ensures
            r == self.spec_contains_coords(coords),
    {
        coords.row < self.rows && coords.col < self.cols
    }

    /// Checks whether the given keyboard key labels a cell of this grid.
    pub fn contains_key(&self, key: char) -> (r: bool)
        ensures
            r == (self.layout_spec().spec_key_to_coords(key) is Ok),
    {
        proof {
            use_type_invariant(self);
        }
        self.keyboard_layout.key_to_coords(key).is_ok()
    }

    /// Converts a keyboard key to grid coordinates.
    pub fn key_to_coords(&self, key: char) -> (r: Result<GridCoords, GridError>)
        ensures
            match self.layout_spec().spec_key_to_coords(key) {
                Ok(coords) => r == Ok::<GridCoords, GridError>(coords),
                Err(_) => r == Err::<GridCoords, GridError>(
                    self.spec_coords_error(GridCoords { row: 0, col: 0 }),
                ),
            },
    {
        proof {
            use_type_invariant(self);
        }
        match self.keyboard_layout.key_to_coords(key) {
            Ok(coords) => Ok(coords),
            Err(_) => Err(GridError::InvalidCoordinates {
                coords: GridCoords::new(0, 0),
                max_row: self.rows - 1,
                max_col: self.cols - 1,
            }),
        }
    }

    /// Creates the bounding rectangle of the two cells at `start` and
    /// `end`: the smallest pixel rectangle covering both, whatever the
    /// order of the arguments.
    pub fn coords_to_rect(&self, start: GridCoords, end: GridCoords) -> (r: Result<Rect, GridError>)
        ensures
            !self.spec_contains_coords(start) ==> r == Err::<Rect, GridError>(
                self.spec_coords_error(start),
            ),
            self.spec_contains_coords(start) && !self.spec_contains_coords(end) ==> r == Err::<
                Rect,
                GridError,
            >(self.spec_coords_error(end)),
            self.spec_contains_coords(start) && self.spec_contains_coords(end) ==> r == Ok::<
                Rect,
                GridError,
            >(
                ({
                    let min_row = if start.row <= end.row { start.row as int } else { end.row as int };
                    let max_row = if start.row >= end.row { start.row as int } else { end.row as int };
                    let min_col = if start.col <= end.col { start.col as int } else { end.col as int };
                    let max_col = if start.col >= end.col { start.col as int } else { end.col as int };
                    self.spec_span_rect(min_row, min_col, max_row, max_col)
                }),
            ),
    {
        proof {
            use_type_invariant(self);
        }
        if !self.contains_coords(start) {
            return Err(GridError::InvalidCoordinates {
                coords: start,
                max_row: self.rows - 1,
                max_col: self.cols - 1,
            });
        }

        if !self.contains_coords(end) {
            return Err(GridError::InvalidCoordinates {
                coords: end,
                max_row: self.rows - 1,
                max_col: self.cols - 1,
            });
        }

        let min_row = if start.row <= end.row { start.row } else { end.row };
        let max_row = if start.row >= end.row { start.row } else { end.row };
        let min_col = if start.col <= end.col { start.col } else { end.col };
        let max_col = if start.col >= end.col { start.col } else { end.col };

        let selection_rows = max_row - min_row + 1;
        let selection_cols = max_col - min_col + 1;

        proof {
            lemma_cell_span_bound(
                min_col as int,
                selection_cols as int,
                self.cols as int,
                self.cell_width as int,
                self.screen_area.w as int,
            );
            lemma_cell_span_bound(
                min_row as int,
                selection_rows as int,
                self.rows as int,
                self.cell_height as int,
                self.screen_area.h as int,
            );
        }

        let selection_width = selection_cols * self.cell_width;
        let selection_height = selection_rows * self.cell_height;

        let x = self.screen_area.x + ((min_col * self.cell_width) as i32);
        let y = self.screen_area.y + ((min_row * self.cell_height) as i32);

        Ok(Rect::new(x, y, selection_width as i32, selection_height as i32))
    }

    /// Creates the bounding rectangle of the cells labeled by two
    /// keyboard keys.
    pub fn keys_to_rect(&self, start_key: char, end_key: char) -> (r: Result<Rect, GridError>)
        ensures
            match (
                self.layout_spec().spec_key_to_coords(start_key),
                self.layout_spec().spec_key_to_coords(end_key),
            ) {
                (Ok(start), Ok(end)) => r == Ok::<Rect, GridError>(
                    ({
                        let min_row = if start.row <= end.row { start.row as int } else { end.row as int };
                        let max_row = if start.row >= end.row { start.row as int } else { end.row as int };
                        let min_col = if start.col <= end.col { start.col as int } else { end.col as int };
                        let max_col = if start.col >= end.col { start.col as int } else { end.col as int };
                        self.spec_span_rect(min_row, min_col, max_row, max_col)
                    }),
                ),
                _ => r == Err::<Rect, GridError>(
                    self.spec_coords_error(GridCoords { row: 0, col: 0 }),
                ),
            },
    {
        proof {
            use_type_invariant(self);
        }
        let start_coords = match self.keyboard_layout.key_to_coords(start_key) {
            Ok(coords) => coords,
            Err(_) => {
                return Err(GridError::InvalidCoordinates {
                    coords: GridCoords::new(0, 0),
                    max_row: self.rows - 1,
                    max_col: self.cols - 1,
                });
            },
        };

        let end_coords = match self.keyboard_layout.key_to_coords(end_key) {
            Ok(coords) => coords,
            Err(_) => {
                return Err(GridError::InvalidCoordinates {
                    coords: GridCoords::new(0, 0),
                    max_row: self.rows - 1,
                    max_col: self.cols - 1,
                });
            },
        };

        self.coords_to_rect(start_coords, end_coords)
    }
}

/// A span of `count` cells starting at cell `first` stays inside the
/// screen extent: with `cell == extent / total` and
/// `first + count <= total`, the span `count * cell` starting at offset
/// `first * cell` ends at or before `extent`.
proof fn lemma_cell_span_bound(first: int, count: int, total: int, cell: int, extent: int)
    requires
        0 <= first,
        1 <= count,
        first + count <= total,
        1 <= total,
        0 <= extent,
        cell == extent / total,
    ensures
        0 <= first * cell,
        0 <= count * cell,
        first * cell + count * cell <= extent,
{
    assert(cell >= 0) by (nonlinear_arith)
        requires
            extent >= 0,
            total >= 1,
            cell == extent / total,
    ;
    assert(total * cell <= extent) by (nonlinear_arith)
        requires
            extent >= 0,
            total >= 1,
            cell == extent / total,
    ;
    assert(first * cell >= 0 && count * cell >= 0 && first * cell + count * cell <= total * cell)
        by (nonlinear_arith)
        requires
            0 <= first,
            1 <= count,
            first + count <= total,
            cell >= 0,
    ;
}

} // verus!
