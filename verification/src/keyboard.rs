//! QWERTY keyboard layout mapping for grid-based selection.
//!
//! Converts keyboard input to grid coordinates and back. The mapping is
//! case-insensitive, always speaks in `(row, col)` coordinates, and is an
//! exact inverse of itself within the active grid bounds.

use vstd::prelude::*;

verus! {

/// Error types for keyboard layout operations.
#[derive(Debug, Clone, PartialEq, Eq, Structural)]
pub enum KeyboardError {
    /// Key that is not in the current layout.
    InvalidKey(char),
    /// Requested grid size not supported by this layout.
    UnsupportedGridSize { cols: u32, rows: u32 },
}

/// Grid coordinates representing a `(row, col)` position.
///
/// Zero-based, starting from the top-left: `(0,0)` is the top-left cell,
/// `(0,1)` the top row's second column, `(1,0)` the second row's first
/// column.
#[derive(Debug, Clone, Copy, PartialEq, Eq, Structural)]
pub struct GridCoords {
    pub row: u32,
    pub col: u32,
}

impl GridCoords {
    /// Creates new grid coordinates.
    pub fn new(row: u32, col: u32) -> (r: GridCoords)
        ensures
            r == (GridCoords { row, col }),
    {
        GridCoords { row, col }
    }
}

/// ASCII uppercase of a character: lowercase letters fold, everything
/// else is unchanged.
pub open spec fn spec_upper(c: char) -> char {
    match c {
        'a' => 'A',
        'b' => 'B',
        'c' => 'C',
        'd' => 'D',
        'e' => 'E',
        'f' => 'F',
        'g' => 'G',
        'h' => 'H',
        'i' => 'I',
        'j' => 'J',
        'k' => 'K',
        'l' => 'L',
        'm' => 'M',
        'n' => 'N',
        'o' => 'O',
        'p' => 'P',
        'q' => 'Q',
        'r' => 'R',
        's' => 'S',
        't' => 'T',
        'u' => 'U',
        'v' => 'V',
        'w' => 'W',
        'x' => 'X',
        'y' => 'Y',
        'z' => 'Z',
        _ => c,
    }
}

/// Position of an uppercase letter in the fixed physical table:
/// row 0 is `Q W E R T Y U I O P`, row 1 is `A S D F G H J K L`,
/// row 2 is `Z X C V B N M`. Other characters have no position.
pub open spec fn spec_key_position(c: char) -> Option<GridCoords> {
    match c {
        'Q' => Some(GridCoords { row: 0, col: 0 }),
        'W' => Some(GridCoords { row: 0, col: 1 }),
        'E' => Some(GridCoords { row: 0, col: 2 }),
        'R' => Some(GridCoords { row: 0, col: 3 }),
        'T' => Some(GridCoords { row: 0, col: 4 }),
        'Y' => Some(GridCoords { row: 0, col: 5 }),
        'U' => Some(GridCoords { row: 0, col: 6 }),
        'I' => Some(GridCoords { row: 0, col: 7 }),
        'O' => Some(GridCoords { row: 0, col: 8 }),
        'P' => Some(GridCoords { row: 0, col: 9 }),
        'A' => Some(GridCoords { row: 1, col: 0 }),
        'S' => Some(GridCoords { row: 1, col: 1 }),
        'D' => Some(GridCoords { row: 1, col: 2 }),
        'F' => Some(GridCoords { row: 1, col: 3 }),
        'G' => Some(GridCoords { row: 1, col: 4 }),
        'H' => Some(GridCoords { row: 1, col: 5 }),
        'J' => Some(GridCoords { row: 1, col: 6 }),
        'K' => Some(GridCoords { row: 1, col: 7 }),
        'L' => Some(GridCoords { row: 1, col: 8 }),
        'Z' => Some(GridCoords { row: 2, col: 0 }),
        'X' => Some(GridCoords { row: 2, col: 1 }),
        'C' => Some(GridCoords { row: 2, col: 2 }),
        'V' => Some(GridCoords { row: 2, col: 3 }),
        'B' => Some(GridCoords { row: 2, col: 4 }),
        'N' => Some(GridCoords { row: 2, col: 5 }),
        'M' => Some(GridCoords { row: 2, col: 6 }),
        _ => None,
    }
}

/// The letter standing at `(row, col)` of the fixed physical table, or
/// `'\0'` where the table has no letter.
pub open spec fn spec_key_at(row: int, col: int) -> char {
    if row == 0 {
        if col == 0 { 'Q' }
        else if col == 1 { 'W' }
        else if col == 2 { 'E' }
        else if col == 3 { 'R' }
        else if col == 4 { 'T' }
        else if col == 5 { 'Y' }
        else if col == 6 { 'U' }
        else if col == 7 { 'I' }
        else if col == 8 { 'O' }
        else if col == 9 { 'P' }
        else { '\0' }
    } else if row == 1 {
        if col == 0 { 'A' }
        else if col == 1 { 'S' }
        else if col == 2 { 'D' }
        else if col == 3 { 'F' }
        else if col == 4 { 'G' }
        else if col == 5 { 'H' }
        else if col == 6 { 'J' }
        else if col == 7 { 'K' }
        else if col == 8 { 'L' }
        else { '\0' }
    } else if row == 2 {
        if col == 0 { 'Z' }
        else if col == 1 { 'X' }
        else if col == 2 { 'C' }
        else if col == 3 { 'V' }
        else if col == 4 { 'B' }
        else if col == 5 { 'N' }
        else if col == 6 { 'M' }
        else { '\0' }
    } else {
        '\0'
    }
}

/// QWERTY keyboard layout for a `rows x cols` window of the fixed
/// physical table.
#[derive(Debug, Clone, Copy, PartialEq, Eq, Structural)]
pub struct QwertyLayout {
    cols: u32,
    rows: u32,
}

impl QwertyLayout {
    /// The column count this layout was built with.
    pub closed spec fn cols_spec(&self) -> u32 {
        self.cols
    }

    /// The row count this layout was built with.
    pub closed spec fn rows_spec(&self) -> u32 {
        self.rows
    }

    /// Every layout holds between one and four columns and between one
    /// and three rows.
    #[verifier::type_invariant]
    pub open spec fn wf(&self) -> bool {
        &&& 1 <= self.cols_spec() <= 4
        &&& 1 <= self.rows_spec() <= 3
    }

    /// What `key_to_coords` returns: the key is folded to uppercase,
    /// looked up in the physical table, and accepted only inside the
    /// active `rows x cols` window.
    pub open spec fn spec_key_to_coords(&self, key: char) -> Result<GridCoords, KeyboardError> {
        let folded = spec_upper(key);
        match spec_key_position(folded) {
            Some(coords) => if coords.row < self.rows_spec() && coords.col < self.cols_spec() {
                Ok(coords)
            } else {
                Err(KeyboardError::InvalidKey(folded))
            },
            None => Err(KeyboardError::InvalidKey(folded)),
        }
    }

    /// What `coords_to_key` returns: the table letter at the coordinates,
    /// if they lie inside the active window.
    pub open spec fn spec_coords_to_key(&self, coords: GridCoords) -> Result<char, KeyboardError> {
        if coords.row < self.rows_spec() && coords.col < self.cols_spec() {
            Ok(spec_key_at(coords.row as int, coords.col as int))
        } else {
            Err(KeyboardError::InvalidKey('\0'))
        }
    }

    /// Creates a new QWERTY layout for the given grid dimensions.
    /// Supported sizes are at most four columns and three rows.
    pub fn new(cols: u32, rows: u32) -> (r: Result<QwertyLayout, KeyboardError>)
        ensures
            ({
                if 1 <= cols <= 4 && 1 <= rows <= 3 {
                    &&& r matches Ok(layout)
                    &&& r matches Ok(layout) ==> layout.cols_spec() == cols
                        && layout.rows_spec() == rows
                } else {
                    r == Err::<QwertyLayout, KeyboardError>(
                        KeyboardError::UnsupportedGridSize { cols, rows },
                    )
                }
            }),
    {
        if cols == 0 || rows == 0 || cols > 4 || rows > 3 {
            return Err(KeyboardError::UnsupportedGridSize { cols, rows });
        }
        Ok(QwertyLayout { cols, rows })
    }

    /// Converts a keyboard key to grid coordinates, case-insensitively.
    pub fn key_to_coords(&self, key: char) -> (r: Result<GridCoords, KeyboardError>)
        ensures
            r == self.spec_key_to_coords(key),
    {
        let folded = ascii_upper(key);

        let position = match folded {
            'Q' => Some(GridCoords { row: 0, col: 0 }),
            'W' => Some(GridCoords { row: 0, col: 1 }),
            'E' => Some(GridCoords { row: 0, col: 2 }),
            'R' => Some(GridCoords { row: 0, col: 3 }),
            'T' => Some(GridCoords { row: 0, col: 4 }),
            'Y' => Some(GridCoords { row: 0, col: 5 }),
            'U' => Some(GridCoords { row: 0, col: 6 }),
            'I' => Some(GridCoords { row: 0, col: 7 }),
            'O' => Some(GridCoords { row: 0, col: 8 }),
            'P' => Some(GridCoords { row: 0, col: 9 }),
            'A' => Some(GridCoords { row: 1, col: 0 }),
            'S' => Some(GridCoords { row: 1, col: 1 }),
            'D' => Some(GridCoords { row: 1, col: 2 }),
            'F' => Some(GridCoords { row: 1, col: 3 }),
            'G' => Some(GridCoords { row: 1, col: 4 }),
            'H' => Some(GridCoords { row: 1, col: 5 }),
            'J' => Some(GridCoords { row: 1, col: 6 }),
            'K' => Some(GridCoords { row: 1, col: 7 }),
            'L' => Some(GridCoords { row: 1, col: 8 }),
            'Z' => Some(GridCoords { row: 2, col: 0 }),
            'X' => Some(GridCoords { row: 2, col: 1 }),
            'C' => Some(GridCoords { row: 2, col: 2 }),
            'V' => Some(GridCoords { row: 2, col: 3 }),
            'B' => Some(GridCoords { row: 2, col: 4 }),
            'N' => Some(GridCoords { row: 2, col: 5 }),
            'M' => Some(GridCoords { row: 2, col: 6 }),
            _ => None,
        };

        match position {
            Some(coords) => {
                if coords.row < self.rows && coords.col < self.cols {
                    Ok(coords)
                } else {
                    Err(KeyboardError::InvalidKey(folded))
                }
            },
            None => Err(KeyboardError::InvalidKey(folded)),
        }
    }

    /// Converts grid coordinates to the corresponding keyboard key.
    pub fn coords_to_key(&self, coords: GridCoords) -> (r: Result<char, KeyboardError>)
        ensures
            r == self.spec_coords_to_key(coords),
    {
        if coords.row >= self.rows || coords.col >= self.cols {
            return Err(KeyboardError::InvalidKey('\0'));
        }

        proof {
            use_type_invariant(self);
        }

        let key: char = if coords.row == 0 {
            if coords.col == 0 { 'Q' }
            else if coords.col == 1 { 'W' }
            else if coords.col == 2 { 'E' }
            else { 'R' }
        } else if coords.row == 1 {
            if coords.col == 0 { 'A' }
            else if coords.col == 1 { 'S' }
            else if coords.col == 2 { 'D' }
            else { 'F' }
        } else {
            if coords.col == 0 { 'Z' }
            else if coords.col == 1 { 'X' }
            else if coords.col == 2 { 'C' }
            else { 'V' }
        };

        Ok(key)
    }

    /// All valid keys for the current layout, in row-major order
    /// (`Q, W, E, A, S, D` for three columns and two rows).
    pub fn valid_keys(&self) -> (r: Vec<char>)
        ensures
            r@.len() == self.rows_spec() * self.cols_spec(),
            forall|i: int|
                0 <= i < r@.len() ==> r@[i] == spec_key_at(
                    i / (self.cols_spec() as int),
                    i % (self.cols_spec() as int),
                ),
    {
        proof {
            use_type_invariant(self);
        }

        let mut valid: Vec<char> = Vec::new();
        let mut row: u32 = 0;
        while row < self.rows
            invariant
                self.wf(),
                0 <= row <= self.rows_spec(),
                valid@.len() == row * self.cols_spec(),
                forall|i: int|
                    0 <= i < valid@.len() ==> valid@[i] == spec_key_at(
                        i / (self.cols_spec() as int),
                        i % (self.cols_spec() as int),
                    ),
            decreases self.rows_spec() - row,
        {
            let mut col: u32 = 0;
            while col < self.cols
                invariant
                    self.wf(),
                    0 <= row < self.rows_spec(),
                    0 <= col <= self.cols_spec(),
                    valid@.len() == row * self.cols_spec() + col,
                    forall|i: int|
                        0 <= i < valid@.len() ==> valid@[i] == spec_key_at(
                            i / (self.cols_spec() as int),
                            i % (self.cols_spec() as int),
                        ),
                decreases self.cols_spec() - col,
            {
                let coords = GridCoords { row, col };
                let key = match self.coords_to_key(coords) {
                    Ok(k) => k,
                    Err(_) => '\0',
                };
                if key != '\0' {
                    valid.push(key);
                }
                proof {
                    let c = self.cols_spec() as int;
                    let idx = row * c + col;
                    assert(idx / c == row && idx % c == col) by (nonlinear_arith)
                        requires
                            c > 0,
                            0 <= row,
                            0 <= col < c,
                            idx == row * c + col,
                    ;
                }
                col = col + 1;
            }
            proof {
                let c = self.cols_spec() as int;
                assert((row + 1) * c == row * c + c) by (nonlinear_arith);
            }
            row = row + 1;
        }
        valid
    }

    /// The grid dimensions, as `(cols, rows)`.
    pub fn dimensions(&self) -> (r: (u32, u32))
        ensures
            r.0 == self.cols_spec(),
            r.1 == self.rows_spec(),
    {
        (self.cols, self.rows)
    }
}

/// Folds a character to ASCII uppercase.
pub fn ascii_upper(c: char) -> (r: char)
    ensures
        r == spec_upper(c),
{
    match c {
        'a' => 'A',
        'b' => 'B',
        'c' => 'C',
        'd' => 'D',
        'e' => 'E',
        'f' => 'F',
        'g' => 'G',
        'h' => 'H',
        'i' => 'I',
        'j' => 'J',
        'k' => 'K',
        'l' => 'L',
        'm' => 'M',
        'n' => 'N',
        'o' => 'O',
        'p' => 'P',
        'q' => 'Q',
        'r' => 'R',
        's' => 'S',
        't' => 'T',
        'u' => 'U',
        'v' => 'V',
        'w' => 'W',
        'x' => 'X',
        'y' => 'Y',
        'z' => 'Z',
        _ => c,
    }
}

/// The key/cell mapping is its own inverse: inside the layout's bounds,
/// looking up the key of a cell and mapping that key back yields the same
/// cell; and mapping an uppercase key to its cell and back yields the same
/// key. (Lowercase keys fold to uppercase first, so they return uppercase.)
pub proof fn lemma_key_mapping_inverse(layout: QwertyLayout, coords: GridCoords, key: char)
    requires
        layout.wf(),
        coords.row < layout.rows_spec(),
        coords.col < layout.cols_spec(),
        spec_upper(key) == key,
        layout.spec_key_to_coords(key) is Ok,
    ensures
        layout.spec_key_to_coords(layout.spec_coords_to_key(coords)->Ok_0) == Ok::<
            GridCoords,
            KeyboardError,
        >(coords),
        layout.spec_coords_to_key(layout.spec_key_to_coords(key)->Ok_0) == Ok::<
            char,
            KeyboardError,
        >(key),
{
}

} // verus!
