//! Two-step selection protocol and coordinate normalization.
//!
//! Tracks the progression from the first picked cell to the completed
//! pair, and normalizes the two corners into a canonical
//! top-left/bottom-right pair regardless of pick order.

use crate::keyboard::{GridCoords, KeyboardError};
use vstd::prelude::*;

verus! {

/// Errors that can occur during selection operations.
#[derive(Debug, Clone, PartialEq, Eq, Structural)]
pub enum SelectionError {
    /// No selection has been started yet.
    NoSelectionStarted,
    /// The selection is already complete.
    SelectionAlreadyComplete,
    /// Invalid coordinates provided.
    InvalidCoordinates { coords: GridCoords },
    /// Keyboard error during selection.
    KeyboardError(KeyboardError),
}

impl From<KeyboardError> for SelectionError {
    fn from(err: KeyboardError) -> (r: SelectionError)
        ensures
            r == SelectionError::KeyboardError(err),
    {
        SelectionError::KeyboardError(err)
    }
}

impl vstd::std_specs::convert::FromSpecImpl<KeyboardError> for SelectionError {
    open spec fn obeys_from_spec() -> bool {
        true
    }

    open spec fn from_spec(err: KeyboardError) -> SelectionError {
        SelectionError::KeyboardError(err)
    }
}

/// State of the current selection process.
#[derive(Debug, Clone, Copy, PartialEq, Eq, Structural)]
pub enum SelectionState {
    /// No selection has been started.
    NotStarted,
    /// First coordinate has been selected, waiting for the second.
    InProgress { start: GridCoords },
    /// Selection is complete, with normalized corners.
    Complete {
        /// Top-left corner of the selection.
        top_left: GridCoords,
        /// Bottom-right corner of the selection.
        bottom_right: GridCoords,
    },
}

/// Normalized corners of two arbitrarily ordered coordinates: the row
/// and column minima form the top-left corner, the maxima the
/// bottom-right corner.
pub open spec fn spec_normalize(a: GridCoords, b: GridCoords) -> (GridCoords, GridCoords) {
    let min_row = if a.row <= b.row { a.row } else { b.row };
    let max_row = if a.row >= b.row { a.row } else { b.row };
    let min_col = if a.col <= b.col { a.col } else { b.col };
    let max_col = if a.col >= b.col { a.col } else { b.col };
    (GridCoords { row: min_row, col: min_col }, GridCoords { row: max_row, col: max_col })
}

/// The state reached by starting a selection at `coords`.
pub open spec fn spec_start_state(coords: GridCoords) -> SelectionState {
    SelectionState::InProgress { start: coords }
}

/// The state reached by completing an in-progress selection at `coords`;
/// any other state is left unchanged.
pub open spec fn spec_complete_state(state: SelectionState, coords: GridCoords) -> SelectionState {
    match state {
        SelectionState::InProgress { start } => {
            let (top_left, bottom_right) = spec_normalize(start, coords);
            SelectionState::Complete { top_left, bottom_right }
        },
        _ => state,
    }
}

/// The completed state built directly from two coordinates.
pub open spec fn spec_from_coords_state(start: GridCoords, end: GridCoords) -> SelectionState {
    let (top_left, bottom_right) = spec_normalize(start, end);
    SelectionState::Complete { top_left, bottom_right }
}

/// Manages the two-step selection process for grid cells: start, then
/// complete, then read the normalized corners.
#[derive(Debug, Clone, Copy, PartialEq, Eq, Structural)]
pub struct Selection {
    state: SelectionState,
}

impl Selection {
    /// The current state, for contracts.
    pub closed spec fn view_state(&self) -> SelectionState {
        self.state
    }

    /// A completed selection always has its corners normalized:
    /// `top_left` is at or above and at or left of `bottom_right`.
    #[verifier::type_invariant]
    pub open spec fn corners_normalized(&self) -> bool {
        self.view_state() matches SelectionState::Complete { top_left, bottom_right }
            ==> top_left.row <= bottom_right.row && top_left.col <= bottom_right.col
    }

    /// The empty selection value, for contracts.
    pub closed spec fn spec_empty() -> Selection {
        Selection { state: SelectionState::NotStarted }
    }

    /// The selection value holding a given state, for contracts.
    pub closed spec fn spec_selection(state: SelectionState) -> Selection {
        Selection { state }
    }

    /// Creates a new, empty selection.
    pub fn new() -> (r: Selection)
        ensures
            r == Selection::spec_empty(),
            r.view_state() == SelectionState::NotStarted,
    {
        Selection { state: SelectionState::NotStarted }
    }

    /// Returns the current selection state.
    pub fn state(&self) -> (r: &SelectionState)
        ensures
            *r == self.view_state(),
    {
        &self.state
    }

    /// Checks if the selection is empty (not started).
    pub fn is_empty(&self) -> (r: bool)
        ensures
            r == (self.view_state() is NotStarted),
    {
        matches!(self.state, SelectionState::NotStarted)
    }

    /// Checks if the selection is currently in progress.
    pub fn is_in_progress(&self) -> (r: bool)
        ensures
            r == (self.view_state() is InProgress),
    {
        matches!(self.state, SelectionState::InProgress { .. })
    }

    /// Checks if the selection is complete.
    pub fn is_complete(&self) -> (r: bool)
        ensures
            r == (self.view_state() is Complete),
    {
        matches!(self.state, SelectionState::Complete { .. })
    }

    /// Starts a new selection with the given coordinates. Always
    /// succeeds; restarting while in progress overwrites the start point.
    pub fn start(&mut self, coords: GridCoords) -> (r: Result<(), SelectionError>)
        ensures
            r is Ok,
            final(self).view_state() == spec_start_state(coords),
    {
        self.state = SelectionState::InProgress { start: coords };
        Ok(())
    }

    /// Completes the selection with the end coordinates, normalizing the
    /// pair so that `top_left` really is the top-left corner. Fails when
    /// no selection was started or the selection is already complete.
    pub fn complete(&mut self, coords: GridCoords) -> (r: Result<(), SelectionError>)
        ensures
            final(self).view_state() == spec_complete_state(old(self).view_state(), coords),
            match old(self).view_state() {
                SelectionState::NotStarted => r == Err::<(), SelectionError>(
                    SelectionError::NoSelectionStarted,
                ),
                SelectionState::InProgress { .. } => r is Ok,
                SelectionState::Complete { .. } => r == Err::<(), SelectionError>(
                    SelectionError::SelectionAlreadyComplete,
                ),
            },
    {
        let start = match &self.state {
            SelectionState::InProgress { start } => *start,
            SelectionState::NotStarted => {
                return Err(SelectionError::NoSelectionStarted);
            },
            SelectionState::Complete { .. } => {
                return Err(SelectionError::SelectionAlreadyComplete);
            },
        };

        let (top_left, bottom_right) = normalize_coordinates(start, coords);

        self.state = SelectionState::Complete { top_left, bottom_right };

        Ok(())
    }

    /// Gets the start coordinates if the selection is in progress.
    pub fn get_start_coords(&self) -> (r: Option<GridCoords>)
        ensures
            r == match self.view_state() {
                SelectionState::InProgress { start } => Some(start),
                _ => None::<GridCoords>,
            },
    {
        match &self.state {
            SelectionState::InProgress { start } => Some(*start),
            _ => None,
        }
    }

    /// Gets the normalized `(top_left, bottom_right)` corners if the
    /// selection is complete.
    pub fn get_normalized_coords(&self) -> (r: Option<(GridCoords, GridCoords)>)
        ensures
            r == match self.view_state() {
                SelectionState::Complete { top_left, bottom_right } => Some(
                    (top_left, bottom_right),
                ),
                _ => None::<(GridCoords, GridCoords)>,
            },
    {
        match &self.state {
            SelectionState::Complete { top_left, bottom_right } => Some(
                (*top_left, *bottom_right),
            ),
            _ => None,
        }
    }

    /// The dimensions of a completed selection, in grid cells, as
    /// `(width, height)`.
    pub fn get_dimensions(&self) -> (r: Option<(u32, u32)>)
        requires
            self.view_state() matches SelectionState::Complete { top_left, bottom_right }
                ==> bottom_right.col - top_left.col + 1 <= u32::MAX && bottom_right.row
                - top_left.row + 1 <= u32::MAX,
        ensures
            r == match self.view_state() {
                SelectionState::Complete { top_left, bottom_right } => Some(
                    (
                        (bottom_right.col - top_left.col + 1) as u32,
                        (bottom_right.row - top_left.row + 1) as u32,
                    ),
                ),
                _ => None::<(u32, u32)>,
            },
    {
        proof {
            use_type_invariant(self);
        }
        match &self.state {
            SelectionState::Complete { top_left, bottom_right } => {
                let width = bottom_right.col - top_left.col + 1;
                let height = bottom_right.row - top_left.row + 1;
                Some((width, height))
            },
            _ => None,
        }
    }

    /// The total number of cells in a completed selection.
    pub fn get_cell_count(&self) -> (r: Option<u32>)
        requires
            self.view_state() matches SelectionState::Complete { top_left, bottom_right }
                ==> (bottom_right.col - top_left.col + 1) * (bottom_right.row - top_left.row + 1)
                <= u32::MAX,
        ensures
            r == match self.view_state() {
                SelectionState::Complete { top_left, bottom_right } => Some(
                    ((bottom_right.col - top_left.col + 1) * (bottom_right.row - top_left.row
                    + 1)) as u32,
                ),
                _ => None::<u32>,
            },
    {
        proof {
            use_type_invariant(self);
            match self.view_state() {
                SelectionState::Complete { top_left, bottom_right } => {
                    let w = bottom_right.col - top_left.col + 1;
                    let h = bottom_right.row - top_left.row + 1;
                    assert(w <= w * h && h <= w * h) by (nonlinear_arith)
                        requires
                            w >= 1,
                            h >= 1,
                    ;
                },
                _ => {},
            }
        }
        match self.get_dimensions() {
            Some((width, height)) => Some(width * height),
            None => None,
        }
    }

    /// Whether a completed selection covers exactly one cell.
    pub fn is_single_cell(&self) -> (r: Option<bool>)
        requires
            self.view_state() matches SelectionState::Complete { top_left, bottom_right }
                ==> (bottom_right.col - top_left.col + 1) * (bottom_right.row - top_left.row + 1)
                <= u32::MAX,
        ensures
            r == match self.view_state() {
                SelectionState::Complete { top_left, bottom_right } => Some(
                    top_left == bottom_right,
                ),
                _ => None::<bool>,
            },
    {
        proof {
            use_type_invariant(self);
            match self.view_state() {
                SelectionState::Complete { top_left, bottom_right } => {
                    let w = bottom_right.col - top_left.col + 1;
                    let h = bottom_right.row - top_left.row + 1;
                    assert(w * h == 1 <==> (w == 1 && h == 1)) by (nonlinear_arith)
                        requires
                            w >= 1,
                            h >= 1,
                    ;
                },
                _ => {},
            }
        }
        match self.get_cell_count() {
            Some(count) => Some(count == 1),
            None => None,
        }
    }

    /// Resets the selection to the empty state.
    pub fn reset(&mut self)
        ensures
            *final(self) == Selection::spec_empty(),
            final(self).view_state() == SelectionState::NotStarted,
    {
        self.state = SelectionState::NotStarted;
    }

    /// Creates a completed selection from two coordinates in one step.
    pub fn from_coords(start: GridCoords, end: GridCoords) -> (r: Selection)
        ensures
            r.view_state() == spec_from_coords_state(start, end),
    {
        let (top_left, bottom_right) = normalize_coordinates(start, end);
        Selection { state: SelectionState::Complete { top_left, bottom_right } }
    }

    /// Adds a coordinate to the selection process: the first one starts
    /// the selection, the second completes it, and a completed selection
    /// rejects further coordinates.
    pub fn add_coords(&mut self, coords: GridCoords) -> (r: Result<(), SelectionError>)
        ensures
            final(self).view_state() == match old(self).view_state() {
                SelectionState::NotStarted => spec_start_state(coords),
                other => spec_complete_state(other, coords),
            },
            match old(self).view_state() {
                SelectionState::Complete { .. } => r == Err::<(), SelectionError>(
                    SelectionError::SelectionAlreadyComplete,
                ),
                _ => r is Ok,
            },
    {
        match &self.state {
            SelectionState::NotStarted => self.start(coords),
            SelectionState::InProgress { .. } => self.complete(coords),
            SelectionState::Complete { .. } => Err(SelectionError::SelectionAlreadyComplete),
        }
    }
}

/// Normalizes two coordinates into `(top_left, bottom_right)` corners,
/// taking row and column minima and maxima independently, so the result
/// does not depend on the order of the arguments.
pub fn normalize_coordinates(coord1: GridCoords, coord2: GridCoords) -> (r: (
    GridCoords,
    GridCoords,
))
    ensures
        r == spec_normalize(coord1, coord2),
        r.0.row <= r.1.row,
        r.0.col <= r.1.col,
{
    let min_row = if coord1.row <= coord2.row {
        coord1.row
    } else {
        coord2.row
    };
    let max_row = if coord1.row >= coord2.row {
        coord1.row
    } else {
        coord2.row
    };
    let min_col = if coord1.col <= coord2.col {
        coord1.col
    } else {
        coord2.col
    };
    let max_col = if coord1.col >= coord2.col {
        coord1.col
    } else {
        coord2.col
    };

    (GridCoords::new(min_row, min_col), GridCoords::new(max_row, max_col))
}

impl Default for Selection {
    /// The default selection is empty.
    fn default() -> (r: Selection)
        ensures
            r == Selection::spec_empty(),
            r.view_state() == SelectionState::NotStarted,
    {
        Selection::new()
    }
}

/// A selection is nothing but its state: the value holding a state
/// reports that state, two selections with the same state are the same
/// selection, and the empty selection holds the not-started state.
pub proof fn lemma_selection_is_its_state(st: SelectionState, a: Selection, b: Selection)
    ensures
        Selection::spec_selection(st).view_state() == st,
        a.view_state() == b.view_state() ==> a == b,
        Selection::spec_empty() == Selection::spec_selection(SelectionState::NotStarted),
{
}

/// Normalization does not depend on the order of its two arguments.
pub proof fn lemma_normalize_commutative(a: GridCoords, b: GridCoords)
    ensures
        spec_normalize(a, b) == spec_normalize(b, a),
{
}

/// Starting a selection at `a` and completing it at `b` reaches exactly
/// the state that building the selection from `(a, b)` in one step
/// reaches, for any two coordinates.
pub proof fn lemma_selection_round_trip(a: GridCoords, b: GridCoords)
    ensures
        spec_complete_state(spec_start_state(a), b) == spec_from_coords_state(a, b),
{
}

} // verus!
