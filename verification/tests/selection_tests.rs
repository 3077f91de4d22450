use tactile_win::keyboard::GridCoords;
use tactile_win::selection::{
    Selection, SelectionError, SelectionState, normalize_coordinates,
};

#[test]
fn new_selection_is_empty() {
    let selection = Selection::new();
    assert!(selection.is_empty());
    assert!(!selection.is_in_progress());
    assert!(!selection.is_complete());
}

#[test]
fn start_selection() {
    let mut selection = Selection::new();
    let coords = GridCoords::new(1, 2);

    selection.start(coords).unwrap();

    assert!(!selection.is_empty());
    assert!(selection.is_in_progress());
    assert!(!selection.is_complete());
    assert_eq!(selection.get_start_coords(), Some(coords));
}

#[test]
fn complete_selection() {
    let mut selection = Selection::new();
    let start = GridCoords::new(1, 2);
    let end = GridCoords::new(0, 0);

    selection.start(start).unwrap();
    selection.complete(end).unwrap();

    assert!(!selection.is_empty());
    assert!(!selection.is_in_progress());
    assert!(selection.is_complete());

    // Coordinates should be normalized
    let (tl, br) = selection.get_normalized_coords().unwrap();
    assert_eq!(tl, GridCoords::new(0, 0));
    assert_eq!(br, GridCoords::new(1, 2));
}

#[test]
fn complete_without_start_fails() {
    let mut selection = Selection::new();
    let result = selection.complete(GridCoords::new(0, 0));

    assert!(matches!(result, Err(SelectionError::NoSelectionStarted)));
}

#[test]
fn complete_twice_fails() {
    let mut selection = Selection::new();
    selection.start(GridCoords::new(0, 0)).unwrap();
    selection.complete(GridCoords::new(1, 1)).unwrap();

    let result = selection.complete(GridCoords::new(2, 2));
    assert!(matches!(
        result,
        Err(SelectionError::SelectionAlreadyComplete)
    ));
}

#[test]
fn normalize_coordinates_test() {
    // Normal order
    let (tl, br) = normalize_coordinates(GridCoords::new(0, 0), GridCoords::new(2, 3));
    assert_eq!(tl, GridCoords::new(0, 0));
    assert_eq!(br, GridCoords::new(2, 3));

    // Reverse order
    let (tl, br) = normalize_coordinates(GridCoords::new(2, 3), GridCoords::new(0, 0));
    assert_eq!(tl, GridCoords::new(0, 0));
    assert_eq!(br, GridCoords::new(2, 3));

    // Mixed order
    let (tl, br) = normalize_coordinates(GridCoords::new(1, 3), GridCoords::new(2, 1));
    assert_eq!(tl, GridCoords::new(1, 1));
    assert_eq!(br, GridCoords::new(2, 3));

    // Same coordinate
    let (tl, br) = normalize_coordinates(GridCoords::new(1, 1), GridCoords::new(1, 1));
    assert_eq!(tl, GridCoords::new(1, 1));
    assert_eq!(br, GridCoords::new(1, 1));
}

#[test]
fn from_coords_creates_complete_selection() {
    let selection = Selection::from_coords(GridCoords::new(2, 1), GridCoords::new(0, 2));

    assert!(selection.is_complete());
    let (tl, br) = selection.get_normalized_coords().unwrap();
    assert_eq!(tl, GridCoords::new(0, 1));
    assert_eq!(br, GridCoords::new(2, 2));
}

#[test]
fn dimensions_calculation() {
    let selection = Selection::from_coords(GridCoords::new(0, 0), GridCoords::new(2, 1));

    let (width, height) = selection.get_dimensions().unwrap();
    assert_eq!(width, 2); // Columns 0, 1
    assert_eq!(height, 3); // Rows 0, 1, 2

    assert_eq!(selection.get_cell_count(), Some(6));
    assert_eq!(selection.is_single_cell(), Some(false));
}

#[test]
fn single_cell_selection() {
    let selection = Selection::from_coords(GridCoords::new(1, 1), GridCoords::new(1, 1));

    let (width, height) = selection.get_dimensions().unwrap();
    assert_eq!(width, 1);
    assert_eq!(height, 1);

    assert_eq!(selection.get_cell_count(), Some(1));
    assert_eq!(selection.is_single_cell(), Some(true));
}

#[test]
fn reset_selection() {
    let mut selection = Selection::new();
    selection.start(GridCoords::new(0, 0)).unwrap();
    selection.complete(GridCoords::new(1, 1)).unwrap();

    assert!(selection.is_complete());

    selection.reset();
    assert!(selection.is_empty());
    assert_eq!(selection.get_start_coords(), None);
    assert_eq!(selection.get_normalized_coords(), None);
}

#[test]
fn incomplete_selection_returns_none() {
    let mut selection = Selection::new();

    // Empty selection
    assert_eq!(selection.get_normalized_coords(), None);
    assert_eq!(selection.get_dimensions(), None);
    assert_eq!(selection.get_cell_count(), None);
    assert_eq!(selection.is_single_cell(), None);

    // In-progress selection
    selection.start(GridCoords::new(0, 0)).unwrap();
    assert_eq!(selection.get_normalized_coords(), None);
    assert_eq!(selection.get_dimensions(), None);
    assert_eq!(selection.get_cell_count(), None);
    assert_eq!(selection.is_single_cell(), None);
}

#[test]
fn state_transitions() {
    let mut selection = Selection::new();

    // Start: NotStarted -> InProgress
    assert!(matches!(selection.state(), SelectionState::NotStarted));
    selection.start(GridCoords::new(0, 0)).unwrap();
    assert!(matches!(
        selection.state(),
        SelectionState::InProgress { .. }
    ));

    // Complete: InProgress -> Complete
    selection.complete(GridCoords::new(1, 1)).unwrap();
    assert!(matches!(selection.state(), SelectionState::Complete { .. }));

    // Reset: Complete -> NotStarted
    selection.reset();
    assert!(matches!(selection.state(), SelectionState::NotStarted));
}
#[test]
fn selection_new_selection_is_empty() {
    let selection = Selection::new();
    assert!(selection.is_empty());
    assert!(!selection.is_in_progress());
    assert!(!selection.is_complete());
}

#[test]
fn selection_start_selection() {
    let mut selection = Selection::new();
    let coords = GridCoords::new(1, 2);

    selection.start(coords).unwrap();

    assert!(!selection.is_empty());
    assert!(selection.is_in_progress());
    assert!(!selection.is_complete());
    assert_eq!(selection.get_start_coords(), Some(coords));
}

#[test]
fn selection_complete_selection() {
    let mut selection = Selection::new();
    let start = GridCoords::new(1, 2);
    let end = GridCoords::new(0, 0);

    selection.start(start).unwrap();
    selection.complete(end).unwrap();

    assert!(!selection.is_empty());
    assert!(!selection.is_in_progress());
    assert!(selection.is_complete());

    // Coordinates should be normalized
    let (tl, br) = selection.get_normalized_coords().unwrap();
    assert_eq!(tl, GridCoords::new(0, 0));
    assert_eq!(br, GridCoords::new(1, 2));
}

#[test]
fn selection_complete_without_start_fails() {
    let mut selection = Selection::new();
    let result = selection.complete(GridCoords::new(0, 0));

    assert!(matches!(result, Err(SelectionError::NoSelectionStarted)));
}

#[test]
fn selection_complete_twice_fails() {
    let mut selection = Selection::new();
    selection.start(GridCoords::new(0, 0)).unwrap();
    selection.complete(GridCoords::new(1, 1)).unwrap();

    let result = selection.complete(GridCoords::new(2, 2));
    assert!(matches!(
        result,
        Err(SelectionError::SelectionAlreadyComplete)
    ));
}

#[test]
fn selection_normalize_coordinates_test() {
    // Normal order
    let (tl, br) = normalize_coordinates(GridCoords::new(0, 0), GridCoords::new(2, 3));
    assert_eq!(tl, GridCoords::new(0, 0));
    assert_eq!(br, GridCoords::new(2, 3));

    // Reverse order
    let (tl, br) = normalize_coordinates(GridCoords::new(2, 3), GridCoords::new(0, 0));
    assert_eq!(tl, GridCoords::new(0, 0));
    assert_eq!(br, GridCoords::new(2, 3));

    // Mixed order
    let (tl, br) = normalize_coordinates(GridCoords::new(1, 3), GridCoords::new(2, 1));
    assert_eq!(tl, GridCoords::new(1, 1));
    assert_eq!(br, GridCoords::new(2, 3));

    // Same coordinate
    let (tl, br) = normalize_coordinates(GridCoords::new(1, 1), GridCoords::new(1, 1));
    assert_eq!(tl, GridCoords::new(1, 1));
    assert_eq!(br, GridCoords::new(1, 1));
}

#[test]
fn selection_from_coords_creates_complete_selection() {
    let selection = Selection::from_coords(GridCoords::new(2, 1), GridCoords::new(0, 2));

    assert!(selection.is_complete());
    let (tl, br) = selection.get_normalized_coords().unwrap();
    assert_eq!(tl, GridCoords::new(0, 1));
    assert_eq!(br, GridCoords::new(2, 2));
}

#[test]
fn selection_dimensions_calculation() {
    let selection = Selection::from_coords(GridCoords::new(0, 0), GridCoords::new(2, 1));

    let (width, height) = selection.get_dimensions().unwrap();
    assert_eq!(width, 2); // Columns 0, 1
    assert_eq!(height, 3); // Rows 0, 1, 2

    assert_eq!(selection.get_cell_count(), Some(6));
    assert_eq!(selection.is_single_cell(), Some(false));
}

#[test]
fn selection_single_cell_selection() {
    let selection = Selection::from_coords(GridCoords::new(1, 1), GridCoords::new(1, 1));

    let (width, height) = selection.get_dimensions().unwrap();
    assert_eq!(width, 1);
    assert_eq!(height, 1);

    assert_eq!(selection.get_cell_count(), Some(1));
    assert_eq!(selection.is_single_cell(), Some(true));
}

#[test]
fn selection_reset_selection() {
    let mut selection = Selection::new();
    selection.start(GridCoords::new(0, 0)).unwrap();
    selection.complete(GridCoords::new(1, 1)).unwrap();

    assert!(selection.is_complete());

    selection.reset();
    assert!(selection.is_empty());
    assert_eq!(selection.get_start_coords(), None);
    assert_eq!(selection.get_normalized_coords(), None);
}

#[test]
fn selection_incomplete_selection_returns_none() {
    let mut selection = Selection::new();

    // Empty selection
    assert_eq!(selection.get_normalized_coords(), None);
    assert_eq!(selection.get_dimensions(), None);
    assert_eq!(selection.get_cell_count(), None);
    assert_eq!(selection.is_single_cell(), None);

    // In-progress selection
    selection.start(GridCoords::new(0, 0)).unwrap();
    assert_eq!(selection.get_normalized_coords(), None);
    assert_eq!(selection.get_dimensions(), None);
    assert_eq!(selection.get_cell_count(), None);
    assert_eq!(selection.is_single_cell(), None);
}

#[test]
fn selection_state_transitions() {
    let mut selection = Selection::new();

    // Start: NotStarted -> InProgress
    assert!(matches!(selection.state(), SelectionState::NotStarted));
    selection.start(GridCoords::new(0, 0)).unwrap();
    assert!(matches!(
        selection.state(),
        SelectionState::InProgress { .. }
    ));

    // Complete: InProgress -> Complete
    selection.complete(GridCoords::new(1, 1)).unwrap();
    assert!(matches!(selection.state(), SelectionState::Complete { .. }));

    // Reset: Complete -> NotStarted
    selection.reset();
    assert!(matches!(selection.state(), SelectionState::NotStarted));
}
