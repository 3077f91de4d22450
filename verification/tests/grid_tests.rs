use tactile_win::grid::{Grid, GridError};
use tactile_win::keyboard::GridCoords;
use tactile_win::rect::Rect;

fn create_test_screen() -> Rect {
    Rect::new(0, 0, 1920, 1080)
}

#[test]
fn grid_creation_valid() {
    let screen = create_test_screen();
    let grid = Grid::new(3, 2, screen).unwrap();

    assert_eq!(grid.dimensions(), (3, 2));
    assert_eq!(grid.screen_area(), screen);
    assert_eq!(grid.cell_size(), (960, 360)); // 1920/2, 1080/3
}

#[test]
fn grid_creation_invalid_dimensions() {
    let screen = create_test_screen();

    // Zero rows
    let result = Grid::new(0, 2, screen);
    assert!(matches!(result, Err(GridError::InvalidDimensions { rows: 0, cols: 2 })));

    // Zero columns
    let result = Grid::new(3, 0, screen);
    assert!(matches!(result, Err(GridError::InvalidDimensions { rows: 3, cols: 0 })));
}

#[test]
fn grid_creation_screen_too_small() {
    // Screen that results in cells smaller than minimum
    let small_screen = Rect::new(0, 0, 800, 600);
    let result = Grid::new(3, 2, small_screen);

    assert!(matches!(result, Err(GridError::ScreenTooSmall { .. })));
}

#[test]
fn cell_rect_calculation() {
    let screen = create_test_screen();
    let grid = Grid::new(3, 2, screen).unwrap();

    // Top-left cell (Q)
    let coords = GridCoords::new(0, 0);
    let rect = grid.cell_rect(coords).unwrap();
    assert_eq!(rect, Rect::new(0, 0, 960, 360));

    // Top-right cell (W)
    let coords = GridCoords::new(0, 1);
    let rect = grid.cell_rect(coords).unwrap();
    assert_eq!(rect, Rect::new(960, 0, 960, 360));

    // Bottom-left cell (A)
    let coords = GridCoords::new(1, 0);
    let rect = grid.cell_rect(coords).unwrap();
    assert_eq!(rect, Rect::new(0, 360, 960, 360));

    // Bottom-middle cell (S)
    let coords = GridCoords::new(1, 1);
    let rect = grid.cell_rect(coords).unwrap();
    assert_eq!(rect, Rect::new(960, 360, 960, 360));
}

#[test]
fn cell_rect_invalid_coordinates() {
    let screen = create_test_screen();
    let grid = Grid::new(3, 2, screen).unwrap();

    // Row too high
    let coords = GridCoords::new(3, 0);
    let result = grid.cell_rect(coords);
    assert!(matches!(result, Err(GridError::InvalidCoordinates { .. })));

    // Column too high
    let coords = GridCoords::new(0, 2);
    let result = grid.cell_rect(coords);
    assert!(matches!(result, Err(GridError::InvalidCoordinates { .. })));
}

#[test]
fn key_to_rect_mapping() {
    let screen = create_test_screen();
    let grid = Grid::new(3, 2, screen).unwrap();

    // Test Q key (top-left)
    let q_rect = grid.key_to_rect('Q').unwrap();
    assert_eq!(q_rect, Rect::new(0, 0, 960, 360));

    // Test W key (top-right)
    let w_rect = grid.key_to_rect('W').unwrap();
    assert_eq!(w_rect, Rect::new(960, 0, 960, 360));

    // Test A key (bottom-left)
    let a_rect = grid.key_to_rect('A').unwrap();
    assert_eq!(a_rect, Rect::new(0, 360, 960, 360));

    // Case insensitive
    let q_lower = grid.key_to_rect('q').unwrap();
    assert_eq!(q_lower, q_rect);
}

#[test]
fn coords_to_rect_single_cell() {
    let screen = create_test_screen();
    let grid = Grid::new(3, 2, screen).unwrap();

    // Same coordinate twice = single cell
    let coords = GridCoords::new(0, 0);
    let rect = grid.coords_to_rect(coords, coords).unwrap();
    assert_eq!(rect, Rect::new(0, 0, 960, 360));
}

#[test]
fn coords_to_rect_multi_cell() {
    let screen = create_test_screen();
    let grid = Grid::new(3, 2, screen).unwrap();

    // Q to S selection (top-left 2x2 area)
    let start = GridCoords::new(0, 0); // Q
    let end = GridCoords::new(1, 1); // S
    let rect = grid.coords_to_rect(start, end).unwrap();
    assert_eq!(rect, Rect::new(0, 0, 1920, 720)); // Full width, 2 rows high

    // Order shouldn't matter
    let rect_reverse = grid.coords_to_rect(end, start).unwrap();
    assert_eq!(rect, rect_reverse);
}

#[test]
fn keys_to_rect_selection() {
    let screen = create_test_screen();
    let grid = Grid::new(3, 2, screen).unwrap();

    // Q to S selection
    let rect = grid.keys_to_rect('Q', 'S').unwrap();
    assert_eq!(rect, Rect::new(0, 0, 1920, 720));

    // Case insensitive
    let rect_lower = grid.keys_to_rect('q', 's').unwrap();
    assert_eq!(rect, rect_lower);

    // Order independent
    let rect_reverse = grid.keys_to_rect('S', 'Q').unwrap();
    assert_eq!(rect, rect_reverse);
}

#[test]
fn contains_validation() {
    let screen = create_test_screen();
    let grid = Grid::new(3, 2, screen).unwrap();

    // Valid coordinates
    assert!(grid.contains_coords(GridCoords::new(0, 0)));
    assert!(grid.contains_coords(GridCoords::new(2, 1)));

    // Invalid coordinates
    assert!(!grid.contains_coords(GridCoords::new(3, 0)));
    assert!(!grid.contains_coords(GridCoords::new(0, 2)));

    // Valid keys for 3x2 grid
    assert!(grid.contains_key('Q'));
    assert!(grid.contains_key('q'));
    assert!(grid.contains_key('W'));
    assert!(grid.contains_key('A'));
    assert!(grid.contains_key('S'));
    assert!(grid.contains_key('Z'));
    assert!(grid.contains_key('X'));

    // Invalid keys (not in 3x2 layout)
    assert!(!grid.contains_key('E')); // Column 2, out of range for 2-column grid
    assert!(!grid.contains_key('1')); // Numbers not supported
}

#[test]
fn valid_keys_list() {
    let screen = create_test_screen();
    let grid = Grid::new(3, 2, screen).unwrap();

    let keys = grid.valid_keys();
    assert_eq!(keys, vec!['Q', 'W', 'A', 'S', 'Z', 'X']);
}

#[test]
fn grid_with_offset_screen() {
    // Test grid on a monitor that doesn't start at (0,0)
    let screen = Rect::new(1920, 0, 1920, 1080); // Second monitor
    let grid = Grid::new(3, 2, screen).unwrap();

    // Top-left cell should be offset
    let q_rect = grid.key_to_rect('Q').unwrap();
    assert_eq!(q_rect, Rect::new(1920, 0, 960, 360));

    // Selection should also be offset
    let rect = grid.keys_to_rect('Q', 'S').unwrap();
    assert_eq!(rect, Rect::new(1920, 0, 1920, 720));
}
#[test]
fn grid_grid_creation_valid() {
    let screen = create_test_screen();
    let grid = Grid::new(3, 2, screen).unwrap();

    assert_eq!(grid.dimensions(), (3, 2));
    assert_eq!(grid.screen_area(), screen);
    assert_eq!(grid.cell_size(), (960, 360)); // 1920/2, 1080/3
}

#[test]
fn grid_grid_creation_invalid_dimensions() {
    let screen = create_test_screen();

    // Zero rows
    let result = Grid::new(0, 2, screen);
    assert!(matches!(result, Err(GridError::InvalidDimensions { rows: 0, cols: 2 })));

    // Zero columns
    let result = Grid::new(3, 0, screen);
    assert!(matches!(result, Err(GridError::InvalidDimensions { rows: 3, cols: 0 })));
}

#[test]
fn grid_grid_creation_screen_too_small() {
    // Screen that results in cells smaller than minimum
    let small_screen = Rect::new(0, 0, 800, 600);
    let result = Grid::new(3, 2, small_screen);

    assert!(matches!(result, Err(GridError::ScreenTooSmall { .. })));
}

#[test]
fn grid_cell_rect_calculation() {
    let screen = create_test_screen();
    let grid = Grid::new(3, 2, screen).unwrap();

    // Top-left cell (Q)
    let coords = GridCoords::new(0, 0);
    let rect = grid.cell_rect(coords).unwrap();
    assert_eq!(rect, Rect::new(0, 0, 960, 360));

    // Top-right cell (W)
    let coords = GridCoords::new(0, 1);
    let rect = grid.cell_rect(coords).unwrap();
    assert_eq!(rect, Rect::new(960, 0, 960, 360));

    // Bottom-left cell (A)
    let coords = GridCoords::new(1, 0);
    let rect = grid.cell_rect(coords).unwrap();
    assert_eq!(rect, Rect::new(0, 360, 960, 360));

    // Bottom-middle cell (S)
    let coords = GridCoords::new(1, 1);
    let rect = grid.cell_rect(coords).unwrap();
    assert_eq!(rect, Rect::new(960, 360, 960, 360));
}

#[test]
fn grid_cell_rect_invalid_coordinates() {
    let screen = create_test_screen();
    let grid = Grid::new(3, 2, screen).unwrap();

    // Row too high
    let coords = GridCoords::new(3, 0);
    let result = grid.cell_rect(coords);
    assert!(matches!(result, Err(GridError::InvalidCoordinates { .. })));

    // Column too high
    let coords = GridCoords::new(0, 2);
    let result = grid.cell_rect(coords);
    assert!(matches!(result, Err(GridError::InvalidCoordinates { .. })));
}

#[test]
fn grid_key_to_rect_mapping() {
    let screen = create_test_screen();
    let grid = Grid::new(3, 2, screen).unwrap();

    // Test Q key (top-left)
    let q_rect = grid.key_to_rect('Q').unwrap();
    assert_eq!(q_rect, Rect::new(0, 0, 960, 360));

    // Test W key (top-right)
    let w_rect = grid.key_to_rect('W').unwrap();
    assert_eq!(w_rect, Rect::new(960, 0, 960, 360));

    // Test A key (bottom-left)
    let a_rect = grid.key_to_rect('A').unwrap();
    assert_eq!(a_rect, Rect::new(0, 360, 960, 360));

    // Case insensitive
    let q_lower = grid.key_to_rect('q').unwrap();
    assert_eq!(q_lower, q_rect);
}

#[test]
fn grid_coords_to_rect_single_cell() {
    let screen = create_test_screen();
    let grid = Grid::new(3, 2, screen).unwrap();

    // Same coordinate twice = single cell
    let coords = GridCoords::new(0, 0);
    let rect = grid.coords_to_rect(coords, coords).unwrap();
    assert_eq!(rect, Rect::new(0, 0, 960, 360));
}

#[test]
fn grid_coords_to_rect_multi_cell() {
    let screen = create_test_screen();
    let grid = Grid::new(3, 2, screen).unwrap();

    // Q to S selection (top-left 2x2 area)
    let start = GridCoords::new(0, 0); // Q
    let end = GridCoords::new(1, 1); // S
    let rect = grid.coords_to_rect(start, end).unwrap();
    assert_eq!(rect, Rect::new(0, 0, 1920, 720)); // Full width, 2 rows high

    // Order shouldn't matter
    let rect_reverse = grid.coords_to_rect(end, start).unwrap();
    assert_eq!(rect, rect_reverse);
}

#[test]
fn grid_keys_to_rect_selection() {
    let screen = create_test_screen();
    let grid = Grid::new(3, 2, screen).unwrap();

    // Q to S selection
    let rect = grid.keys_to_rect('Q', 'S').unwrap();
    assert_eq!(rect, Rect::new(0, 0, 1920, 720));

    // Case insensitive
    let rect_lower = grid.keys_to_rect('q', 's').unwrap();
    assert_eq!(rect, rect_lower);

    // Order independent
    let rect_reverse = grid.keys_to_rect('S', 'Q').unwrap();
    assert_eq!(rect, rect_reverse);
}

#[test]
fn grid_contains_validation() {
    let screen = create_test_screen();
    let grid = Grid::new(3, 2, screen).unwrap();

    // Valid coordinates
    assert!(grid.contains_coords(GridCoords::new(0, 0)));
    assert!(grid.contains_coords(GridCoords::new(2, 1)));

    // Invalid coordinates
    assert!(!grid.contains_coords(GridCoords::new(3, 0)));
    assert!(!grid.contains_coords(GridCoords::new(0, 2)));

    // Valid keys for 3x2 grid
    assert!(grid.contains_key('Q'));
    assert!(grid.contains_key('q'));
    assert!(grid.contains_key('W'));
    assert!(grid.contains_key('A'));
    assert!(grid.contains_key('S'));
    assert!(grid.contains_key('Z'));
    assert!(grid.contains_key('X'));

    // Invalid keys (not in 3x2 layout)
    assert!(!grid.contains_key('E')); // Column 2, out of range for 2-column grid
    assert!(!grid.contains_key('1')); // Numbers not supported
}

#[test]
fn grid_valid_keys_list() {
    let screen = create_test_screen();
    let grid = Grid::new(3, 2, screen).unwrap();

    let keys = grid.valid_keys();
    assert_eq!(keys, vec!['Q', 'W', 'A', 'S', 'Z', 'X']);
}

#[test]
fn grid_grid_with_offset_screen() {
    // Test grid on a monitor that doesn't start at (0,0)
    let screen = Rect::new(1920, 0, 1920, 1080); // Second monitor
    let grid = Grid::new(3, 2, screen).unwrap();

    // Top-left cell should be offset
    let q_rect = grid.key_to_rect('Q').unwrap();
    assert_eq!(q_rect, Rect::new(1920, 0, 960, 360));

    // Selection should also be offset
    let rect = grid.keys_to_rect('Q', 'S').unwrap();
    assert_eq!(rect, Rect::new(1920, 0, 1920, 720));
}
