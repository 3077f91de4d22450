use tactile_win::keyboard::{GridCoords, KeyboardError, QwertyLayout};

#[test]
fn layout_creation() {
    // Valid layouts
    assert!(QwertyLayout::new(3, 2).is_ok());
    assert!(QwertyLayout::new(4, 2).is_ok());
    assert!(QwertyLayout::new(2, 1).is_ok());

    // Invalid layouts
    assert!(QwertyLayout::new(0, 2).is_err());
    assert!(QwertyLayout::new(3, 0).is_err());
    assert!(QwertyLayout::new(5, 2).is_err()); // Too wide
    assert!(QwertyLayout::new(3, 4).is_err()); // Too tall
}

#[test]
fn standard_3x2_mapping() {
    let layout = QwertyLayout::new(3, 2).unwrap();

    // Test all valid keys for 3x2 grid
    assert_eq!(layout.key_to_coords('Q').unwrap(), GridCoords::new(0, 0));
    assert_eq!(layout.key_to_coords('W').unwrap(), GridCoords::new(0, 1));
    assert_eq!(layout.key_to_coords('E').unwrap(), GridCoords::new(0, 2));
    assert_eq!(layout.key_to_coords('A').unwrap(), GridCoords::new(1, 0));
    assert_eq!(layout.key_to_coords('S').unwrap(), GridCoords::new(1, 1));
    assert_eq!(layout.key_to_coords('D').unwrap(), GridCoords::new(1, 2));
}

#[test]
fn extended_4x2_mapping() {
    let layout = QwertyLayout::new(4, 2).unwrap();

    // Test extended keys
    assert_eq!(layout.key_to_coords('R').unwrap(), GridCoords::new(0, 3));
    assert_eq!(layout.key_to_coords('F').unwrap(), GridCoords::new(1, 3));

    // Original keys still work
    assert_eq!(layout.key_to_coords('Q').unwrap(), GridCoords::new(0, 0));
    assert_eq!(layout.key_to_coords('S').unwrap(), GridCoords::new(1, 1));
}

#[test]
fn case_insensitive() {
    let layout = QwertyLayout::new(3, 2).unwrap();

    // Upper and lower case should map to same coordinates
    assert_eq!(
        layout.key_to_coords('Q').unwrap(),
        layout.key_to_coords('q').unwrap()
    );
    assert_eq!(
        layout.key_to_coords('S').unwrap(),
        layout.key_to_coords('s').unwrap()
    );
}

#[test]
fn invalid_keys() {
    let layout = QwertyLayout::new(3, 2).unwrap();

    // Invalid characters
    assert_eq!(
        layout.key_to_coords('1'),
        Err(KeyboardError::InvalidKey('1'))
    );
    assert_eq!(
        layout.key_to_coords('!'),
        Err(KeyboardError::InvalidKey('!'))
    );
    assert_eq!(
        layout.key_to_coords(' '),
        Err(KeyboardError::InvalidKey(' '))
    );

    // Valid keys but outside current grid bounds
    assert_eq!(
        layout.key_to_coords('R'),
        Err(KeyboardError::InvalidKey('R'))
    ); // Col 3, but grid is 3x2
    assert_eq!(
        layout.key_to_coords('Z'),
        Err(KeyboardError::InvalidKey('Z'))
    ); // Row 2, but grid is 3x2
}

#[test]
fn valid_keys_generation() {
    let layout_3x2 = QwertyLayout::new(3, 2).unwrap();
    let keys_3x2 = layout_3x2.valid_keys();
    assert_eq!(keys_3x2, vec!['Q', 'W', 'E', 'A', 'S', 'D']);

    let layout_4x2 = QwertyLayout::new(4, 2).unwrap();
    let keys_4x2 = layout_4x2.valid_keys();
    assert_eq!(keys_4x2, vec!['Q', 'W', 'E', 'R', 'A', 'S', 'D', 'F']);
}

#[test]
fn dimensions() {
    let layout = QwertyLayout::new(3, 2).unwrap();
    assert_eq!(layout.dimensions(), (3, 2));
}

#[test]
fn row_major_ordering() {
    let layout = QwertyLayout::new(2, 2).unwrap();

    // Test that keys are mapped in row-major order
    // Q=0, W=1 (row 0)
    // A=2, S=3 (row 1)
    assert_eq!(layout.key_to_coords('Q').unwrap(), GridCoords::new(0, 0)); // index 0
    assert_eq!(layout.key_to_coords('W').unwrap(), GridCoords::new(0, 1)); // index 1
    assert_eq!(layout.key_to_coords('A').unwrap(), GridCoords::new(1, 0)); // index 2
    assert_eq!(layout.key_to_coords('S').unwrap(), GridCoords::new(1, 1)); // index 3

    // Verify we can reconstruct flat index: index = row * cols + col
    let (cols, _rows) = layout.dimensions();
    let q_coords = layout.key_to_coords('Q').unwrap();
    let q_index = q_coords.row * cols + q_coords.col;
    assert_eq!(q_index, 0);

    let s_coords = layout.key_to_coords('S').unwrap();
    let s_index = s_coords.row * cols + s_coords.col;
    assert_eq!(s_index, 3);
}

#[test]
fn keyboard_layout_creation() {
    // Valid layouts
    assert!(QwertyLayout::new(3, 2).is_ok());
    assert!(QwertyLayout::new(4, 2).is_ok());
    assert!(QwertyLayout::new(2, 1).is_ok());

    // Invalid layouts
    assert!(QwertyLayout::new(0, 2).is_err());
    assert!(QwertyLayout::new(3, 0).is_err());
    assert!(QwertyLayout::new(5, 2).is_err()); // Too wide
    assert!(QwertyLayout::new(3, 4).is_err()); // Too tall
}

#[test]
fn keyboard_standard_3x2_mapping() {
    let layout = QwertyLayout::new(3, 2).unwrap();

    // Test all valid keys for 3x2 grid
    assert_eq!(layout.key_to_coords('Q').unwrap(), GridCoords::new(0, 0));
    assert_eq!(layout.key_to_coords('W').unwrap(), GridCoords::new(0, 1));
    assert_eq!(layout.key_to_coords('E').unwrap(), GridCoords::new(0, 2));
    assert_eq!(layout.key_to_coords('A').unwrap(), GridCoords::new(1, 0));
    assert_eq!(layout.key_to_coords('S').unwrap(), GridCoords::new(1, 1));
    assert_eq!(layout.key_to_coords('D').unwrap(), GridCoords::new(1, 2));
}

#[test]
fn keyboard_extended_4x2_mapping() {
    let layout = QwertyLayout::new(4, 2).unwrap();

    // Test extended keys
    assert_eq!(layout.key_to_coords('R').unwrap(), GridCoords::new(0, 3));
    assert_eq!(layout.key_to_coords('F').unwrap(), GridCoords::new(1, 3));

    // Original keys still work
    assert_eq!(layout.key_to_coords('Q').unwrap(), GridCoords::new(0, 0));
    assert_eq!(layout.key_to_coords('S').unwrap(), GridCoords::new(1, 1));
}

#[test]
fn keyboard_case_insensitive() {
    let layout = QwertyLayout::new(3, 2).unwrap();

    // Upper and lower case should map to same coordinates
    assert_eq!(
        layout.key_to_coords('Q').unwrap(),
        layout.key_to_coords('q').unwrap()
    );
    assert_eq!(
        layout.key_to_coords('S').unwrap(),
        layout.key_to_coords('s').unwrap()
    );
}

#[test]
fn keyboard_invalid_keys() {
    let layout = QwertyLayout::new(3, 2).unwrap();

    // Invalid characters
    assert_eq!(
        layout.key_to_coords('1'),
        Err(KeyboardError::InvalidKey('1'))
    );
    assert_eq!(
        layout.key_to_coords('!'),
        Err(KeyboardError::InvalidKey('!'))
    );
    assert_eq!(
        layout.key_to_coords(' '),
        Err(KeyboardError::InvalidKey(' '))
    );

    // Valid keys but outside current grid bounds
    assert_eq!(
        layout.key_to_coords('R'),
        Err(KeyboardError::InvalidKey('R'))
    ); // Col 3, but grid is 3x2
    assert_eq!(
        layout.key_to_coords('Z'),
        Err(KeyboardError::InvalidKey('Z'))
    ); // Row 2, but grid is 3x2
}

#[test]
fn keyboard_valid_keys_generation() {
    let layout_3x2 = QwertyLayout::new(3, 2).unwrap();
    let keys_3x2 = layout_3x2.valid_keys();
    assert_eq!(keys_3x2, vec!['Q', 'W', 'E', 'A', 'S', 'D']);

    let layout_4x2 = QwertyLayout::new(4, 2).unwrap();
    let keys_4x2 = layout_4x2.valid_keys();
    assert_eq!(keys_4x2, vec!['Q', 'W', 'E', 'R', 'A', 'S', 'D', 'F']);
}

#[test]
fn keyboard_dimensions() {
    let layout = QwertyLayout::new(3, 2).unwrap();
    assert_eq!(layout.dimensions(), (3, 2));
}

#[test]
fn keyboard_row_major_ordering() {
    let layout = QwertyLayout::new(2, 2).unwrap();

    // Test that keys are mapped in row-major order
    // Q=0, W=1 (row 0)
    // A=2, S=3 (row 1)
    assert_eq!(layout.key_to_coords('Q').unwrap(), GridCoords::new(0, 0)); // index 0
    assert_eq!(layout.key_to_coords('W').unwrap(), GridCoords::new(0, 1)); // index 1
    assert_eq!(layout.key_to_coords('A').unwrap(), GridCoords::new(1, 0)); // index 2
    assert_eq!(layout.key_to_coords('S').unwrap(), GridCoords::new(1, 1)); // index 3

    // Verify we can reconstruct flat index: index = row * cols + col
    let (cols, _rows) = layout.dimensions();
    let q_coords = layout.key_to_coords('Q').unwrap();
    let q_index = q_coords.row * cols + q_coords.col;
    assert_eq!(q_index, 0);

    let s_coords = layout.key_to_coords('S').unwrap();
    let s_index = s_coords.row * cols + s_coords.col;
    assert_eq!(s_index, 3);
}
