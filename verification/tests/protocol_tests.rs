use tactile_win::grid::{Grid, GridError};
use tactile_win::keyboard::{GridCoords, KeyboardError, QwertyLayout, ascii_upper};
use tactile_win::rect::Rect;
use tactile_win::selection::{Selection, SelectionError, normalize_coordinates};

#[test]
fn normalization_is_commutative() {
    let pairs = vec![
        (GridCoords::new(0, 0), GridCoords::new(2, 3)),
        (GridCoords::new(1, 3), GridCoords::new(2, 1)),
        (GridCoords::new(2, 2), GridCoords::new(0, 0)),
        (GridCoords::new(1, 1), GridCoords::new(1, 1)),
    ];
    for (a, b) in pairs {
        assert_eq!(normalize_coordinates(a, b), normalize_coordinates(b, a));
    }
}

#[test]
fn start_complete_matches_from_coords() {
    let pairs = vec![
        (GridCoords::new(0, 0), GridCoords::new(1, 1)),
        (GridCoords::new(2, 1), GridCoords::new(0, 3)),
        (GridCoords::new(1, 2), GridCoords::new(1, 2)),
    ];
    for (a, b) in pairs {
        let mut stepped = Selection::new();
        stepped.start(a).unwrap();
        stepped.complete(b).unwrap();

        let direct = Selection::from_coords(a, b);
        assert_eq!(
            stepped.get_normalized_coords().unwrap(),
            direct.get_normalized_coords().unwrap()
        );
    }
}

#[test]
fn key_and_coords_are_inverses() {
    let layout = QwertyLayout::new(4, 3).unwrap();

    // Every valid cell: coords -> key -> coords returns the same cell
    for row in 0..3u32 {
        for col in 0..4u32 {
            let coords = GridCoords::new(row, col);
            let key = layout.coords_to_key(coords).unwrap();
            assert_eq!(layout.key_to_coords(key).unwrap(), coords);
        }
    }

    // Every valid uppercase key: key -> coords -> key returns the key
    for key in layout.valid_keys() {
        let coords = layout.key_to_coords(key).unwrap();
        assert_eq!(layout.coords_to_key(coords).unwrap(), key);
    }

    // A lowercase key folds to its uppercase form first
    let coords = layout.key_to_coords('q').unwrap();
    assert_eq!(layout.coords_to_key(coords).unwrap(), 'Q');
    assert_eq!(ascii_upper('q'), 'Q');
    assert_eq!(ascii_upper('#'), '#');
}

#[test]
fn keyboard_errors_convert_into_selection_errors() {
    let err = KeyboardError::InvalidKey('!');
    assert_eq!(
        SelectionError::from(err.clone()),
        SelectionError::KeyboardError(err)
    );
}

#[test]
fn unsupported_layout_sizes_are_named() {
    assert_eq!(
        QwertyLayout::new(5, 2),
        Err(KeyboardError::UnsupportedGridSize { cols: 5, rows: 2 })
    );
    assert_eq!(
        QwertyLayout::new(0, 0),
        Err(KeyboardError::UnsupportedGridSize { cols: 0, rows: 0 })
    );
}

#[test]
fn degenerate_cell_size_is_rejected() {
    // With a zero minimum, an empty area derives zero-sized cells
    let result = Grid::with_min_cell_size(1, 1, Rect::new(0, 0, 0, 0), 0, 0);
    assert_eq!(
        result.map(|_| ()),
        Err(GridError::InvalidCellSize { width: 0, height: 0 })
    );
}

#[test]
fn oversized_dimensions_are_invalid() {
    // Four rows exceed what the keyboard layout can label
    let big = Rect::new(0, 0, 8000, 8000);
    let result = Grid::new(4, 2, big);
    assert!(matches!(
        result,
        Err(GridError::InvalidDimensions { rows: 4, cols: 2 })
    ));
}

#[test]
fn configurable_minimum_constructor() {
    // 1920x1080 with a 600x500 minimum holds a 2x2 grid...
    let area = Rect::new(0, 0, 1920, 1080);
    let grid = Grid::with_min_cell_size(2, 2, area, 600, 500).unwrap();
    assert_eq!(grid.cell_size(), (960, 540));

    // ...but not a 2x4 one
    let result = Grid::with_min_cell_size(2, 4, area, 600, 500);
    assert!(matches!(
        result,
        Err(GridError::ScreenTooSmall {
            screen_width: 1920,
            screen_height: 1080,
            min_cell_width: 600,
            min_cell_height: 500,
        })
    ));
}

#[test]
fn key_for_coords_labels_cells() {
    let grid = Grid::new(2, 3, Rect::new(0, 0, 1920, 1080)).unwrap();
    assert_eq!(grid.key_for_coords(GridCoords::new(0, 0)).unwrap(), 'Q');
    assert_eq!(grid.key_for_coords(GridCoords::new(0, 2)).unwrap(), 'E');
    assert_eq!(grid.key_for_coords(GridCoords::new(1, 1)).unwrap(), 'S');
    assert!(matches!(
        grid.key_for_coords(GridCoords::new(2, 0)),
        Err(GridError::InvalidCoordinates { max_row: 1, max_col: 2, .. })
    ));
}
