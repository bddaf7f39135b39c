use tile_editor::grid::{tile_grid, GRID_SIDE, GRID_STEP};

#[test]
fn one_frame_draws_6561_tiles() {
    assert_eq!(GRID_SIDE, 81);
    assert_eq!(GRID_STEP, 10);
    assert_eq!(tile_grid().len(), 81 * 81);
    assert_eq!(tile_grid().len(), 6561);
}

#[test]
fn draws_go_column_by_column() {
    let cells = tile_grid();
    assert_eq!(cells[0], (0, 0));
    assert_eq!(cells[1], (0, 10));
    assert_eq!(cells[80], (0, 800));
    assert_eq!(cells[81], (10, 0));
    assert_eq!(cells[82], (10, 10));
    assert_eq!(cells[6560], (800, 800));
}

#[test]
fn positions_form_a_regular_ten_unit_grid() {
    let cells = tile_grid();
    for column in 0..81usize {
        for row in 0..81usize {
            assert_eq!(cells[81 * column + row], (10 * column as u32, 10 * row as u32));
        }
    }
}

#[test]
fn no_position_is_drawn_twice() {
    let mut cells = tile_grid();
    cells.sort();
    cells.dedup();
    assert_eq!(cells.len(), 6561);
}
