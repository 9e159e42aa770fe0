use lib_wgpu_learn::instance::{instance_grid, GridCell};

#[test]
fn ten_by_ten_grid_has_one_hundred_cells() {
    let cells = instance_grid(10);
    assert_eq!(cells.len(), 100);
    assert_eq!(cells[0], GridCell { column: 0, row: 0, at_origin: false });
    assert_eq!(cells[1], GridCell { column: 1, row: 0, at_origin: false });
    assert_eq!(cells[10], GridCell { column: 0, row: 1, at_origin: false });
    assert_eq!(cells[99], GridCell { column: 9, row: 9, at_origin: false });
}

#[test]
fn grid_center_keeps_the_identity_rotation() {
    let cells = instance_grid(10);
    let origin: Vec<usize> = (0..cells.len()).filter(|&k| cells[k].at_origin).collect();
    assert_eq!(origin, vec![55]);
    assert_eq!(cells[55], GridCell { column: 5, row: 5, at_origin: true });
}

#[test]
fn odd_grid_has_no_cell_at_origin() {
    let cells = instance_grid(3);
    assert_eq!(cells.len(), 9);
    assert!(cells.iter().all(|c| !c.at_origin));
}

#[test]
fn empty_grid() {
    assert!(instance_grid(0).is_empty());
}
