use forgetile::geometry::{AxisPosition, Size};
use forgetile::grid::GridIndex;

fn four_by_three() -> GridIndex {
    GridIndex { columns: 4, rows: 3, tile_width: 32_000, tile_height: 32_000 }
}

#[test]
fn tile_coord_of_interior_points() {
    let g = four_by_three();
    assert_eq!(g.to_tile_coord(AxisPosition { x: 0, y: 0 }), Some((0, 0)));
    assert_eq!(g.to_tile_coord(AxisPosition { x: 31_999, y: 31_999 }), Some((0, 0)));
    assert_eq!(g.to_tile_coord(AxisPosition { x: 40_000, y: 70_000 }), Some((1, 2)));
    assert_eq!(g.to_tile_coord(AxisPosition { x: 127_999, y: 95_999 }), Some((3, 2)));
}

#[test]
fn tile_boundary_belongs_to_higher_tile() {
    let g = four_by_three();
    assert_eq!(g.to_tile_coord(AxisPosition { x: 32_000, y: 0 }), Some((1, 0)));
    assert_eq!(g.to_tile_coord(AxisPosition { x: 96_000, y: 64_000 }), Some((3, 2)));
}

#[test]
fn tile_coord_outside_grid_is_none() {
    let g = four_by_three();
    assert_eq!(g.to_tile_coord(AxisPosition { x: -1, y: 0 }), None);
    assert_eq!(g.to_tile_coord(AxisPosition { x: 0, y: -1 }), None);
    assert_eq!(g.to_tile_coord(AxisPosition { x: 128_000, y: 0 }), None);
    assert_eq!(g.to_tile_coord(AxisPosition { x: 0, y: 96_000 }), None);
}

#[test]
fn linear_index_is_row_major() {
    let g = four_by_three();
    assert_eq!(g.to_linear(1, 2), Some(9));
    assert_eq!(g.to_linear(0, 0), Some(0));
    assert_eq!(g.to_linear(3, 2), Some(11));
    assert_eq!(g.to_linear(4, 0), None);
    assert_eq!(g.to_linear(0, 3), None);
}

#[test]
fn grid_size_and_tile_origin() {
    let g = four_by_three();
    assert_eq!(g.grid_size(), Size { width: 128_000, height: 96_000 });
    assert_eq!(g.tile_origin(1, 2), AxisPosition { x: 32_000, y: 64_000 });
    assert_eq!(g.tile_origin(4, 3), AxisPosition { x: 128_000, y: 96_000 });
    assert_eq!(g.cell_count(), 12);
}
