use forgetile::assets::{AssetCatalog, AssetCategory, TileSprite};
use forgetile::camera::InputSnapshot;
use forgetile::geometry::{AxisPosition, ScreenPoint, Size, Viewport};
use forgetile::map::{TileDraw, TileMap, MAP_DEFAULT_ZOOM, MAP_MAX_ZOOM, MAP_MIN_ZOOM};
use forgetile::persist::{MapExport, MapLoadError};
use forgetile::tile::TileTexture;
use forgetile::tiles::{PaintedTile, TileStore};

fn sprite(name: &str, index: usize) -> TileSprite {
    TileSprite { name: name.to_string(), texture: TileTexture { index } }
}

fn catalog() -> AssetCatalog {
    AssetCatalog::assemble(
        None,
        vec![AssetCategory::new(
            "terrain".to_string(),
            vec![sprite("grass_00", 0), sprite("grass_01", 1), sprite("water_00", 2)],
        )],
    )
}

/// A 4 x 3 map of 32 x 32 tiles.
fn small_map() -> TileMap {
    TileMap::new(Size { width: 4_000, height: 3_000 }, Size { width: 32_000, height: 32_000 })
}

/// A window exactly as large as the small map at the map's default zoom of 2.
fn exact_viewport() -> Viewport {
    Viewport { width: 256, height: 192 }
}

fn idle_input() -> InputSnapshot {
    InputSnapshot {
        zoom_in: false,
        zoom_out: false,
        zoom_reset: false,
        pan_up: false,
        pan_down: false,
        pan_left: false,
        pan_right: false,
        pointer: ScreenPoint { x: 0, y: 0 },
        drag_held: false,
        frame_micros: 16_000,
    }
}

fn ids(export: &MapExport) -> Vec<Option<String>> {
    export.tiles.clone()
}

#[test]
fn new_map_rounds_dimensions_and_centers_camera() {
    let map = small_map();
    assert_eq!(map.grid.columns, 4);
    assert_eq!(map.grid.rows, 3);
    assert_eq!(map.camera.screen_center, AxisPosition { x: 64_000, y: 48_000 });
    assert_eq!(map.current_zoom_level(), MAP_DEFAULT_ZOOM);
    assert_eq!(map.current_zoom_level(), 2000);
    assert_eq!(map.grid_size(), Size { width: 128_000, height: 96_000 });
    let tiny = TileMap::new(Size { width: 0, height: 2_500 }, Size { width: 16_000, height: 16_000 });
    assert_eq!(tiny.grid.columns, 1);
    assert_eq!(tiny.grid.rows, 3);
}

#[test]
fn paint_and_export_four_by_three_scenario() {
    let mut map = small_map();
    map.paint_tile(1, 2, &sprite("grass_00", 0));
    let export = map.export();
    assert_eq!(export.width, 4);
    assert_eq!(export.height, 3);
    assert_eq!(export.tile_width, 32_000);
    assert_eq!(export.tile_height, 32_000);
    assert_eq!(export.tiles.len(), 12);
    for (i, id) in export.tiles.iter().enumerate() {
        if i == 2 * 4 + 1 {
            assert_eq!(id.as_deref(), Some("grass_00"));
        } else {
            assert!(id.is_none());
        }
    }
}

#[test]
fn painting_outside_grid_is_ignored() {
    let mut map = small_map();
    map.paint_tile(4, 0, &sprite("grass_00", 0));
    map.paint_tile(0, 3, &sprite("grass_00", 0));
    assert!(map.export().tiles.iter().all(|t| t.is_none()));
}

#[test]
fn hovered_tile_goes_through_camera_and_grid() {
    let map = small_map();
    let viewport = exact_viewport();
    assert_eq!(map.hovered_tile(ScreenPoint { x: 80, y: 140 }, viewport), Some((1, 2)));
    assert_eq!(map.hovered_tile(ScreenPoint { x: 64, y: 0 }, viewport), Some((1, 0)));
    assert_eq!(map.hovered_tile(ScreenPoint { x: 63, y: 0 }, viewport), Some((0, 0)));
    assert_eq!(map.hovered_tile(ScreenPoint { x: 256, y: 0 }, viewport), None);
    assert_eq!(map.hovered_tile(ScreenPoint { x: -1, y: 5 }, viewport), None);
}

#[test]
fn paint_at_pointer() {
    let mut map = small_map();
    let viewport = exact_viewport();
    map.paint_at(ScreenPoint { x: 200, y: 20 }, viewport, &sprite("water_00", 2));
    map.paint_at(ScreenPoint { x: 1000, y: 20 }, viewport, &sprite("grass_01", 1));
    let export = map.export();
    assert_eq!(export.tiles[3].as_deref(), Some("water_00"));
    assert_eq!(export.tiles.iter().filter(|t| t.is_some()).count(), 1);
}

#[test]
fn tile_draws_list_painted_cells() {
    let mut map = small_map();
    map.paint_tile(1, 2, &sprite("grass_00", 0));
    map.paint_tile(3, 0, &sprite("water_00", 2));
    let draws = map.tile_draws();
    let size = Size { width: 32_000, height: 32_000 };
    assert_eq!(
        draws,
        vec![
            TileDraw { position: AxisPosition { x: 96_000, y: 0 }, size, texture: TileTexture { index: 2 } },
            TileDraw { position: AxisPosition { x: 32_000, y: 64_000 }, size, texture: TileTexture { index: 0 } },
        ]
    );
}

#[test]
fn frame_zooms_pans_and_clamps() {
    let mut map = TileMap::new(Size { width: 100_000, height: 100_000 }, Size { width: 32_000, height: 32_000 });
    let viewport = Viewport { width: 320, height: 320 };
    let mut input = idle_input();
    input.zoom_in = true;
    input.pan_left = true;
    input.frame_micros = 100_000_000;
    let rect = map.frame(&input, viewport);
    assert_eq!(map.current_zoom_level(), 2400);
    // The view is 133_333 wide; panning far left stops at half of it.
    assert_eq!(map.camera.screen_center.x, 66_666);
    assert_eq!(rect.w, 133_333);
    assert_eq!(rect.x, 0);
}

#[test]
fn drag_pan_follows_pointer_and_stops_on_release() {
    let mut map = TileMap::new(Size { width: 100_000, height: 100_000 }, Size { width: 32_000, height: 32_000 });
    let viewport = Viewport { width: 320, height: 320 };
    let start = map.camera.screen_center;
    let mut input = idle_input();
    input.drag_held = true;
    input.pointer = ScreenPoint { x: 10, y: 10 };
    map.frame(&input, viewport);
    assert_eq!(map.camera.screen_center, start);
    assert_eq!(map.last_drag_position, Some(ScreenPoint { x: 10, y: 10 }));
    input.pointer = ScreenPoint { x: 30, y: 5 };
    map.frame(&input, viewport);
    // At zoom 2 a screen pixel covers 500 world units.
    assert_eq!(map.camera.screen_center, AxisPosition { x: start.x + 10_000, y: start.y - 2_500 });
    input.drag_held = false;
    map.frame(&input, viewport);
    assert_eq!(map.last_drag_position, None);
}

#[test]
fn export_then_load_restores_map() {
    let cat = catalog();
    let mut map = small_map();
    map.paint_tile(1, 2, &sprite("grass_00", 0));
    map.paint_tile(0, 0, &sprite("water_00", 2));
    let export = map.export();
    let mut other = TileMap::new(Size { width: 9_000, height: 9_000 }, Size { width: 8_000, height: 8_000 });
    assert!(other.load_export(&export, &cat, exact_viewport()).is_ok());
    assert_eq!(other.grid, map.grid);
    assert_eq!(ids(&other.export()), ids(&export));
    assert_eq!(other.tile_draws(), map.tile_draws());
    assert_eq!(other.camera.screen_center, AxisPosition { x: 64_000, y: 48_000 });
}

#[test]
fn load_with_wrong_tile_count_leaves_map_unchanged() {
    let cat = catalog();
    let mut map = small_map();
    map.paint_tile(2, 1, &sprite("grass_01", 1));
    let before = map.export();
    let bad = MapExport {
        width: 4,
        height: 3,
        tile_width: 32_000,
        tile_height: 32_000,
        tiles: vec![None; 11],
    };
    let result = map.load_export(&bad, &cat, exact_viewport());
    assert!(matches!(result, Err(MapLoadError::TileCountMismatch { expected: 12, found: 11 })));
    let after = map.export();
    assert_eq!(ids(&after), ids(&before));
    assert_eq!(map.grid.columns, 4);
}

#[test]
fn load_with_unknown_id_reports_first_and_leaves_map_unchanged() {
    let cat = catalog();
    let mut map = small_map();
    map.paint_tile(0, 0, &sprite("grass_00", 0));
    let before = map.export();
    let mut tiles = vec![None; 4];
    tiles[0] = Some("grass_01".to_string());
    tiles[1] = Some("lava_00".to_string());
    tiles[3] = Some("void_00".to_string());
    let bad = MapExport { width: 2, height: 2, tile_width: 16_000, tile_height: 16_000, tiles };
    match map.load_export(&bad, &cat, exact_viewport()) {
        Err(MapLoadError::UnknownTile(id)) => assert_eq!(id, "lava_00"),
        other => panic!("unexpected result {other:?}"),
    }
    assert_eq!(ids(&map.export()), ids(&before));
    assert_eq!(map.grid.columns, 4);
}

#[test]
fn load_with_zero_or_negative_tile_size_succeeds() {
    let cat = catalog();
    let mut map = small_map();
    let mut tiles = vec![None; 6];
    tiles[4] = Some("grass_01".to_string());
    let flat = MapExport { width: 3, height: 2, tile_width: 0, tile_height: -16_000, tiles };
    assert!(map.load_export(&flat, &cat, exact_viewport()).is_ok());
    assert_eq!(map.grid.columns, 3);
    assert_eq!(map.grid.tile_width, 0);
    assert_eq!(map.grid.tile_height, -16_000);
    assert_eq!(map.export().tiles[4].as_deref(), Some("grass_01"));
    assert_eq!(map.camera.screen_center, AxisPosition { x: 0, y: -16_000 });
    for x in [0, 10, 128, 255] {
        assert_eq!(map.hovered_tile(ScreenPoint { x, y: 50 }, exact_viewport()), None);
    }
}

#[test]
fn load_beyond_world_range_is_refused() {
    let cat = catalog();
    let mut map = small_map();
    let huge = MapExport {
        width: 1,
        height: 1,
        tile_width: 2_000_000_000_000_000,
        tile_height: 32_000,
        tiles: vec![None],
    };
    assert!(matches!(map.load_export(&huge, &cat, exact_viewport()), Err(MapLoadError::InvalidGeometry)));
    let overflow = MapExport { width: usize::MAX, height: 2, tile_width: 1, tile_height: 1, tiles: vec![] };
    assert!(matches!(map.load_export(&overflow, &cat, exact_viewport()), Err(MapLoadError::InvalidGeometry)));
    assert_eq!(map.grid.columns, 4);
}

#[test]
fn map_zoom_stays_within_its_own_bounds() {
    let mut map = small_map();
    let mut input = idle_input();
    input.zoom_out = true;
    map.update_zoom(&input);
    assert_eq!(map.current_zoom_level(), 1666);
    for _ in 0..20 {
        map.update_zoom(&input);
        assert!(map.current_zoom_level() >= MAP_MIN_ZOOM);
    }
    assert_eq!(map.current_zoom_level(), 500);
    let mut input = idle_input();
    input.zoom_in = true;
    for _ in 0..40 {
        map.update_zoom(&input);
        assert!(map.current_zoom_level() <= MAP_MAX_ZOOM);
    }
    assert_eq!(map.current_zoom_level(), 8000);
    input.zoom_reset = true;
    map.update_zoom(&input);
    assert_eq!(map.current_zoom_level(), 2000);
}

#[test]
fn map_zoom_out_from_just_above_floor_stops_at_floor() {
    let mut map = small_map();
    map.camera.zoom_level = 550;
    let mut input = idle_input();
    input.zoom_out = true;
    map.update_zoom(&input);
    assert_eq!(map.current_zoom_level(), 500);
}

#[test]
fn tile_store_paint_get_clear_resize() {
    let mut store = TileStore::new(3, 2);
    assert_eq!(store.cells.len(), 6);
    store.paint(2, 1, PaintedTile { tile_id: "grass_00".to_string(), texture: TileTexture { index: 4 } });
    store.paint(3, 0, PaintedTile { tile_id: "x".to_string(), texture: TileTexture { index: 5 } });
    assert_eq!(store.get(2, 1).map(|t| t.tile_id.as_str()), Some("grass_00"));
    assert!(store.get(3, 0).is_none());
    assert!(store.get(0, 0).is_none());
    let copy = store.get(2, 1).map(|t| t.duplicate());
    assert_eq!(copy.map(|t| t.texture.index), Some(4));
    store.clear_all();
    assert!(store.get(2, 1).is_none());
    store.resize_replace(5, 5);
    assert_eq!(store.cells.len(), 25);
    assert_eq!(store.columns, 5);
}
