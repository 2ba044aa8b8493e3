use forgetile::assets::{
    is_supported_image, sheet_layout, size_to_pixels, sprite_label, AssetCatalog, AssetCategory, SheetLayout,
    TileSprite,
};
use forgetile::geometry::Size;
use forgetile::tile::TileTexture;

fn sprite(name: &str, index: usize) -> TileSprite {
    TileSprite { name: name.to_string(), texture: TileTexture { index } }
}

#[test]
fn image_extensions_ignore_case() {
    assert!(is_supported_image(Some("png")));
    assert!(is_supported_image(Some("PNG")));
    assert!(is_supported_image(Some("Jpg")));
    assert!(is_supported_image(Some("jpeg")));
    assert!(!is_supported_image(Some("gif")));
    assert!(!is_supported_image(Some("pn")));
    assert!(!is_supported_image(Some("")));
    assert!(!is_supported_image(None));
}

#[test]
fn tile_size_rounds_to_pixels() {
    assert_eq!(size_to_pixels(Size { width: 32_000, height: 16_000 }), Some((32, 16)));
    assert_eq!(size_to_pixels(Size { width: 31_500, height: 31_499 }), Some((32, 31)));
    assert_eq!(size_to_pixels(Size { width: 500, height: 1_000 }), Some((1, 1)));
    assert_eq!(size_to_pixels(Size { width: 499, height: 32_000 }), None);
    assert_eq!(size_to_pixels(Size { width: -32_000, height: 32_000 }), None);
}

#[test]
fn sprite_sheet_layout_counts_whole_tiles() {
    let tile = Size { width: 32_000, height: 32_000 };
    assert_eq!(
        sheet_layout(100, 64, tile),
        Some(SheetLayout { tile_width: 32, tile_height: 32, columns: 3, rows: 2 })
    );
    assert_eq!(sheet_layout(31, 64, tile), None);
    assert_eq!(sheet_layout(64, 64, Size { width: 0, height: 32_000 }), None);
}

#[test]
fn catalog_finds_first_sprite_with_id() {
    let catalog = AssetCatalog::assemble(
        None,
        vec![
            AssetCategory::new("grass".to_string(), vec![sprite("grass_00", 0), sprite("grass_01", 1)]),
            AssetCategory::new("dup".to_string(), vec![sprite("grass_01", 7)]),
        ],
    );
    assert_eq!(catalog.sprite_by_id("grass_01").map(|s| s.texture.index), Some(1));
    assert_eq!(catalog.sprite_by_id("grass_00").map(|s| s.texture.index), Some(0));
    assert!(catalog.sprite_by_id("lava").is_none());
    assert!(catalog.sprite_by_id("grass_0").is_none());
}

#[test]
fn catalog_assembly_keeps_non_empty_categories() {
    let catalog = AssetCatalog::assemble(
        Some(AssetCategory::new("assets".to_string(), vec![sprite("a_00", 0)])),
        vec![
            AssetCategory::new("empty".to_string(), vec![]),
            AssetCategory::new("water".to_string(), vec![sprite("water_00", 1)]),
        ],
    );
    assert!(!catalog.is_empty());
    let names: Vec<&str> = catalog.categories().iter().map(|c| c.name.as_str()).collect();
    assert_eq!(names, vec!["General", "water"]);
    assert_eq!(catalog.category(1).map(|c| c.tiles.len()), Some(1));
    assert!(catalog.category(2).is_none());
}

#[test]
fn catalog_without_sprites_is_empty() {
    let catalog = AssetCatalog::assemble(
        Some(AssetCategory::new("assets".to_string(), vec![])),
        vec![AssetCategory::new("empty".to_string(), vec![])],
    );
    assert!(catalog.is_empty());
    assert!(catalog.category(0).is_none());
}

#[test]
fn sprite_labels_pad_index_to_two_digits() {
    assert_eq!(sprite_label("grass", 0), "grass_00");
    assert_eq!(sprite_label("grass", 7), "grass_07");
    assert_eq!(sprite_label("grass", 12), "grass_12");
    assert_eq!(sprite_label("big sheet", 1204), "big sheet_1204");
    assert_eq!(sprite_label("", 10), "_10");
}
