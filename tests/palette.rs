use forgetile::assets::{AssetCatalog, AssetCategory, TileSprite};
use forgetile::palette::PaletteSelection;
use forgetile::tile::TileTexture;

fn sprite(name: &str, index: usize) -> TileSprite {
    TileSprite { name: name.to_string(), texture: TileTexture { index } }
}

fn two_categories() -> AssetCatalog {
    AssetCatalog::assemble(
        None,
        vec![
            AssetCategory::new("a".to_string(), vec![sprite("a_00", 0), sprite("a_01", 1)]),
            AssetCategory::new("b".to_string(), vec![sprite("b_00", 2)]),
        ],
    )
}

#[test]
fn selection_past_last_category_resets() {
    let catalog = two_categories();
    let mut sel = PaletteSelection { category: 5, tile: Some(0) };
    sel.ensure_selection_bounds(&catalog);
    assert_eq!(sel, PaletteSelection { category: 0, tile: None });
}

#[test]
fn selection_past_last_sprite_is_dropped() {
    let catalog = two_categories();
    let mut sel = PaletteSelection { category: 1, tile: Some(1) };
    sel.ensure_selection_bounds(&catalog);
    assert_eq!(sel, PaletteSelection { category: 1, tile: None });
    let mut sel = PaletteSelection { category: 0, tile: Some(1) };
    sel.ensure_selection_bounds(&catalog);
    assert_eq!(sel, PaletteSelection { category: 0, tile: Some(1) });
}

#[test]
fn selection_with_empty_catalog() {
    let catalog = AssetCatalog::assemble(None, vec![]);
    let mut sel = PaletteSelection { category: 3, tile: Some(2) };
    sel.ensure_selection_bounds(&catalog);
    assert_eq!(sel, PaletteSelection::new());
    assert!(sel.selected_sprite(&catalog).is_none());
}

#[test]
fn selected_sprite_follows_selection() {
    let catalog = two_categories();
    let sel = PaletteSelection { category: 0, tile: Some(1) };
    assert_eq!(sel.selected_sprite(&catalog).map(|s| s.name.as_str()), Some("a_01"));
    let sel = PaletteSelection { category: 1, tile: None };
    assert!(sel.selected_sprite(&catalog).is_none());
    let sel = PaletteSelection { category: 1, tile: Some(4) };
    assert!(sel.selected_sprite(&catalog).is_none());
}
