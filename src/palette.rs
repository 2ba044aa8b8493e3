use crate::assets::{AssetCatalog, TileSprite};
use vstd::prelude::*;

verus! {

/// Which category and which sprite of it the palette has selected.
#[derive(Debug, Clone, Copy, PartialEq, Eq, Structural)]
pub struct PaletteSelection {
    pub category: usize,
    pub tile: Option<usize>,
}

impl PaletteSelection {
    /// The selection once made to fit `catalog`.
    pub open spec fn fitted(self, catalog: AssetCatalog) -> PaletteSelection {
        let count = catalog.categories@.len();
        if count == 0 || self.category >= count {
            PaletteSelection { category: 0, tile: None }
        } else {
            match self.tile {
                Some(i) => if i < catalog.categories@[self.category as int].tiles@.len() {
                    self
                } else {
                    PaletteSelection { tile: None, ..self }
                },
                None => self,
            }
        }
    }

    /// The selection names an existing sprite of `catalog`.
    pub open spec fn names_sprite(self, catalog: AssetCatalog) -> bool {
        &&& self.category < catalog.categories@.len()
        &&& self.tile is Some
        &&& self.tile->Some_0 < catalog.categories@[self.category as int].tiles@.len()
    }

    /// Nothing selected, first category shown.
    pub fn new() -> (r: Self)
        ensures
            r.category == 0,
            r.tile.is_none(),
    {
        PaletteSelection { category: 0, tile: None }
    }

    /// Makes the selection fit `catalog`: a category past the last goes back
    /// to the first and drops the sprite; a sprite past its category's last
    /// is dropped.
    pub fn ensure_selection_bounds(&mut self, catalog: &AssetCatalog)
        ensures
            *final(self) == old(self).fitted(*catalog),
    {
        let category_count = catalog.categories().len();
        if category_count == 0 {
            self.category = 0;
            self.tile = None;
            return;
        }
        if self.category >= category_count {
            self.category = 0;
            self.tile = None;
            return;
        }
        if let Some(category) = catalog.category(self.category) {
            if let Some(index) = self.tile {
                if index >= category.tiles.len() {
                    self.tile = None;
                }
            }
        }
    }

    /// The selected sprite, if the selection names one in `catalog`.
    pub fn selected_sprite<'a>(&self, catalog: &'a AssetCatalog) -> (r: Option<&'a TileSprite>)
        ensures
            match r {
                Some(s) => self.names_sprite(*catalog) && *s == catalog.categories@[self.category
                    as int].tiles@[self.tile->Some_0 as int],
                None => !self.names_sprite(*catalog),
            },
    {
        let category = match catalog.category(self.category) {
            Some(c) => c,
            None => return None,
        };
        let index = match self.tile {
            Some(i) => i,
            None => return None,
        };
        if index < category.tiles.len() {
            Some(&category.tiles[index])
        } else {
            None
        }
    }
}

} // verus!
