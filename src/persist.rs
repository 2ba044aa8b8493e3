use crate::assets::AssetCatalog;
use crate::camera::CameraController;
use crate::geometry::{half, within_world, AxisPosition, Viewport, WORLD_LIMIT};
use crate::grid::GridIndex;
use crate::map::{exported_id, TileMap};
use crate::tiles::{PaintedTile, TileStore};
use vstd::prelude::*;

verus! {

/// The persisted form of a map: its geometry and, row-major, the sprite id of
/// each cell or `None` for an empty one.
#[derive(Debug)]
pub struct MapExport {
    pub width: usize,
    pub height: usize,
    pub tile_width: i64,
    pub tile_height: i64,
    pub tiles: Vec<Option<String>>,
}

/// Why a map could not be loaded. A failed load leaves the map as it was.
#[derive(Debug)]
pub enum MapLoadError {
    /// The file could not be read or written.
    Io(String),
    /// The file's text is not a map.
    Parse(String),
    /// The tile list's length is not `width * height`.
    TileCountMismatch { expected: usize, found: usize },
    /// A cell names a sprite that the catalog does not have.
    UnknownTile(String),
    /// The grid's extents do not fit the world range.
    InvalidGeometry,
}

/// Position of the first cell, at `i` or after, whose id the catalog lacks.
pub open spec fn first_unknown_from(tiles: Seq<Option<String>>, catalog: AssetCatalog, i: int) -> Option<int>
    decreases tiles.len() - i,
{
    if i < 0 || i >= tiles.len() {
        None
    } else {
        match tiles[i] {
            Some(id) => if catalog.lookup(id@).is_none() {
                Some(i)
            } else {
                first_unknown_from(tiles, catalog, i + 1)
            },
            None => first_unknown_from(tiles, catalog, i + 1),
        }
    }
}

/// Grid extents within the world range.
pub open spec fn geometry_fits(e: MapExport) -> bool {
    &&& within_world(e.width * e.tile_width)
    &&& within_world(e.height * e.tile_height)
}

/// The error a load of `e` against `catalog` reports, checked in order: the
/// tile count, then each id in turn, then the geometry.
pub open spec fn load_error(e: MapExport, catalog: AssetCatalog) -> Option<MapLoadError> {
    if e.width * e.height > usize::MAX {
        Some(MapLoadError::InvalidGeometry)
    } else if e.tiles@.len() != e.width * e.height {
        Some(
            MapLoadError::TileCountMismatch {
                expected: (e.width * e.height) as usize,
                found: e.tiles@.len() as usize,
            },
        )
    } else {
        match first_unknown_from(e.tiles@, catalog, 0) {
            Some(i) => Some(MapLoadError::UnknownTile(e.tiles@[i]->Some_0)),
            None => if geometry_fits(e) {
                None
            } else {
                Some(MapLoadError::InvalidGeometry)
            },
        }
    }
}

/// The cell loaded for a saved id: the catalog's sprite of that id.
pub open spec fn loaded_cell(id: Option<String>, catalog: AssetCatalog) -> Option<PaintedTile> {
    match id {
        Some(s) => Some(PaintedTile { tile_id: s, texture: catalog.lookup(s@)->Some_0.texture }),
        None => None,
    }
}

pub open spec fn loaded_cells(tiles: Seq<Option<String>>, catalog: AssetCatalog) -> Seq<Option<PaintedTile>> {
    tiles.map_values(|t: Option<String>| loaded_cell(t, catalog))
}

/// The grid that a load of `e` sets up.
pub open spec fn loaded_grid(e: MapExport) -> GridIndex {
    GridIndex { columns: e.width, rows: e.height, tile_width: e.tile_width, tile_height: e.tile_height }
}

impl TileMap {
    /// `e` is this map's persisted form.
    pub open spec fn is_exported_as(&self, e: MapExport) -> bool {
        &&& e.width == self.grid.columns
        &&& e.height == self.grid.rows
        &&& e.tile_width == self.grid.tile_width
        &&& e.tile_height == self.grid.tile_height
        &&& e.tiles@ == self.tiles.cells@.map_values(|c: Option<PaintedTile>| exported_id(c))
    }

    /// The map's persisted form: its geometry and each cell's sprite id.
    pub fn export(&self) -> (r: MapExport)
        requires
            self.wf(),
        ensures
            self.is_exported_as(r),
    {
        let n = self.tiles.cells.len();
        let mut tiles: Vec<Option<String>> = Vec::with_capacity(n);
        let mut i: usize = 0;
        while i < n
            invariant
                n == self.tiles.cells@.len(),
                0 <= i <= n,
                tiles@ == self.tiles.cells@.take(i as int).map_values(
                    |c: Option<PaintedTile>| exported_id(c),
                ),
            decreases n - i,
        {
            let id = match &self.tiles.cells[i] {
                Some(painted) => Some(painted.tile_id.clone()),
                None => None,
            };
            tiles.push(id);
            i += 1;
            assert(tiles@ =~= self.tiles.cells@.take(i as int).map_values(
                |c: Option<PaintedTile>| exported_id(c),
            ));
        }
        assert(self.tiles.cells@.take(n as int) =~= self.tiles.cells@);
        MapExport {
            width: self.grid.columns,
            height: self.grid.rows,
            tile_width: self.grid.tile_width,
            tile_height: self.grid.tile_height,
            tiles,
        }
    }

    /// Replaces the map by `export`, each id resolved against `catalog`, and
    /// re-centers the camera on the new grid, clamped. Everything is checked
    /// before anything changes: on an error the map is left as it was.
    pub fn load_export(
        &mut self,
        export: &MapExport,
        catalog: &AssetCatalog,
        viewport: Viewport,
    ) -> (r: Result<(), MapLoadError>)
        requires
            old(self).wf(),
        ensures
            final(self).wf(),
            match r {
                Ok(()) => {
                    &&& load_error(*export, *catalog).is_none()
                    &&& final(self).grid == loaded_grid(*export)
                    &&& final(self).tiles.cells@ == loaded_cells(export.tiles@, *catalog)
                    &&& final(self).camera == (CameraController {
                        screen_center: AxisPosition {
                            x: (final(self).grid.width_extent() / 2) as i64,
                            y: (final(self).grid.height_extent() / 2) as i64,
                        },
                        zoom_level: old(self).camera.zoom_level,
                    }).clamped(final(self).grid_extent(), viewport)
                    &&& final(self).last_drag_position == old(self).last_drag_position
                },
                Err(e) => load_error(*export, *catalog) == Some(e) && *final(self) == *old(self),
            },
            export.width * export.height <= usize::MAX && export.tiles@.len() != export.width
                * export.height ==> r == Err::<(), MapLoadError>(
                MapLoadError::TileCountMismatch {
                    expected: (export.width * export.height) as usize,
                    found: export.tiles@.len() as usize,
                },
            ),
            export.width * export.height == export.tiles@.len() ==> (first_unknown_from(
                export.tiles@,
                *catalog,
                0,
            ) matches Some(i) ==> r == Err::<(), MapLoadError>(
                MapLoadError::UnknownTile(export.tiles@[i]->Some_0),
            )),
    {
        let found = export.tiles.len();
        let expected = match export.width.checked_mul(export.height) {
            Some(n) => n,
            None => return Err(MapLoadError::InvalidGeometry),
        };
        if found != expected {
            return Err(MapLoadError::TileCountMismatch { expected, found });
        }
        let mut cells: Vec<Option<PaintedTile>> = Vec::with_capacity(found);
        let mut i: usize = 0;
        while i < found
            invariant
                *self == *old(self),
                self.wf(),
                found == export.tiles@.len(),
                found == export.width * export.height,
                0 <= i <= found,
                cells@ == loaded_cells(export.tiles@.take(i as int), *catalog),
                first_unknown_from(export.tiles@, *catalog, 0) == first_unknown_from(
                    export.tiles@,
                    *catalog,
                    i as int,
                ),
            decreases found - i,
        {
            match &export.tiles[i] {
                Some(id) => match catalog.sprite_by_id(id.as_str()) {
                    Some(sprite) => {
                        cells.push(Some(PaintedTile { tile_id: id.clone(), texture: sprite.texture }));
                    },
                    None => {
                        return Err(MapLoadError::UnknownTile(id.clone()));
                    },
                },
                None => {
                    cells.push(None);
                },
            }
            i += 1;
            assert(cells@ =~= loaded_cells(export.tiles@.take(i as int), *catalog));
        }
        assert(export.tiles@.take(found as int) =~= export.tiles@);
        assert(i128::MIN <= export.width * export.tile_width <= i128::MAX) by (nonlinear_arith)
            requires
                0 <= export.width <= usize::MAX,
                i64::MIN <= export.tile_width <= i64::MAX,
                usize::MAX <= u64::MAX,
        ;
        assert(i128::MIN <= export.height * export.tile_height <= i128::MAX) by (nonlinear_arith)
            requires
                0 <= export.height <= usize::MAX,
                i64::MIN <= export.tile_height <= i64::MAX,
                usize::MAX <= u64::MAX,
        ;
        let width_extent = (export.width as i128) * (export.tile_width as i128);
        let height_extent = (export.height as i128) * (export.tile_height as i128);
        let limit = WORLD_LIMIT as i128;
        if width_extent < -limit || width_extent > limit || height_extent < -limit
            || height_extent > limit {
            return Err(MapLoadError::InvalidGeometry);
        }
        self.grid = GridIndex {
            columns: export.width,
            rows: export.height,
            tile_width: export.tile_width,
            tile_height: export.tile_height,
        };
        self.tiles = TileStore { columns: export.width, rows: export.height, cells };
        let size = self.grid.grid_size();
        self.camera.screen_center = AxisPosition { x: half(size.width), y: half(size.height) };
        self.clamp_camera_center(viewport);
        Ok(())
    }
}

/// No cell at `i` or after names an id that the catalog lacks.
proof fn lemma_none_unknown_from(tiles: Seq<Option<String>>, catalog: AssetCatalog, i: int)
    requires
        0 <= i,
        forall|j: int|
            i <= j < tiles.len() && (#[trigger] tiles[j]).is_some() ==> catalog.lookup(
                tiles[j]->Some_0@,
            ).is_some(),
    ensures
        first_unknown_from(tiles, catalog, i).is_none(),
    decreases tiles.len() - i,
{
    if i < tiles.len() {
        lemma_none_unknown_from(tiles, catalog, i + 1);
    }
}

/// Exporting a map and loading the result against a catalog that knows every
/// painted id succeeds, and gives back the grid and the id of every cell; when
/// each cell's texture is the one the catalog gives for its id, every cell
/// comes back exactly.
pub proof fn lemma_export_load_round_trip(m: TileMap, e: MapExport, catalog: AssetCatalog)
    requires
        m.wf(),
        m.is_exported_as(e),
        forall|i: int|
            0 <= i < m.tiles.cells@.len() && (#[trigger] m.tiles.cells@[i]).is_some()
                ==> catalog.lookup(m.tiles.cells@[i]->Some_0.tile_id@).is_some(),
    ensures
        load_error(e, catalog).is_none(),
        loaded_grid(e) == m.grid,
        loaded_cells(e.tiles@, catalog).map_values(|c: Option<PaintedTile>| exported_id(c))
            == m.tiles.cells@.map_values(|c: Option<PaintedTile>| exported_id(c)),
        (forall|i: int|
            0 <= i < m.tiles.cells@.len() && (#[trigger] m.tiles.cells@[i]).is_some()
                ==> catalog.lookup(m.tiles.cells@[i]->Some_0.tile_id@)->Some_0.texture
                == m.tiles.cells@[i]->Some_0.texture) ==> loaded_cells(e.tiles@, catalog)
            == m.tiles.cells@,
{
    let cells = m.tiles.cells@;
    assert forall|j: int| 0 <= j < e.tiles@.len() && (#[trigger] e.tiles@[j]).is_some() implies catalog.lookup(
        e.tiles@[j]->Some_0@,
    ).is_some() by {
        assert(e.tiles@[j] == exported_id(cells[j]));
        assert(cells[j].is_some());
    }
    lemma_none_unknown_from(e.tiles@, catalog, 0);
    assert(loaded_cells(e.tiles@, catalog).map_values(|c: Option<PaintedTile>| exported_id(c))
        =~= cells.map_values(|c: Option<PaintedTile>| exported_id(c)));
    if forall|i: int|
        0 <= i < cells.len() && (#[trigger] cells[i]).is_some()
            ==> catalog.lookup(cells[i]->Some_0.tile_id@)->Some_0.texture == cells[i]->Some_0.texture {
        assert forall|j: int| 0 <= j < cells.len() implies #[trigger] loaded_cells(e.tiles@, catalog)[j]
            == cells[j] by {
            assert(e.tiles@[j] == exported_id(cells[j]));
            if cells[j].is_some() {
                assert(cells[j] is Some);
            }
        }
        assert(loaded_cells(e.tiles@, catalog) =~= cells);
    }
}

} // verus!
