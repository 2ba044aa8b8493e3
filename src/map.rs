use crate::assets::{rounded_pixels, TileSprite};
use crate::camera::{
    view_extent, CameraController, InputSnapshot, PIXEL_SCALE, ZOOM_STEP_DENOM, ZOOM_STEP_NUMER,
};
use crate::geometry::{
    floor_div, within_world, AxisPosition, Rect, ScreenPoint, Size, Viewport, FIXED_ONE,
    WORLD_LIMIT,
};
use crate::grid::{linear_index, GridIndex};
use crate::tile::TileTexture;
use crate::tiles::{empty_cells, PaintedTile, TileStore};
use vstd::prelude::*;

verus! {

/// The editor's map: grid geometry, painted cells, and the camera looking at them.
#[derive(Debug)]
pub struct TileMap {
    pub grid: GridIndex,
    pub tiles: TileStore,
    pub camera: CameraController,
    /// Pointer position at the previous frame of a drag-to-pan, if one is going on.
    pub last_drag_position: Option<ScreenPoint>,
}

/// One painted cell to draw: where, how large, and with which texture.
#[derive(Debug, Clone, Copy, PartialEq, Eq, Structural)]
pub struct TileDraw {
    pub position: AxisPosition,
    pub size: Size,
    pub texture: TileTexture,
}

/// The map's zoom factor at creation and after a reset, in thousandths.
pub const MAP_DEFAULT_ZOOM: u32 = 2000;

/// The map's smallest zoom factor, in thousandths.
pub const MAP_MIN_ZOOM: u32 = 500;

/// The map's largest zoom factor, in thousandths.
pub const MAP_MAX_ZOOM: u32 = 8000;

/// The map's keyboard panning speed, in world pixels per second.
pub const MAP_PAN_SPEED: u64 = 600;

pub open spec fn map_zoomed_in(zoom: u32) -> u32 {
    let z = zoom as int * ZOOM_STEP_NUMER as int / ZOOM_STEP_DENOM as int;
    if z > MAP_MAX_ZOOM {
        MAP_MAX_ZOOM
    } else {
        z as u32
    }
}

pub open spec fn map_zoomed_out(zoom: u32) -> u32 {
    let z = zoom as int * ZOOM_STEP_DENOM as int / ZOOM_STEP_NUMER as int;
    if z < MAP_MIN_ZOOM {
        MAP_MIN_ZOOM
    } else {
        z as u32
    }
}

/// The map's zoom after a frame's zoom keys, applied in the order in, out, reset.
pub open spec fn map_zoom_after_input(zoom: u32, input: InputSnapshot) -> u32 {
    let z1 = if input.zoom_in {
        map_zoomed_in(zoom)
    } else {
        zoom
    };
    let z2 = if input.zoom_out {
        map_zoomed_out(z1)
    } else {
        z1
    };
    if input.zoom_reset {
        MAP_DEFAULT_ZOOM
    } else {
        z2
    }
}

/// Tiles along one side for a map dimension given in fixed-point tiles:
/// rounded, and at least one.
pub open spec fn tiles_for_dimension(value: int) -> int {
    if value < FIXED_ONE {
        1
    } else {
        rounded_pixels(value)
    }
}

fn dimension_to_tiles(value: i64) -> (r: u64)
    ensures
        r == tiles_for_dimension(value as int),
        r >= 1,
{
    let v = if value < FIXED_ONE {
        FIXED_ONE
    } else {
        value
    };
    let whole = (v / FIXED_ONE) as u64;
    if v % FIXED_ONE >= FIXED_ONE / 2 {
        whole + 1
    } else {
        whole
    }
}

/// World-space offset of a pointer move of `d` screen pixels at zoom `zoom`.
pub open spec fn drag_offset(d: int, zoom: u32) -> int {
    d * PIXEL_SCALE as int / zoom as int
}

/// The id a cell is saved under.
pub open spec fn exported_id(cell: Option<PaintedTile>) -> Option<String> {
    match cell {
        Some(t) => Some(t.tile_id),
        None => None,
    }
}

/// What is drawn for cell `i` of a grid, if it is painted.
pub open spec fn draw_of(grid: GridIndex, i: int, cell: Option<PaintedTile>) -> Seq<TileDraw> {
    match cell {
        Some(t) => seq![
            TileDraw {
                position: AxisPosition {
                    x: ((i % grid.columns as int) * grid.tile_width) as i64,
                    y: ((i / grid.columns as int) * grid.tile_height) as i64,
                },
                size: Size { width: grid.tile_width, height: grid.tile_height },
                texture: t.texture,
            },
        ],
        None => Seq::empty(),
    }
}

/// Draw commands for the first `n` cells, in storage order.
pub open spec fn draws_upto(grid: GridIndex, cells: Seq<Option<PaintedTile>>, n: int) -> Seq<TileDraw>
    decreases n,
{
    if n <= 0 {
        Seq::empty()
    } else {
        draws_upto(grid, cells, n - 1) + draw_of(grid, n - 1, cells[n - 1])
    }
}

impl TileMap {
    /// The grid and the store agree on the size, and each part is well formed.
    pub open spec fn wf(&self) -> bool {
        &&& self.grid.wf()
        &&& self.tiles.wf()
        &&& self.tiles.columns == self.grid.columns
        &&& self.tiles.rows == self.grid.rows
        &&& self.camera.wf()
        &&& MAP_MIN_ZOOM <= self.camera.zoom_level <= MAP_MAX_ZOOM
    }

    /// The map after a frame's zoom keys.
    pub open spec fn zoom_applied(self, input: InputSnapshot) -> TileMap {
        TileMap {
            camera: CameraController {
                zoom_level: map_zoom_after_input(self.camera.zoom_level, input),
                ..self.camera
            },
            ..self
        }
    }

    /// World-space size of the grid.
    pub open spec fn grid_extent(&self) -> Size {
        Size { width: self.grid.width_extent() as i64, height: self.grid.height_extent() as i64 }
    }

    /// The map after the pointer-drag part of a frame's panning: while the drag
    /// button is held, the camera follows the pointer's movement since the last
    /// frame, then is clamped to the grid.
    pub open spec fn drag_applied(self, input: InputSnapshot, viewport: Viewport) -> TileMap {
        if !input.drag_held {
            TileMap { last_drag_position: None, ..self }
        } else {
            match self.last_drag_position {
                Some(last) => {
                    let dx = drag_offset(input.pointer.x - last.x, self.camera.zoom_level);
                    let dy = drag_offset(input.pointer.y - last.y, self.camera.zoom_level);
                    if dx != 0 || dy != 0 {
                        TileMap {
                            camera: self.camera.moved_by(dx, dy).clamped(self.grid_extent(), viewport),
                            last_drag_position: Some(input.pointer),
                            ..self
                        }
                    } else {
                        TileMap { last_drag_position: Some(input.pointer), ..self }
                    }
                },
                None => TileMap { last_drag_position: Some(input.pointer), ..self },
            }
        }
    }

    /// The map after one frame: zoom, then pan (drag, then keys), then clamp.
    pub open spec fn after_frame(self, input: InputSnapshot, viewport: Viewport) -> TileMap {
        let zoomed = self.zoom_applied(input);
        let dragged = zoomed.drag_applied(input, viewport);
        let panned = TileMap { camera: dragged.camera.keyboard_panned(input, MAP_PAN_SPEED), ..dragged };
        TileMap { camera: panned.camera.clamped(self.grid_extent(), viewport), ..panned }
    }

    /// A map of `map_dimension` tiles (fixed-point, rounded, at least one each
    /// way) of `tile_size` each, empty, with the camera on the grid's middle.
    pub fn new(map_dimension: Size, tile_size: Size) -> (r: Self)
        requires
            0 < tile_size.width,
            0 < tile_size.height,
            tiles_for_dimension(map_dimension.width as int) * tile_size.width <= WORLD_LIMIT,
            tiles_for_dimension(map_dimension.height as int) * tile_size.height <= WORLD_LIMIT,
            tiles_for_dimension(map_dimension.width as int) * tiles_for_dimension(
                map_dimension.height as int,
            ) <= usize::MAX,
        ensures
            r.wf(),
            r.grid.columns == tiles_for_dimension(map_dimension.width as int),
            r.grid.rows == tiles_for_dimension(map_dimension.height as int),
            r.grid.tile_width == tile_size.width,
            r.grid.tile_height == tile_size.height,
            r.tiles.cells@ == empty_cells(r.grid.tile_count()),
            r.camera.screen_center.x == r.grid.width_extent() / 2,
            r.camera.screen_center.y == r.grid.height_extent() / 2,
            r.camera.zoom_level == MAP_DEFAULT_ZOOM,
            r.last_drag_position.is_none(),
    {
        let w = dimension_to_tiles(map_dimension.width);
        let h = dimension_to_tiles(map_dimension.height);
        assert(w <= w * h && h <= w * h) by (nonlinear_arith)
            requires
                w >= 1,
                h >= 1,
        ;
        let grid = GridIndex {
            columns: w as usize,
            rows: h as usize,
            tile_width: tile_size.width,
            tile_height: tile_size.height,
        };
        let size = grid.grid_size();
        let mut camera = CameraController::new(AxisPosition { x: size.width / 2, y: size.height / 2 });
        camera.zoom_level = MAP_DEFAULT_ZOOM;
        TileMap { grid, tiles: TileStore::new(w as usize, h as usize), camera, last_drag_position: None }
    }

    /// The camera's zoom factor, in thousandths.
    pub fn current_zoom_level(&self) -> (r: u32)
        ensures
            r == self.camera.zoom_level,
    {
        self.camera.get_current_zoom()
    }

    /// World-space size of the grid.
    pub fn grid_size(&self) -> (r: Size)
        requires
            self.wf(),
        ensures
            r == self.grid_extent(),
            within_world(r.width as int),
            within_world(r.height as int),
    {
        self.grid.grid_size()
    }

    /// World-space size of the visible area.
    pub fn view_size(&self, viewport: Viewport) -> (r: Size)
        requires
            self.wf(),
        ensures
            r.width == view_extent(viewport.width, self.camera.zoom_level),
            r.height == view_extent(viewport.height, self.camera.zoom_level),
    {
        self.camera.get_view_size(viewport)
    }

    /// Applies the frame's zoom keys: a step in and a step out multiply and
    /// divide the zoom by `6 / 5` within `[MAP_MIN_ZOOM, MAP_MAX_ZOOM]`, and a
    /// reset, applied last, returns to `MAP_DEFAULT_ZOOM`.
    pub fn update_zoom(&mut self, input: &InputSnapshot)
        requires
            old(self).wf(),
        ensures
            final(self).wf(),
            MAP_MIN_ZOOM <= final(self).camera.zoom_level <= MAP_MAX_ZOOM,
            input.zoom_reset ==> final(self).camera.zoom_level == MAP_DEFAULT_ZOOM,
            *final(self) == old(self).zoom_applied(*input),
    {
        let mut zoom = self.camera.zoom_level;
        if input.zoom_in {
            let z = zoom * ZOOM_STEP_NUMER / ZOOM_STEP_DENOM;
            zoom = if z > MAP_MAX_ZOOM {
                MAP_MAX_ZOOM
            } else {
                z
            };
        }
        if input.zoom_out {
            let z = zoom * ZOOM_STEP_DENOM / ZOOM_STEP_NUMER;
            zoom = if z < MAP_MIN_ZOOM {
                MAP_MIN_ZOOM
            } else {
                z
            };
        }
        if input.zoom_reset {
            zoom = MAP_DEFAULT_ZOOM;
        }
        self.camera.zoom_level = zoom;
    }

    /// Clamps the camera so that the view shows nothing outside the grid.
    pub fn clamp_camera_center(&mut self, viewport: Viewport)
        requires
            old(self).wf(),
        ensures
            final(self).wf(),
            *final(self) == (TileMap {
                camera: old(self).camera.clamped(old(self).grid_extent(), viewport),
                ..*old(self)
            }),
    {
        let grid_size = self.grid_size();
        self.camera.clamp_to_bounds(grid_size, viewport);
    }

    /// Drag-to-pan: while the drag button is held, moves the camera by the
    /// pointer's movement since the last frame, in world units, and clamps it.
    pub fn update_mouse_pan(&mut self, input: &InputSnapshot, viewport: Viewport)
        requires
            old(self).wf(),
        ensures
            final(self).wf(),
            *final(self) == old(self).drag_applied(*input, viewport),
    {
        if !input.drag_held {
            self.last_drag_position = None;
            return;
        }
        if let Some(last) = self.last_drag_position {
            let z = self.camera.zoom_level as i128;
            let ddx = (input.pointer.x as i128) - (last.x as i128);
            let ddy = (input.pointer.y as i128) - (last.y as i128);
            assert(-WORLD_LIMIT * 100 <= ddx * PIXEL_SCALE <= WORLD_LIMIT * 100) by (nonlinear_arith)
                requires
                    -0x1_0000_0000 <= ddx <= 0x1_0000_0000,
            ;
            assert(-WORLD_LIMIT * 100 <= ddy * PIXEL_SCALE <= WORLD_LIMIT * 100) by (nonlinear_arith)
                requires
                    -0x1_0000_0000 <= ddy <= 0x1_0000_0000,
            ;
            let dx = floor_div(ddx * (PIXEL_SCALE as i128), z);
            let dy = floor_div(ddy * (PIXEL_SCALE as i128), z);
            assert(within_world(dx as int) && within_world(dy as int)) by (nonlinear_arith)
                requires
                    dx * z <= ddx * PIXEL_SCALE < dx * z + z,
                    dy * z <= ddy * PIXEL_SCALE < dy * z + z,
                    -WORLD_LIMIT * 100 <= ddx * PIXEL_SCALE <= WORLD_LIMIT * 100,
                    -WORLD_LIMIT * 100 <= ddy * PIXEL_SCALE <= WORLD_LIMIT * 100,
                    100 <= z <= 8000,
            ;
            if dx != 0 || dy != 0 {
                self.camera.pan_by(dx as i64, dy as i64);
                self.clamp_camera_center(viewport);
            }
        }
        self.last_drag_position = Some(input.pointer);
    }

    /// Pans along the held direction keys at `MAP_PAN_SPEED`.
    pub fn update_keyboard_pan(&mut self, input: &InputSnapshot)
        requires
            old(self).wf(),
        ensures
            final(self).wf(),
            *final(self) == (TileMap { camera: old(self).camera.keyboard_panned(*input, MAP_PAN_SPEED), ..*old(self) }),
    {
        self.camera.pan_with_keys(input, MAP_PAN_SPEED);
    }

    /// Drag panning, then keyboard panning.
    pub fn update_camera_pan(&mut self, input: &InputSnapshot, viewport: Viewport)
        requires
            old(self).wf(),
        ensures
            final(self).wf(),
            *final(self) == ({
                let dragged = old(self).drag_applied(*input, viewport);
                TileMap { camera: dragged.camera.keyboard_panned(*input, MAP_PAN_SPEED), ..dragged }
            }),
    {
        self.update_mouse_pan(input, viewport);
        self.update_keyboard_pan(input);
    }

    /// Runs one frame of camera work in its required order (zoom, pan, clamp)
    /// and returns the world rectangle to render.
    pub fn frame(&mut self, input: &InputSnapshot, viewport: Viewport) -> (r: Rect)
        requires
            old(self).wf(),
        ensures
            final(self).wf(),
            *final(self) == old(self).after_frame(*input, viewport),
            r.w == view_extent(viewport.width, final(self).camera.zoom_level),
            r.h == view_extent(viewport.height, final(self).camera.zoom_level),
            r.x == final(self).camera.screen_center.x - r.w / 2,
            r.y == final(self).camera.screen_center.y - r.h / 2,
    {
        self.update_zoom(input);
        self.update_camera_pan(input, viewport);
        self.clamp_camera_center(viewport);
        self.camera.view_rect(viewport)
    }

    /// The tile under the pointer, if any: the screen point is taken to
    /// world space by the camera, then to a tile by the grid. Rendering and
    /// painting both go through this.
    pub fn hovered_tile(&self, pointer: ScreenPoint, viewport: Viewport) -> (r: Option<(usize, usize)>)
        requires
            self.wf(),
        ensures
            r == self.grid.tile_at(self.camera.world_at(pointer, viewport)),
            r matches Some((col, row)) ==> col < self.grid.columns && row < self.grid.rows,
    {
        let world = self.camera.screen_to_world(pointer, viewport);
        self.grid.to_tile_coord(world)
    }

    /// Row-major storage index of tile `(tile_x, tile_y)`, or `None` outside the grid.
    pub fn tile_index(&self, tile_x: usize, tile_y: usize) -> (r: Option<usize>)
        requires
            self.wf(),
        ensures
            r == (if tile_x >= self.grid.columns || tile_y >= self.grid.rows {
                None
            } else {
                Some(linear_index(tile_x as int, tile_y as int, self.grid.columns as int) as usize)
            }),
    {
        self.grid.to_linear(tile_x, tile_y)
    }

    /// Paints tile `(tile_x, tile_y)` with `sprite`; outside the grid nothing changes.
    pub fn paint_tile(&mut self, tile_x: usize, tile_y: usize, sprite: &TileSprite)
        requires
            old(self).wf(),
        ensures
            final(self).wf(),
            final(self).grid == old(self).grid,
            final(self).camera == old(self).camera,
            final(self).last_drag_position == old(self).last_drag_position,
            final(self).tiles.cells@ == (if tile_x < old(self).grid.columns && tile_y < old(self).grid.rows {
                old(self).tiles.cells@.update(
                    linear_index(tile_x as int, tile_y as int, old(self).grid.columns as int),
                    Some(PaintedTile { tile_id: sprite.name, texture: sprite.texture }),
                )
            } else {
                old(self).tiles.cells@
            }),
    {
        let record = PaintedTile { tile_id: sprite.name.clone(), texture: sprite.texture };
        self.tiles.paint(tile_x, tile_y, record);
    }

    /// Paints the tile under the pointer with `sprite`; nothing when the
    /// pointer is off the grid.
    pub fn paint_at(&mut self, pointer: ScreenPoint, viewport: Viewport, sprite: &TileSprite)
        requires
            old(self).wf(),
        ensures
            final(self).wf(),
            final(self).grid == old(self).grid,
            final(self).camera == old(self).camera,
            final(self).last_drag_position == old(self).last_drag_position,
            final(self).tiles.cells@ == (match old(self).grid.tile_at(old(self).camera.world_at(pointer, viewport)) {
                Some((col, row)) => old(self).tiles.cells@.update(
                    linear_index(col as int, row as int, old(self).grid.columns as int),
                    Some(PaintedTile { tile_id: sprite.name, texture: sprite.texture }),
                ),
                None => old(self).tiles.cells@,
            }),
    {
        if let Some((col, row)) = self.hovered_tile(pointer, viewport) {
            self.paint_tile(col, row, sprite);
        }
    }

    /// Draw commands for every painted cell, in storage order: the cell's
    /// world position, the tile size, and the cell's texture.
    pub fn tile_draws(&self) -> (r: Vec<TileDraw>)
        requires
            self.wf(),
        ensures
            r@ == draws_upto(self.grid, self.tiles.cells@, self.tiles.cells@.len() as int),
    {
        let mut draws: Vec<TileDraw> = Vec::new();
        let n = self.tiles.cells.len();
        let columns = self.grid.columns;
        let mut i: usize = 0;
        while i < n
            invariant
                self.wf(),
                n == self.tiles.cells@.len(),
                columns == self.grid.columns,
                0 <= i <= n,
                draws@ == draws_upto(self.grid, self.tiles.cells@, i as int),
            decreases n - i,
        {
            if let Some(painted) = &self.tiles.cells[i] {
                proof {
                    assert(columns > 0) by (nonlinear_arith)
                        requires
                            i < n,
                            n == columns * self.grid.rows,
                    ;
                    crate::grid::lemma_linear_index_inverse(i as int, columns as int);
                    let ii = i as int;
                    let cc = columns as int;
                    assert(ii / cc < self.grid.rows) by (nonlinear_arith)
                        requires
                            (ii / cc) * cc + ii % cc == ii,
                            0 <= ii % cc,
                            ii < n,
                            n == cc * self.grid.rows,
                            cc > 0,
                    ;
                }
                let col = i % columns;
                let row = i / columns;
                let origin = self.grid.tile_origin(col, row);
                draws.push(TileDraw {
                    position: origin,
                    size: Size { width: self.grid.tile_width, height: self.grid.tile_height },
                    texture: painted.texture,
                });
            }
            i += 1;
            assert(draws@ =~= draws_upto(self.grid, self.tiles.cells@, i as int));
        }
        draws
    }
}

} // verus!
