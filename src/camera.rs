use crate::geometry::{
    bound_to_world, bound_world, floor_div, half, lemma_floor_div_unique, within_world, AxisPosition, Rect,
    ScreenPoint, Size, Viewport, FIXED_ONE, WORLD_LIMIT,
};
use vstd::prelude::*;

verus! {

/// Zoom factors are thousandths: this value is a factor of one.
pub const ZOOM_ONE: u32 = 1000;

/// Zoom factor after a reset.
pub const DEFAULT_ZOOM: u32 = 1000;

/// Smallest zoom factor (most zoomed out).
pub const MIN_ZOOM: u32 = 100;

/// Largest zoom factor (most zoomed in).
pub const MAX_ZOOM: u32 = 8000;

/// One zoom step multiplies or divides the factor by `ZOOM_STEP_NUMER / ZOOM_STEP_DENOM`.
pub const ZOOM_STEP_NUMER: u32 = 6;

pub const ZOOM_STEP_DENOM: u32 = 5;

/// Fixed-point world units covered by one screen pixel at a zoom of `ZOOM_ONE`,
/// times `ZOOM_ONE`: `FIXED_ONE * ZOOM_ONE`.
pub const PIXEL_SCALE: i64 = 1_000_000;

/// The controller's keyboard panning speed, in world pixels per second.
pub const PAN_SPEED: u64 = 1;

/// Largest keyboard panning speed a caller may ask for, in world pixels per second.
pub const MAX_PAN_SPEED: u64 = 1000;

pub const MICROS_PER_SECOND: u64 = 1_000_000;

/// What the input devices reported for one frame.
#[derive(Debug, Clone, Copy, PartialEq, Eq, Structural)]
pub struct InputSnapshot {
    pub zoom_in: bool,
    pub zoom_out: bool,
    pub zoom_reset: bool,
    pub pan_up: bool,
    pub pan_down: bool,
    pub pan_left: bool,
    pub pan_right: bool,
    /// Pointer position on screen.
    pub pointer: ScreenPoint,
    /// Whether the drag-to-pan button is held.
    pub drag_held: bool,
    /// Duration of the frame, in microseconds.
    pub frame_micros: u32,
}

/// World extent seen along an axis of `pixels` screen pixels at zoom `zoom`.
pub open spec fn view_extent(pixels: u32, zoom: u32) -> int {
    pixels as int * PIXEL_SCALE as int / zoom as int
}

/// World coordinate of the view's low edge along one axis.
pub open spec fn view_origin(center: int, extent: int) -> int {
    center - extent / 2
}

/// World coordinate shown at screen coordinate `p` along one axis.
pub open spec fn screen_to_world_axis(center: int, zoom: u32, pixels: u32, p: int) -> int {
    view_origin(center, view_extent(pixels, zoom)) + (p * PIXEL_SCALE as int) / zoom as int
}

/// Screen coordinate, rounded to the nearest pixel, at which world coordinate `w` is drawn.
pub open spec fn world_to_screen_axis(center: int, zoom: u32, pixels: u32, w: int) -> int {
    ((w - view_origin(center, view_extent(pixels, zoom))) * zoom as int + PIXEL_SCALE as int / 2)
        / PIXEL_SCALE as int
}

/// Center along one axis once clamped to a grid of extent `grid` under a view of extent `view`.
pub open spec fn clamp_axis(center: int, grid: int, view: int) -> int {
    if grid <= view {
        grid / 2
    } else if center < view / 2 {
        view / 2
    } else if center > grid - view / 2 {
        grid - view / 2
    } else {
        center
    }
}

pub open spec fn zoomed_in(zoom: u32) -> u32 {
    let z = zoom as int * ZOOM_STEP_NUMER as int / ZOOM_STEP_DENOM as int;
    if z > MAX_ZOOM {
        MAX_ZOOM
    } else {
        z as u32
    }
}

pub open spec fn zoomed_out(zoom: u32) -> u32 {
    let z = zoom as int * ZOOM_STEP_DENOM as int / ZOOM_STEP_NUMER as int;
    if z < MIN_ZOOM {
        MIN_ZOOM
    } else {
        z as u32
    }
}

/// Zoom after a frame's zoom keys, applied in the order in, out, reset.
pub open spec fn zoom_after_input(zoom: u32, input: InputSnapshot) -> u32 {
    let z1 = if input.zoom_in {
        zoomed_in(zoom)
    } else {
        zoom
    };
    let z2 = if input.zoom_out {
        zoomed_out(z1)
    } else {
        z1
    };
    if input.zoom_reset {
        DEFAULT_ZOOM
    } else {
        z2
    }
}

/// `1`, `-1` or `0` along an axis from its two opposite keys.
pub open spec fn axis_direction(positive: bool, negative: bool) -> int {
    (if positive {
        1int
    } else {
        0int
    }) - (if negative {
        1int
    } else {
        0int
    })
}

/// Length of a frame's pan at `speed` world pixels per second, in fixed-point world units.
pub open spec fn pan_step(micros: u32, speed: u64) -> int {
    speed as int * micros as int * FIXED_ONE as int / MICROS_PER_SECOND as int
}

/// `k` is the per-axis share of a diagonal move of length `step`: `floor(step / sqrt(2))`.
pub open spec fn is_diagonal_share(step: int, k: int) -> bool {
    0 <= k && 2 * k * k <= step * step < 2 * (k + 1) * (k + 1)
}

pub open spec fn diagonal_share(step: int) -> int {
    choose|k: int| is_diagonal_share(step, k)
}

/// Pan offset along one axis: the unit direction scaled by the step, so that a
/// diagonal move is no longer than a straight one.
pub open spec fn pan_offset(dir: int, other_dir: int, step: int) -> int {
    if dir == 0 {
        0
    } else if other_dir == 0 {
        dir * step
    } else {
        dir * diagonal_share(step)
    }
}

pub open spec fn pan_offset_x(input: InputSnapshot, speed: u64) -> int {
    pan_offset(
        axis_direction(input.pan_right, input.pan_left),
        axis_direction(input.pan_up, input.pan_down),
        pan_step(input.frame_micros, speed),
    )
}

pub open spec fn pan_offset_y(input: InputSnapshot, speed: u64) -> int {
    pan_offset(
        axis_direction(input.pan_up, input.pan_down),
        axis_direction(input.pan_right, input.pan_left),
        pan_step(input.frame_micros, speed),
    )
}

pub proof fn lemma_diagonal_share_unique(step: int, k1: int, k2: int)
    requires
        is_diagonal_share(step, k1),
        is_diagonal_share(step, k2),
    ensures
        k1 == k2,
{
    if k1 < k2 {
        assert(2 * (k1 + 1) * (k1 + 1) <= 2 * k2 * k2) by (nonlinear_arith)
            requires
                0 <= k1 + 1 <= k2,
        ;
    } else if k2 < k1 {
        assert(2 * (k2 + 1) * (k2 + 1) <= 2 * k1 * k1) by (nonlinear_arith)
            requires
                0 <= k2 + 1 <= k1,
        ;
    }
}

/// Per-axis share of a diagonal move of length `step`.
fn diagonal_step(step: u64) -> (k: u64)
    requires
        step <= u32::MAX as u64 * MAX_PAN_SPEED,
    ensures
        k == diagonal_share(step as int),
        k <= step,
{
    assert(step as int * step as int <= 0x1_0000_0000_0000_0000_0000_0000) by (nonlinear_arith)
        requires
            step <= u32::MAX as u64 * MAX_PAN_SPEED,
    ;
    let s2: u128 = (step as u128) * (step as u128);
    let mut lo: u64 = 0;
    let mut hi: u64 = step + 1;
    assert(2 * (step as int + 1) * (step as int + 1) > step as int * step as int) by (nonlinear_arith);
    while hi - lo > 1
        invariant
            lo < hi <= step + 1,
            step <= u32::MAX as u64 * MAX_PAN_SPEED,
            s2 == step as int * step as int,
            2 * lo as int * lo as int <= s2,
            2 * hi as int * hi as int > s2,
        decreases hi - lo,
    {
        let mid: u64 = lo + (hi - lo) / 2;
        assert(2 * mid as int * mid as int <= 0x1_0000_0000_0000_0000_0000_0000) by (nonlinear_arith)
            requires
                0 <= mid <= step + 1,
                step <= u32::MAX as u64 * MAX_PAN_SPEED,
        ;
        if 2 * (mid as u128) * (mid as u128) <= s2 {
            lo = mid;
        } else {
            hi = mid;
        }
    }
    proof {
        assert(is_diagonal_share(step as int, lo as int));
        lemma_diagonal_share_unique(step as int, lo as int, diagonal_share(step as int));
    }
    lo
}

/// Going from screen to world along one axis and back gives the screen coordinate again.
pub proof fn lemma_axis_round_trip(center: int, zoom: u32, pixels: u32, p: int)
    requires
        MIN_ZOOM <= zoom <= MAX_ZOOM,
    ensures
        world_to_screen_axis(center, zoom, pixels, screen_to_world_axis(center, zoom, pixels, p))
            == p,
{
    let k = PIXEL_SCALE as int;
    let z = zoom as int;
    let q = (p * k) / z;
    vstd::arithmetic::div_mod::lemma_fundamental_div_mod(p * k, z);
    let r = (p * k) % z;
    assert(q * z == p * k - r) by (nonlinear_arith)
        requires
            p * k == z * q + r,
    ;
    let w = screen_to_world_axis(center, zoom, pixels, p);
    assert(w - view_origin(center, view_extent(pixels, zoom)) == q);
    lemma_floor_div_unique(q * z + k / 2, k, p);
}

/// World extent seen along an axis of `pixels` screen pixels at zoom `zoom`.
fn extent_for(pixels: u32, zoom: u32) -> (r: i64)
    requires
        MIN_ZOOM <= zoom,
    ensures
        r == view_extent(pixels, zoom),
        0 <= r <= u32::MAX as int * PIXEL_SCALE / MIN_ZOOM as int,
{
    let r = (pixels as i64) * PIXEL_SCALE / (zoom as i64);
    assert(r <= u32::MAX as int * PIXEL_SCALE / MIN_ZOOM as int) by (nonlinear_arith)
        requires
            r == pixels as int * PIXEL_SCALE as int / zoom as int,
            0 <= pixels <= u32::MAX,
            MIN_ZOOM <= zoom,
    ;
    r
}

/// Clamps one component of the camera center to a grid of extent `grid_extent`
/// seen through a view of extent `view_extent`.
pub fn clamp_component(center: i64, grid_extent: i64, view_extent: i64) -> (r: i64)
    requires
        0 <= view_extent,
    ensures
        r == clamp_axis(center as int, grid_extent as int, view_extent as int),
        grid_extent <= view_extent ==> r == grid_extent / 2,
        view_extent < grid_extent ==> view_extent / 2 <= r <= grid_extent - view_extent / 2,
        0 <= grid_extent ==> 0 <= r <= grid_extent,
        grid_extent < 0 ==> grid_extent <= r < 0,
{
    let half_view = view_extent / 2;
    if grid_extent <= view_extent {
        half(grid_extent)
    } else if center < half_view {
        half_view
    } else if center > grid_extent - half_view {
        grid_extent - half_view
    } else {
        center
    }
}

/// Zoom, position and screen/world conversion of the editor's camera.
#[derive(Debug, Clone, Copy)]
pub struct CameraController {
    /// Center point of the camera in world coordinates.
    pub screen_center: AxisPosition,
    /// Zoom factor in thousandths (`ZOOM_ONE` is no zoom).
    pub zoom_level: u32,
}

impl CameraController {
    /// The zoom factor stays within its bounds and the center within the world range.
    pub open spec fn wf(&self) -> bool {
        &&& MIN_ZOOM <= self.zoom_level <= MAX_ZOOM
        &&& within_world(self.screen_center.x as int)
        &&& within_world(self.screen_center.y as int)
    }

    /// The controller after a frame's zoom keys.
    pub open spec fn zoom_applied(self, input: InputSnapshot) -> Self {
        CameraController { zoom_level: zoom_after_input(self.zoom_level, input), ..self }
    }

    /// The controller moved by a world-space offset, staying within the world range.
    pub open spec fn moved_by(self, dx: int, dy: int) -> Self {
        CameraController {
            screen_center: AxisPosition {
                x: bound_to_world(self.screen_center.x + dx) as i64,
                y: bound_to_world(self.screen_center.y + dy) as i64,
            },
            ..self
        }
    }

    /// The controller after a frame's direction keys at `speed` world pixels per second.
    pub open spec fn keyboard_panned(self, input: InputSnapshot, speed: u64) -> Self {
        self.moved_by(pan_offset_x(input, speed), pan_offset_y(input, speed))
    }

    /// The controller with its center clamped to a grid of `grid_size`.
    pub open spec fn clamped(self, grid_size: Size, viewport: Viewport) -> Self {
        CameraController {
            screen_center: AxisPosition {
                x: clamp_axis(
                    self.screen_center.x as int,
                    grid_size.width as int,
                    view_extent(viewport.width, self.zoom_level),
                ) as i64,
                y: clamp_axis(
                    self.screen_center.y as int,
                    grid_size.height as int,
                    view_extent(viewport.height, self.zoom_level),
                ) as i64,
            },
            ..self
        }
    }

    /// The world point shown at screen point `p`.
    pub open spec fn world_at(self, p: ScreenPoint, viewport: Viewport) -> AxisPosition {
        AxisPosition {
            x: screen_to_world_axis(
                self.screen_center.x as int,
                self.zoom_level,
                viewport.width,
                p.x as int,
            ) as i64,
            y: screen_to_world_axis(
                self.screen_center.y as int,
                self.zoom_level,
                viewport.height,
                p.y as int,
            ) as i64,
        }
    }

    /// Creates a controller centered at the given world position, at the default zoom.
    pub fn new(screen_center: AxisPosition) -> (r: Self)
        requires
            within_world(screen_center.x as int),
            within_world(screen_center.y as int),
        ensures
            r.wf(),
            r.screen_center == screen_center,
            r.zoom_level == DEFAULT_ZOOM,
    {
        CameraController { screen_center, zoom_level: DEFAULT_ZOOM }
    }

    /// Resets the zoom factor to `DEFAULT_ZOOM`.
    pub fn reset_zoom_level(&mut self)
        requires
            old(self).wf(),
        ensures
            final(self).wf(),
            final(self).zoom_level == DEFAULT_ZOOM,
            final(self).screen_center == old(self).screen_center,
    {
        self.zoom_level = DEFAULT_ZOOM;
    }

    /// Divides the zoom factor by one step, no lower than `MIN_ZOOM`.
    pub fn decrease_zoom_level(&mut self)
        requires
            old(self).wf(),
        ensures
            final(self).wf(),
            final(self).zoom_level == zoomed_out(old(self).zoom_level),
            MIN_ZOOM <= final(self).zoom_level <= MAX_ZOOM,
            final(self).screen_center == old(self).screen_center,
    {
        let z = self.zoom_level * ZOOM_STEP_DENOM / ZOOM_STEP_NUMER;
        self.zoom_level = if z < MIN_ZOOM {
            MIN_ZOOM
        } else {
            z
        };
    }

    /// Multiplies the zoom factor by one step, no higher than `MAX_ZOOM`.
    pub fn increase_zoom_level(&mut self)
        requires
            old(self).wf(),
        ensures
            final(self).wf(),
            final(self).zoom_level == zoomed_in(old(self).zoom_level),
            MIN_ZOOM <= final(self).zoom_level <= MAX_ZOOM,
            final(self).screen_center == old(self).screen_center,
    {
        let z = self.zoom_level * ZOOM_STEP_NUMER / ZOOM_STEP_DENOM;
        self.zoom_level = if z > MAX_ZOOM {
            MAX_ZOOM
        } else {
            z
        };
    }

    /// Applies the frame's zoom keys: in, then out, then reset.
    pub fn update_zoom_from_input(&mut self, input: &InputSnapshot)
        requires
            old(self).wf(),
        ensures
            final(self).wf(),
            final(self).zoom_level == zoom_after_input(old(self).zoom_level, *input),
            final(self).screen_center == old(self).screen_center,
            *final(self) == old(self).zoom_applied(*input),
    {
        if input.zoom_in {
            self.increase_zoom_level();
        }
        if input.zoom_out {
            self.decrease_zoom_level();
        }
        if input.zoom_reset {
            self.reset_zoom_level();
        }
    }

    /// Moves the center by a world-space offset, staying within the world range.
    pub fn pan_by(&mut self, dx: i64, dy: i64)
        requires
            old(self).wf(),
            within_world(dx as int),
            within_world(dy as int),
        ensures
            final(self).wf(),
            final(self).screen_center.x == bound_to_world(old(self).screen_center.x + dx),
            final(self).screen_center.y == bound_to_world(old(self).screen_center.y + dy),
            final(self).zoom_level == old(self).zoom_level,
            *final(self) == old(self).moved_by(dx as int, dy as int),
    {
        self.screen_center.x = bound_world(self.screen_center.x + dx);
        self.screen_center.y = bound_world(self.screen_center.y + dy);
    }

    /// Pans along the held direction keys by the frame's step at `speed`
    /// world pixels per second; the direction is normalised, so a diagonal
    /// move is as long as a straight one.
    pub fn pan_with_keys(&mut self, input: &InputSnapshot, speed: u64)
        requires
            old(self).wf(),
            speed <= MAX_PAN_SPEED,
        ensures
            final(self).wf(),
            final(self).screen_center.x == bound_to_world(
                old(self).screen_center.x + pan_offset_x(*input, speed),
            ),
            final(self).screen_center.y == bound_to_world(
                old(self).screen_center.y + pan_offset_y(*input, speed),
            ),
            final(self).zoom_level == old(self).zoom_level,
            *final(self) == old(self).keyboard_panned(*input, speed),
    {
        assert(speed * input.frame_micros * FIXED_ONE <= MAX_PAN_SPEED * u32::MAX as int * FIXED_ONE)
            by (nonlinear_arith)
            requires
                speed <= MAX_PAN_SPEED,
                input.frame_micros <= u32::MAX,
        ;
        let step: u64 = speed * (input.frame_micros as u64) * (FIXED_ONE as u64) / MICROS_PER_SECOND;
        assert(step == pan_step(input.frame_micros, speed));
        assert(step <= u32::MAX as u64 * MAX_PAN_SPEED);
        let right = input.pan_right && !input.pan_left;
        let left = input.pan_left && !input.pan_right;
        let up = input.pan_up && !input.pan_down;
        let down = input.pan_down && !input.pan_up;
        let diagonal = (right || left) && (up || down);
        let share: i64 = if diagonal {
            diagonal_step(step) as i64
        } else {
            step as i64
        };
        let ox: i64 = if right {
            share
        } else if left {
            -share
        } else {
            0
        };
        let oy: i64 = if up {
            share
        } else if down {
            -share
        } else {
            0
        };
        proof {
            let hx = axis_direction(input.pan_right, input.pan_left);
            let hy = axis_direction(input.pan_up, input.pan_down);
            assert(hx == (if right { 1int } else if left { -1int } else { 0int }));
            assert(hy == (if up { 1int } else if down { -1int } else { 0int }));
            assert(diagonal == (hx != 0 && hy != 0));
            assert(ox == pan_offset_x(*input, speed));
            assert(oy == pan_offset_y(*input, speed));
        }
        self.pan_by(ox, oy);
    }

    /// Pans along the held direction keys at the controller's own speed,
    /// `PAN_SPEED` world pixels per second.
    pub fn update_keyboard_pan(&mut self, input: &InputSnapshot)
        requires
            old(self).wf(),
        ensures
            final(self).wf(),
            final(self).screen_center.x == bound_to_world(
                old(self).screen_center.x + pan_offset_x(*input, PAN_SPEED),
            ),
            final(self).screen_center.y == bound_to_world(
                old(self).screen_center.y + pan_offset_y(*input, PAN_SPEED),
            ),
            final(self).zoom_level == old(self).zoom_level,
            *final(self) == old(self).keyboard_panned(*input, PAN_SPEED),
    {
        self.pan_with_keys(input, PAN_SPEED);
    }

    /// World-space size of the visible area for a window of `viewport` pixels.
    pub fn get_view_size(&self, viewport: Viewport) -> (r: Size)
        requires
            self.wf(),
        ensures
            r.width == view_extent(viewport.width, self.zoom_level),
            r.height == view_extent(viewport.height, self.zoom_level),
            0 <= r.width <= u32::MAX as int * PIXEL_SCALE / MIN_ZOOM as int,
            0 <= r.height <= u32::MAX as int * PIXEL_SCALE / MIN_ZOOM as int,
    {
        Size {
            width: extent_for(viewport.width, self.zoom_level),
            height: extent_for(viewport.height, self.zoom_level),
        }
    }

    /// The visible world-space rectangle, centered on the camera.
    pub fn view_rect(&self, viewport: Viewport) -> (r: Rect)
        requires
            self.wf(),
        ensures
            r.w == view_extent(viewport.width, self.zoom_level),
            r.h == view_extent(viewport.height, self.zoom_level),
            0 <= r.w <= u32::MAX as int * PIXEL_SCALE / MIN_ZOOM as int,
            0 <= r.h <= u32::MAX as int * PIXEL_SCALE / MIN_ZOOM as int,
            r.x == view_origin(self.screen_center.x as int, r.w as int),
            r.y == view_origin(self.screen_center.y as int, r.h as int),
    {
        let size = self.get_view_size(viewport);
        Rect {
            x: self.screen_center.x - size.width / 2,
            y: self.screen_center.y - size.height / 2,
            w: size.width,
            h: size.height,
        }
    }

    /// Clamps the center, axis by axis, so that the view shows nothing outside
    /// the grid; on an axis where the view is at least as large as the grid,
    /// the center goes to the grid's middle.
    pub fn clamp_to_bounds(&mut self, grid_size: Size, viewport: Viewport)
        requires
            old(self).wf(),
            within_world(grid_size.width as int),
            within_world(grid_size.height as int),
        ensures
            final(self).wf(),
            final(self).zoom_level == old(self).zoom_level,
            final(self).screen_center.x == clamp_axis(
                old(self).screen_center.x as int,
                grid_size.width as int,
                view_extent(viewport.width, old(self).zoom_level),
            ),
            final(self).screen_center.y == clamp_axis(
                old(self).screen_center.y as int,
                grid_size.height as int,
                view_extent(viewport.height, old(self).zoom_level),
            ),
            *final(self) == old(self).clamped(grid_size, viewport),
    {
        let view_size = self.get_view_size(viewport);
        self.screen_center.x = clamp_component(self.screen_center.x, grid_size.width, view_size.width);
        self.screen_center.y = clamp_component(self.screen_center.y, grid_size.height, view_size.height);
    }

    /// One frame of camera work, in its required order: zoom, pan, then clamp.
    pub fn update(&mut self, input: &InputSnapshot, grid_size: Size, viewport: Viewport)
        requires
            old(self).wf(),
            within_world(grid_size.width as int),
            within_world(grid_size.height as int),
        ensures
            final(self).wf(),
            final(self).zoom_level == zoom_after_input(old(self).zoom_level, *input),
            final(self).screen_center.x == clamp_axis(
                bound_to_world(old(self).screen_center.x + pan_offset_x(*input, PAN_SPEED)),
                grid_size.width as int,
                view_extent(viewport.width, final(self).zoom_level),
            ),
            final(self).screen_center.y == clamp_axis(
                bound_to_world(old(self).screen_center.y + pan_offset_y(*input, PAN_SPEED)),
                grid_size.height as int,
                view_extent(viewport.height, final(self).zoom_level),
            ),
            *final(self) == old(self).zoom_applied(*input).keyboard_panned(*input, PAN_SPEED).clamped(
                grid_size,
                viewport,
            ),
    {
        self.update_zoom_from_input(input);
        self.update_keyboard_pan(input);
        self.clamp_to_bounds(grid_size, viewport);
    }

    /// The world point shown at screen point `p`: the inverse of the view transform.
    pub fn screen_to_world(&self, p: ScreenPoint, viewport: Viewport) -> (r: AxisPosition)
        requires
            self.wf(),
        ensures
            r.x == screen_to_world_axis(self.screen_center.x as int, self.zoom_level, viewport.width, p.x as int),
            r.y == screen_to_world_axis(self.screen_center.y as int, self.zoom_level, viewport.height, p.y as int),
            r == self.world_at(p, viewport),
    {
        let rect = self.view_rect(viewport);
        let px = p.x as i128;
        let py = p.y as i128;
        assert(-3 * WORLD_LIMIT <= px * PIXEL_SCALE <= 3 * WORLD_LIMIT) by (nonlinear_arith)
            requires
                i32::MIN <= px <= i32::MAX,
        ;
        assert(-3 * WORLD_LIMIT <= py * PIXEL_SCALE <= 3 * WORLD_LIMIT) by (nonlinear_arith)
            requires
                i32::MIN <= py <= i32::MAX,
        ;
        let qx = floor_div(px * (PIXEL_SCALE as i128), self.zoom_level as i128);
        let qy = floor_div(py * (PIXEL_SCALE as i128), self.zoom_level as i128);
        AxisPosition { x: rect.x + qx as i64, y: rect.y + qy as i64 }
    }

    /// The screen point, to the nearest pixel, at which world point `w` is drawn.
    pub fn world_to_screen(&self, w: AxisPosition, viewport: Viewport) -> (r: (i64, i64))
        requires
            self.wf(),
            within_world(w.x as int),
            within_world(w.y as int),
        ensures
            r.0 == world_to_screen_axis(self.screen_center.x as int, self.zoom_level, viewport.width, w.x as int),
            r.1 == world_to_screen_axis(self.screen_center.y as int, self.zoom_level, viewport.height, w.y as int),
    {
        let rect = self.view_rect(viewport);
        let dx = (w.x - rect.x) as i128;
        let dy = (w.y - rect.y) as i128;
        let z = self.zoom_level as i128;
        assert(-3 * WORLD_LIMIT * MAX_ZOOM <= dx * z <= 3 * WORLD_LIMIT * MAX_ZOOM) by (nonlinear_arith)
            requires
                -3 * WORLD_LIMIT <= dx <= 3 * WORLD_LIMIT,
                0 <= z <= MAX_ZOOM,
        ;
        assert(-3 * WORLD_LIMIT * MAX_ZOOM <= dy * z <= 3 * WORLD_LIMIT * MAX_ZOOM) by (nonlinear_arith)
            requires
                -3 * WORLD_LIMIT <= dy <= 3 * WORLD_LIMIT,
                0 <= z <= MAX_ZOOM,
        ;
        let nx = dx * z + (PIXEL_SCALE / 2) as i128;
        let ny = dy * z + (PIXEL_SCALE / 2) as i128;
        let sx = floor_div(nx, PIXEL_SCALE as i128);
        let sy = floor_div(ny, PIXEL_SCALE as i128);
        assert(-3 * WORLD_LIMIT * MAX_ZOOM <= sx * PIXEL_SCALE <= 4 * WORLD_LIMIT * MAX_ZOOM);
        assert(-3 * WORLD_LIMIT * MAX_ZOOM <= sy * PIXEL_SCALE <= 4 * WORLD_LIMIT * MAX_ZOOM);
        assert(-3 * WORLD_LIMIT <= sx <= 4 * WORLD_LIMIT) by (nonlinear_arith)
            requires
                -3 * WORLD_LIMIT * MAX_ZOOM <= sx * PIXEL_SCALE <= 4 * WORLD_LIMIT * MAX_ZOOM,
        ;
        assert(-3 * WORLD_LIMIT <= sy <= 4 * WORLD_LIMIT) by (nonlinear_arith)
            requires
                -3 * WORLD_LIMIT * MAX_ZOOM <= sy * PIXEL_SCALE <= 4 * WORLD_LIMIT * MAX_ZOOM,
        ;
        (sx as i64, sy as i64)
    }

    /// The zoom factor, in thousandths.
    pub fn get_current_zoom(&self) -> (r: u32)
        ensures
            r == self.zoom_level,
    {
        self.zoom_level
    }
}

/// Zoom after applying `steps` in order, each a zoom in (`true`) or out (`false`).
pub open spec fn zoom_after_steps(zoom: u32, steps: Seq<bool>) -> u32
    decreases steps.len(),
{
    if steps.len() == 0 {
        zoom
    } else {
        let z = if steps[0] {
            zoomed_in(zoom)
        } else {
            zoomed_out(zoom)
        };
        zoom_after_steps(z, steps.drop_first())
    }
}

/// Whatever sequence of zoom steps is applied to a zoom within bounds, the
/// zoom stays within `[MIN_ZOOM, MAX_ZOOM]`.
pub proof fn lemma_zoom_steps_in_range(zoom: u32, steps: Seq<bool>)
    requires
        MIN_ZOOM <= zoom <= MAX_ZOOM,
    ensures
        MIN_ZOOM <= zoom_after_steps(zoom, steps) <= MAX_ZOOM,
    decreases steps.len(),
{
    if steps.len() > 0 {
        let z = if steps[0] {
            zoomed_in(zoom)
        } else {
            zoomed_out(zoom)
        };
        lemma_zoom_steps_in_range(z, steps.drop_first());
    }
}

/// Clamping on an axis where the view is at least as large as the grid puts
/// the center on the grid's middle; otherwise the clamped center keeps the
/// view inside the grid: it lies in `[view / 2, grid - view / 2]`.
pub proof fn lemma_clamp_axis_bounds(center: int, grid: int, view: int)
    requires
        0 <= view,
    ensures
        grid <= view ==> clamp_axis(center, grid, view) == grid / 2,
        view < grid ==> view / 2 <= clamp_axis(center, grid, view) <= grid - view / 2,
{
}

/// Converting a screen point inside the viewport to world space and back
/// recovers the screen point.
pub proof fn lemma_screen_world_round_trip(
    camera: CameraController,
    p: ScreenPoint,
    viewport: Viewport,
)
    requires
        camera.wf(),
        0 <= p.x < viewport.width,
        0 <= p.y < viewport.height,
    ensures
        world_to_screen_axis(
            camera.screen_center.x as int,
            camera.zoom_level,
            viewport.width,
            screen_to_world_axis(
                camera.screen_center.x as int,
                camera.zoom_level,
                viewport.width,
                p.x as int,
            ),
        ) == p.x,
        world_to_screen_axis(
            camera.screen_center.y as int,
            camera.zoom_level,
            viewport.height,
            screen_to_world_axis(
                camera.screen_center.y as int,
                camera.zoom_level,
                viewport.height,
                p.y as int,
            ),
        ) == p.y,
{
    lemma_axis_round_trip(camera.screen_center.x as int, camera.zoom_level, viewport.width, p.x as int);
    lemma_axis_round_trip(camera.screen_center.y as int, camera.zoom_level, viewport.height, p.y as int);
}

} // verus!
