use crate::geometry::{within_world, AxisPosition, Size};
use vstd::prelude::*;

verus! {

/// Geometry of a tile grid: how many tiles, and how large each one is in
/// fixed-point world units. Tiles are stored row-major.
#[derive(Debug, Clone, Copy, PartialEq, Eq, Structural)]
pub struct GridIndex {
    pub columns: usize,
    pub rows: usize,
    pub tile_width: i64,
    pub tile_height: i64,
}

/// Row-major position of tile `(col, row)` in a grid of `columns` columns.
pub open spec fn linear_index(col: int, row: int, columns: int) -> int {
    row * columns + col
}

pub proof fn lemma_linear_index_bounds(col: int, row: int, columns: int, rows: int)
    requires
        0 <= col < columns,
        0 <= row < rows,
    ensures
        0 <= linear_index(col, row, columns) < columns * rows,
{
    assert(row * columns + col < columns * rows) by (nonlinear_arith)
        requires
            0 <= col < columns,
            0 <= row < rows,
    ;
    assert(0 <= row * columns) by (nonlinear_arith)
        requires
            0 <= row,
            0 <= columns,
    ;
}

/// The tile `(index % columns, index / columns)` sits at `index`.
pub proof fn lemma_linear_index_inverse(index: int, columns: int)
    requires
        0 <= index,
        0 < columns,
    ensures
        linear_index(index % columns, index / columns, columns) == index,
        0 <= index % columns < columns,
        0 <= index / columns,
{
    vstd::arithmetic::div_mod::lemma_fundamental_div_mod(index, columns);
    assert((index / columns) * columns == columns * (index / columns)) by (nonlinear_arith);
    vstd::arithmetic::div_mod::lemma_div_pos_is_pos(index, columns);
}

/// Floor division of a coordinate below `count * size` stays below `count`.
proof fn lemma_div_below(v: int, size: int, count: int)
    requires
        0 <= v < count * size,
        0 < size,
    ensures
        0 <= v / size < count,
{
    vstd::arithmetic::div_mod::lemma_fundamental_div_mod(v, size);
    vstd::arithmetic::div_mod::lemma_div_pos_is_pos(v, size);
    let q = v / size;
    assert(q < count) by (nonlinear_arith)
        requires
            v == size * q + v % size,
            0 <= v % size,
            v < count * size,
            0 < size,
    ;
}

/// A point inside `[0, count * size)` exists only for a positive size.
proof fn lemma_positive_size(v: int, size: int, count: int)
    requires
        0 <= count,
        0 <= v < count * size,
    ensures
        0 < size,
{
    if size <= 0 {
        assert(count * size <= 0) by (nonlinear_arith)
            requires
                0 <= count,
                size <= 0,
        ;
    }
}

/// A smaller count of the same size lies between zero and the larger product.
proof fn lemma_scaled_between(k: int, count: int, size: int)
    requires
        0 <= k <= count,
        within_world(count * size),
    ensures
        within_world(k * size),
{
    if size >= 0 {
        assert(0 <= k * size <= count * size) by (nonlinear_arith)
            requires
                0 <= k <= count,
                size >= 0,
        ;
    } else {
        assert(count * size <= k * size <= 0) by (nonlinear_arith)
            requires
                0 <= k <= count,
                size < 0,
        ;
    }
}

/// `count * size`, for a product within the world range.
fn extent_of(count: usize, size: i64) -> (r: i64)
    requires
        within_world(count * size),
    ensures
        r == count * size,
{
    ((count as i128) * (size as i128)) as i64
}

impl GridIndex {
    /// The grid's extents fit the world range and the tile count fits in
    /// memory. A tile size of zero or less is allowed: such a grid covers no
    /// point, so no point is on a tile.
    pub open spec fn wf(&self) -> bool {
        &&& within_world(self.columns * self.tile_width)
        &&& within_world(self.rows * self.tile_height)
        &&& self.columns * self.rows <= usize::MAX
    }

    pub open spec fn width_extent(&self) -> int {
        self.columns * self.tile_width
    }

    pub open spec fn height_extent(&self) -> int {
        self.rows * self.tile_height
    }

    pub open spec fn tile_count(&self) -> int {
        self.columns * self.rows
    }

    /// The tile under world point `p`, if any.
    pub open spec fn tile_at(&self, p: AxisPosition) -> Option<(usize, usize)> {
        if p.x < 0 || p.y < 0 || p.x >= self.width_extent() || p.y >= self.height_extent() {
            None
        } else {
            Some(((p.x / self.tile_width) as usize, (p.y / self.tile_height) as usize))
        }
    }

    /// Number of tiles, `columns * rows`.
    pub fn cell_count(&self) -> (r: usize)
        requires
            self.wf(),
        ensures
            r == self.tile_count(),
    {
        self.columns * self.rows
    }

    /// World-space size of the whole grid.
    pub fn grid_size(&self) -> (r: Size)
        requires
            self.wf(),
        ensures
            r.width == self.width_extent(),
            r.height == self.height_extent(),
            within_world(r.width as int),
            within_world(r.height as int),
    {
        Size {
            width: extent_of(self.columns, self.tile_width),
            height: extent_of(self.rows, self.tile_height),
        }
    }

    /// The tile `(col, row)` under world point `p`: `None` outside
    /// `[0, width) x [0, height)`, else the floor of `p` over the tile size, so
    /// a point on a tile boundary belongs to the higher-index tile.
    pub fn to_tile_coord(&self, p: AxisPosition) -> (r: Option<(usize, usize)>)
        requires
            self.wf(),
        ensures
            r == self.tile_at(p),
            r matches Some((col, row)) ==> col < self.columns && row < self.rows,
    {
        let size = self.grid_size();
        if p.x < 0 || p.y < 0 || p.x >= size.width || p.y >= size.height {
            return None;
        }
        proof {
            lemma_positive_size(p.x as int, self.tile_width as int, self.columns as int);
            lemma_positive_size(p.y as int, self.tile_height as int, self.rows as int);
            lemma_div_below(p.x as int, self.tile_width as int, self.columns as int);
            lemma_div_below(p.y as int, self.tile_height as int, self.rows as int);
        }
        Some(((p.x / self.tile_width) as usize, (p.y / self.tile_height) as usize))
    }

    /// Row-major storage index of tile `(col, row)`, or `None` outside the grid.
    pub fn to_linear(&self, col: usize, row: usize) -> (r: Option<usize>)
        requires
            self.wf(),
        ensures
            r == (if col >= self.columns || row >= self.rows {
                None
            } else {
                Some(linear_index(col as int, row as int, self.columns as int) as usize)
            }),
            r matches Some(i) ==> i < self.tile_count(),
    {
        if col >= self.columns || row >= self.rows {
            return None;
        }
        proof {
            lemma_linear_index_bounds(col as int, row as int, self.columns as int, self.rows as int);
        }
        Some(row * self.columns + col)
    }

    /// World position of the top-left corner of tile `(col, row)`; `col ==
    /// columns` or `row == rows` gives the grid's far edges.
    pub fn tile_origin(&self, col: usize, row: usize) -> (r: AxisPosition)
        requires
            self.wf(),
            col <= self.columns,
            row <= self.rows,
        ensures
            r.x == col * self.tile_width,
            r.y == row * self.tile_height,
    {
        proof {
            lemma_scaled_between(col as int, self.columns as int, self.tile_width as int);
            lemma_scaled_between(row as int, self.rows as int, self.tile_height as int);
        }
        AxisPosition { x: extent_of(col, self.tile_width), y: extent_of(row, self.tile_height) }
    }
}

} // verus!
