use crate::grid::linear_index;
use crate::tile::TileTexture;
use vstd::prelude::*;

verus! {

/// A painted cell: the sprite id it was painted with, and that sprite's texture.
#[derive(Debug)]
pub struct PaintedTile {
    pub tile_id: String,
    pub texture: TileTexture,
}

impl PaintedTile {
    /// A copy with the same id and texture.
    pub fn duplicate(&self) -> (r: PaintedTile)
        ensures
            r == *self,
    {
        PaintedTile { tile_id: self.tile_id.clone(), texture: self.texture }
    }
}

/// The map's cells, row-major, each empty or painted.
#[derive(Debug)]
pub struct TileStore {
    pub columns: usize,
    pub rows: usize,
    pub cells: Vec<Option<PaintedTile>>,
}

/// `n` empty cells.
pub open spec fn empty_cells(n: int) -> Seq<Option<PaintedTile>> {
    Seq::new(n as nat, |i: int| None)
}

/// `n` empty cells.
fn empty_cell_vec(n: usize) -> (r: Vec<Option<PaintedTile>>)
    ensures
        r@ == empty_cells(n as int),
{
    let mut cells: Vec<Option<PaintedTile>> = Vec::with_capacity(n);
    let mut i: usize = 0;
    while i < n
        invariant
            0 <= i <= n,
            cells@ == empty_cells(i as int),
        decreases n - i,
    {
        cells.push(None);
        i += 1;
        assert(cells@ =~= empty_cells(i as int));
    }
    cells
}

impl TileStore {
    /// One cell per tile of a `columns` by `rows` grid.
    pub open spec fn wf(&self) -> bool {
        &&& self.columns * self.rows <= usize::MAX
        &&& self.cells@.len() == self.columns * self.rows
    }

    /// The cell at `(col, row)`, if inside the grid.
    pub open spec fn cell(&self, col: int, row: int) -> Option<PaintedTile> {
        if 0 <= col < self.columns && 0 <= row < self.rows {
            self.cells@[linear_index(col, row, self.columns as int)]
        } else {
            None
        }
    }

    /// An empty store for a `columns` by `rows` grid.
    pub fn new(columns: usize, rows: usize) -> (r: Self)
        requires
            columns * rows <= usize::MAX,
        ensures
            r.wf(),
            r.columns == columns,
            r.rows == rows,
            r.cells@ == empty_cells(columns * rows),
    {
        TileStore { columns, rows, cells: empty_cell_vec(columns * rows) }
    }

    fn index_of(&self, col: usize, row: usize) -> (r: Option<usize>)
        requires
            self.wf(),
        ensures
            r.is_some() == (col < self.columns && row < self.rows),
            r matches Some(i) ==> i == linear_index(col as int, row as int, self.columns as int),
            r matches Some(i) ==> i < self.cells@.len(),
    {
        if col >= self.columns || row >= self.rows {
            return None;
        }
        proof {
            crate::grid::lemma_linear_index_bounds(
                col as int,
                row as int,
                self.columns as int,
                self.rows as int,
            );
        }
        Some(row * self.columns + col)
    }

    /// The painted tile at `(col, row)`; `None` when empty or outside the grid.
    pub fn get(&self, col: usize, row: usize) -> (r: Option<&PaintedTile>)
        requires
            self.wf(),
        ensures
            match r {
                Some(t) => self.cell(col as int, row as int) == Some(*t),
                None => self.cell(col as int, row as int).is_none(),
            },
    {
        match self.index_of(col, row) {
            Some(i) => match &self.cells[i] {
                Some(t) => Some(t),
                None => None,
            },
            None => None,
        }
    }

    /// Paints `(col, row)` with `record`; outside the grid nothing changes.
    pub fn paint(&mut self, col: usize, row: usize, record: PaintedTile)
        requires
            old(self).wf(),
        ensures
            final(self).wf(),
            final(self).columns == old(self).columns,
            final(self).rows == old(self).rows,
            final(self).cells@ == (if col < old(self).columns && row < old(self).rows {
                old(self).cells@.update(
                    linear_index(col as int, row as int, old(self).columns as int),
                    Some(record),
                )
            } else {
                old(self).cells@
            }),
    {
        if let Some(i) = self.index_of(col, row) {
            self.cells.set(i, Some(record));
        }
    }

    /// Empties every cell.
    pub fn clear_all(&mut self)
        requires
            old(self).wf(),
        ensures
            final(self).wf(),
            final(self).columns == old(self).columns,
            final(self).rows == old(self).rows,
            final(self).cells@ == empty_cells(old(self).cells@.len() as int),
    {
        self.cells = empty_cell_vec(self.columns * self.rows);
    }

    /// Replaces the whole store by an empty one of `columns` by `rows`.
    pub fn resize_replace(&mut self, columns: usize, rows: usize)
        requires
            columns * rows <= usize::MAX,
        ensures
            final(self).wf(),
            final(self).columns == columns,
            final(self).rows == rows,
            final(self).cells@ == empty_cells(columns * rows),
    {
        *self = TileStore::new(columns, rows);
    }
}

} // verus!
