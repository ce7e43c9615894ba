//! One chunk of the world: a fixed 64x64 array of optional cell slots.
//! Slots are stored in a flat vector indexed by `x + 64 * y`, the same
//! index a render target uses for its pixels.

use crate::cell::Cell;
use crate::coords::ChunkCellPosition;
use vstd::prelude::*;

verus! {

/// The cell slots of one chunk, viewed as a sequence of 4096 optional cells.
#[derive(Clone)]
pub struct Cells {
    cells: Vec<Option<Cell>>,
}

impl View for Cells {
    type V = Seq<Option<Cell>>;

    closed spec fn view(&self) -> Seq<Option<Cell>> {
        self.cells@
    }
}

impl Cells {
    /// Structural soundness: exactly one slot for each local position.
    pub open spec fn wf(self) -> bool {
        self@.len() == 4096
    }

    /// A chunk of 4096 empty slots.
    pub fn new() -> (r: Self)
        ensures
            r.wf(),
            forall|i: int| 0 <= i < 4096 ==> r@[i] is None,
    {
        let mut cells: Vec<Option<Cell>> = Vec::new();
        let mut i: usize = 0;
        while i < 4096
            invariant
                i <= 4096,
                cells@.len() == i,
                forall|j: int| 0 <= j < i ==> cells@[j] is None,
            decreases 4096 - i,
        {
            cells.push(None);
            i = i + 1;
        }
        Self { cells }
    }

    pub fn get_cell(&self, cell_position: ChunkCellPosition) -> (r: Option<Cell>)
        requires
            self.wf(),
            cell_position.spec_valid(),
        ensures
            r == self@[cell_position.spec_cell_index()],
    {
        self.cells[cell_position.to_cell_index()]
    }

    pub fn set_cell(&mut self, cell_position: ChunkCellPosition, cell: Option<Cell>)
        requires
            old(self).wf(),
            cell_position.spec_valid(),
        ensures
            final(self).wf(),
            final(self)@ == old(self)@.update(cell_position.spec_cell_index(), cell),
    {
        let i = cell_position.to_cell_index();
        self.cells[i] = cell;
    }
}

/// One tile of the world, owning the cells at local coordinates
/// [0, 64) x [0, 64).  Chunks are mutually exclusive partitions of the
/// world; all cross-chunk logic lives in the update engine.
#[derive(Clone)]
pub struct Chunk {
    cells: Cells,
}

impl View for Chunk {
    type V = Seq<Option<Cell>>;

    closed spec fn view(&self) -> Seq<Option<Cell>> {
        self.cells@
    }
}

impl Chunk {
    pub open spec fn wf(self) -> bool {
        self@.len() == 4096
    }

    pub fn new() -> (r: Self)
        ensures
            r.wf(),
            forall|i: int| 0 <= i < 4096 ==> r@[i] is None,
    {
        Self { cells: Cells::new() }
    }

    pub fn get_cell(&self, cell_position: ChunkCellPosition) -> (r: Option<Cell>)
        requires
            self.wf(),
            cell_position.spec_valid(),
        ensures
            r == self@[cell_position.spec_cell_index()],
    {
        self.cells.get_cell(cell_position)
    }

    pub fn set_cell(&mut self, cell_position: ChunkCellPosition, cell: Option<Cell>)
        requires
            old(self).wf(),
            cell_position.spec_valid(),
        ensures
            final(self).wf(),
            final(self)@ == old(self)@.update(cell_position.spec_cell_index(), cell),
    {
        self.cells.set_cell(cell_position, cell);
    }
}

} // verus!
