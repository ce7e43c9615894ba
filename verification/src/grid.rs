//! The world grid: a fixed 3x3 arrangement of chunks addressed by chunk
//! coordinates, together with the world-coordinate view of all cells that
//! the update engine works on.

use crate::cell::Cell;
use crate::chunk::Chunk;
use crate::coords::{ChunkCellPosition, ChunkIndex, WorldCellPosition};
use vstd::prelude::*;

verus! {

/// The mathematical model of the whole grid: one sequence of 9 chunks, each
/// a sequence of 4096 optional cells.
pub open spec fn grid_wf(g: Seq<Seq<Option<Cell>>>) -> bool {
    &&& g.len() == 9
    &&& forall|i: int| 0 <= i < 9 ==> (#[trigger] g[i]).len() == 4096
}

/// The chunk array index owning world cell (x, y).
pub open spec fn spec_chunk_index_at(x: int, y: int) -> int {
    x / 64 + 3 * (y / 64)
}

/// The slot index of world cell (x, y) inside its chunk.
pub open spec fn spec_cell_slot(x: int, y: int) -> int {
    x % 64 + 64 * (y % 64)
}

pub open spec fn spec_in_world(x: int, y: int) -> bool {
    0 <= x < 192 && 0 <= y < 192
}

/// The cell at world coordinates (x, y).
pub open spec fn grid_at(g: Seq<Seq<Option<Cell>>>, x: int, y: int) -> Option<Cell> {
    g[spec_chunk_index_at(x, y)][spec_cell_slot(x, y)]
}

/// The grid with the cell at world coordinates (x, y) replaced.
pub open spec fn grid_set(g: Seq<Seq<Option<Cell>>>, x: int, y: int, c: Option<Cell>) -> Seq<
    Seq<Option<Cell>>,
> {
    g.update(spec_chunk_index_at(x, y), g[spec_chunk_index_at(x, y)].update(spec_cell_slot(x, y), c))
}

/// Bounds of the index arithmetic: inside the world, chunk and slot indices
/// address real storage.
pub proof fn lemma_world_indices_in_range(x: int, y: int)
    requires
        spec_in_world(x, y),
    ensures
        0 <= spec_chunk_index_at(x, y) < 9,
        0 <= spec_cell_slot(x, y) < 4096,
{
}

/// Distinct world coordinates address distinct storage: updating one leaves
/// the other as it was.
pub proof fn lemma_grid_set_frame(
    g: Seq<Seq<Option<Cell>>>,
    x: int,
    y: int,
    c: Option<Cell>,
    x2: int,
    y2: int,
)
    requires
        grid_wf(g),
        spec_in_world(x, y),
        spec_in_world(x2, y2),
        (x2, y2) != (x, y),
    ensures
        grid_at(grid_set(g, x, y, c), x2, y2) == grid_at(g, x2, y2),
{
    assert(spec_chunk_index_at(x, y) != spec_chunk_index_at(x2, y2) || spec_cell_slot(x, y)
        != spec_cell_slot(x2, y2)) by {
        if spec_chunk_index_at(x, y) == spec_chunk_index_at(x2, y2) && spec_cell_slot(x, y)
            == spec_cell_slot(x2, y2) {
            assert(x / 64 == x2 / 64 && y / 64 == y2 / 64);
            assert(x % 64 == x2 % 64 && y % 64 == y2 % 64);
            assert(x == 64 * (x / 64) + x % 64);
            assert(x2 == 64 * (x2 / 64) + x2 % 64);
            assert(y == 64 * (y / 64) + y % 64);
            assert(y2 == 64 * (y2 / 64) + y2 % 64);
        }
    }
}

/// The written slot reads back as written, and well-formedness is kept.
pub proof fn lemma_grid_set_at(g: Seq<Seq<Option<Cell>>>, x: int, y: int, c: Option<Cell>)
    requires
        grid_wf(g),
        spec_in_world(x, y),
    ensures
        grid_wf(grid_set(g, x, y, c)),
        grid_at(grid_set(g, x, y, c), x, y) == c,
{
    lemma_world_indices_in_range(x, y);
}

/// 1 for an occupied slot, 0 for an empty one.
pub open spec fn spec_occ(c: Option<Cell>) -> nat {
    if c is Some {
        1
    } else {
        0
    }
}

/// The number of occupied slots among the first j of a chunk.
pub open spec fn spec_count_slots(s: Seq<Option<Cell>>, j: int) -> nat
    decreases j,
{
    if j <= 0 {
        0
    } else {
        spec_count_slots(s, j - 1) + spec_occ(s[j - 1])
    }
}

/// The number of occupied slots of one chunk.
pub open spec fn spec_count_chunk(s: Seq<Option<Cell>>) -> nat {
    spec_count_slots(s, s.len() as int)
}

/// The number of occupied slots among the first i chunks.
pub open spec fn spec_count_grid_upto(g: Seq<Seq<Option<Cell>>>, i: int) -> nat
    decreases i,
{
    if i <= 0 {
        0
    } else {
        spec_count_grid_upto(g, i - 1) + spec_count_chunk(g[i - 1])
    }
}

/// The number of settled cells of the whole grid.
pub open spec fn spec_cell_count(g: Seq<Seq<Option<Cell>>>) -> nat {
    spec_count_grid_upto(g, g.len() as int)
}

/// How a single-slot update moves the partial count.
pub proof fn lemma_count_slots_update(s: Seq<Option<Cell>>, j: int, k: int, c: Option<Cell>)
    requires
        0 <= k < s.len(),
        j <= s.len(),
    ensures
        spec_count_slots(s.update(k, c), j) as int == spec_count_slots(s, j) as int + (if k < j {
            spec_occ(c) as int - spec_occ(s[k]) as int
        } else {
            0
        }),
    decreases j,
{
    if j > 0 {
        lemma_count_slots_update(s, j - 1, k, c);
    }
}

/// How replacing one chunk moves the partial grid count.
pub proof fn lemma_count_grid_upto_update(
    g: Seq<Seq<Option<Cell>>>,
    i: int,
    ci: int,
    nc: Seq<Option<Cell>>,
)
    requires
        0 <= ci < g.len(),
        i <= g.len(),
    ensures
        spec_count_grid_upto(g.update(ci, nc), i) as int == spec_count_grid_upto(g, i) as int + (
        if ci < i {
            spec_count_chunk(nc) as int - spec_count_chunk(g[ci]) as int
        } else {
            0
        }),
    decreases i,
{
    if i > 0 {
        lemma_count_grid_upto_update(g, i - 1, ci, nc);
    }
}

/// At most j of the first j slots are occupied.
pub proof fn lemma_count_slots_le(s: Seq<Option<Cell>>, j: int)
    requires
        j >= 0,
    ensures
        spec_count_slots(s, j) <= j,
    decreases j,
{
    if j > 0 {
        lemma_count_slots_le(s, j - 1);
    }
}

/// At most 4096 cells per chunk among the first i chunks.
pub proof fn lemma_count_grid_upto_le(g: Seq<Seq<Option<Cell>>>, i: int)
    requires
        grid_wf(g),
        0 <= i <= 9,
    ensures
        spec_count_grid_upto(g, i) <= 4096 * i,
    decreases i,
{
    if i > 0 {
        lemma_count_grid_upto_le(g, i - 1);
        lemma_count_slots_le(g[i - 1], 4096);
    }
}

/// Writing one world cell moves the grid count by exactly the occupancy
/// difference of that cell.
pub proof fn lemma_grid_set_count(g: Seq<Seq<Option<Cell>>>, x: int, y: int, c: Option<Cell>)
    requires
        grid_wf(g),
        spec_in_world(x, y),
    ensures
        grid_wf(grid_set(g, x, y, c)),
        spec_cell_count(grid_set(g, x, y, c)) as int == spec_cell_count(g) as int + spec_occ(c) as int
            - spec_occ(grid_at(g, x, y)) as int,
{
    lemma_world_indices_in_range(x, y);
    lemma_grid_set_at(g, x, y, c);
    let ci = spec_chunk_index_at(x, y);
    let si = spec_cell_slot(x, y);
    let nc = g[ci].update(si, c);
    lemma_count_slots_update(g[ci], 4096, si, c);
    assert(spec_count_chunk(nc) as int == spec_count_chunk(g[ci]) as int + spec_occ(c) as int
        - spec_occ(g[ci][si]) as int);
    lemma_count_grid_upto_update(g, 9, ci, nc);
}

/// Writing two distinct world cells moves the grid count by the sum of
/// the two occupancy differences.
pub proof fn lemma_grid_set2_count(
    g: Seq<Seq<Option<Cell>>>,
    x: int,
    y: int,
    a: Option<Cell>,
    tx: int,
    ty: int,
    b: Option<Cell>,
)
    requires
        grid_wf(g),
        spec_in_world(x, y),
        spec_in_world(tx, ty),
        (tx, ty) != (x, y),
    ensures
        grid_wf(grid_set(grid_set(g, x, y, a), tx, ty, b)),
        spec_cell_count(grid_set(grid_set(g, x, y, a), tx, ty, b)) as int == spec_cell_count(g) as int
            + spec_occ(a) as int - spec_occ(grid_at(g, x, y)) as int + spec_occ(b) as int - spec_occ(
            grid_at(g, tx, ty),
        ) as int,
{
    lemma_grid_set_count(g, x, y, a);
    lemma_grid_set_frame(g, x, y, a, tx, ty);
    lemma_grid_set_count(grid_set(g, x, y, a), tx, ty, b);
}

/// The chunks of the world, owned by one container so that a move between
/// two chunks is two plain writes, never two live borrows.
#[derive(Clone)]
pub struct Chunks {
    chunks: Vec<Chunk>,
}

impl View for Chunks {
    type V = Seq<Seq<Option<Cell>>>;

    closed spec fn view(&self) -> Seq<Seq<Option<Cell>>> {
        Seq::new(self.chunks@.len() as nat, |i: int| self.chunks@[i]@)
    }
}

impl Chunks {
    pub open spec fn wf(self) -> bool {
        grid_wf(self@)
    }

    /// A 3x3 grid of empty chunks.
    pub fn new() -> (r: Self)
        ensures
            r.wf(),
            forall|i: int, j: int| 0 <= i < 9 && 0 <= j < 4096 ==> r@[i][j] is None,
    {
        let mut chunks: Vec<Chunk> = Vec::new();
        let mut i: usize = 0;
        while i < 9
            invariant
                i <= 9,
                chunks@.len() == i,
                forall|k: int| 0 <= k < i ==> (#[trigger] chunks@[k]).wf(),
                forall|k: int, j: int| 0 <= k < i && 0 <= j < 4096 ==> chunks@[k]@[j] is None,
            decreases 9 - i,
        {
            chunks.push(Chunk::new());
            i = i + 1;
        }
        Self { chunks }
    }

    pub fn get_chunk(&self, chunk_index: ChunkIndex) -> (r: &Chunk)
        requires
            self.wf(),
            chunk_index.spec_valid(),
        ensures
            r@ == self@[chunk_index.0 as int],
            r.wf(),
    {
        proof {
            assert(self@[chunk_index.0 as int] == self.chunks@[chunk_index.0 as int]@);
        }
        &self.chunks[chunk_index.0]
    }

    pub fn get_cell(&self, chunk_index: ChunkIndex, cell_position: ChunkCellPosition) -> (r: Option<
        Cell,
    >)
        requires
            self.wf(),
            chunk_index.spec_valid(),
            cell_position.spec_valid(),
        ensures
            r == self@[chunk_index.0 as int][cell_position.spec_cell_index()],
    {
        proof {
            assert(self@[chunk_index.0 as int] == self.chunks@[chunk_index.0 as int]@);
        }
        self.chunks[chunk_index.0].get_cell(cell_position)
    }

    pub fn set_cell(
        &mut self,
        chunk_index: ChunkIndex,
        cell_position: ChunkCellPosition,
        cell: Option<Cell>,
    )
        requires
            old(self).wf(),
            chunk_index.spec_valid(),
            cell_position.spec_valid(),
        ensures
            final(self).wf(),
            final(self)@ == old(self)@.update(
                chunk_index.0 as int,
                old(self)@[chunk_index.0 as int].update(cell_position.spec_cell_index(), cell),
            ),
    {
        let i = chunk_index.0;
        proof {
            assert(self@[i as int] == self.chunks@[i as int]@);
        }
        self.chunks[i].set_cell(cell_position, cell);
        proof {
            assert(self@ =~= old(self)@.update(
                chunk_index.0 as int,
                old(self)@[chunk_index.0 as int].update(cell_position.spec_cell_index(), cell),
            ));
        }
    }

    /// The cell at a world position, read through the owning chunk.
    pub fn cell_at_world(&self, world: WorldCellPosition) -> (r: Option<Cell>)
        requires
            self.wf(),
            world.spec_in_bounds(),
        ensures
            r == grid_at(self@, world.x as int, world.y as int),
    {
        let cx: usize = (world.x as usize) / 64;
        let cy: usize = (world.y as usize) / 64;
        let lx: u32 = (world.x as u32) % 64;
        let ly: u32 = (world.y as u32) % 64;
        proof {
            lemma_world_indices_in_range(world.x as int, world.y as int);
        }
        self.get_cell(ChunkIndex(cx + 3 * cy), ChunkCellPosition { x: lx, y: ly })
    }

    /// Writes the cell at a world position through the owning chunk.
    pub fn set_cell_world(&mut self, world: WorldCellPosition, cell: Option<Cell>)
        requires
            old(self).wf(),
            world.spec_in_bounds(),
        ensures
            final(self).wf(),
            final(self)@ == grid_set(old(self)@, world.x as int, world.y as int, cell),
    {
        let cx: usize = (world.x as usize) / 64;
        let cy: usize = (world.y as usize) / 64;
        let lx: u32 = (world.x as u32) % 64;
        let ly: u32 = (world.y as u32) % 64;
        proof {
            lemma_world_indices_in_range(world.x as int, world.y as int);
        }
        self.set_cell(ChunkIndex(cx + 3 * cy), ChunkCellPosition { x: lx, y: ly }, cell);
    }
}

} // verus!
