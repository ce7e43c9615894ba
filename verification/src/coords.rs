//! Coordinate spaces of the world: world cell coordinates across the whole
//! grid, chunk coordinates addressing one 64x64 tile, and local cell
//! coordinates inside a chunk.  The world is a fixed 3x3 arrangement of
//! chunks, so valid world coordinates lie in [0, 192) on both axes.

use vstd::prelude::*;

verus! {

/// Cells per chunk edge.
pub const CHUNK_SIZE: usize = 64;

/// Chunks per world edge (the grid is CHUNKS_PER_AXIS x CHUNKS_PER_AXIS).
pub const CHUNKS_PER_AXIS: usize = 3;

/// Cells per world edge: CHUNK_SIZE * CHUNKS_PER_AXIS.
pub const WORLD_SIZE: usize = 192;

/// A cell coordinate across the whole world; valid cells lie in
/// [0, WORLD_SIZE) on both axes, but out-of-range values are representable
/// so that callers can ask "is this inside the world?".
#[derive(Clone, Copy, PartialEq, Eq, Structural, Debug)]
pub struct WorldCellPosition {
    pub x: i32,
    pub y: i32,
}

/// A chunk coordinate in the grid, in [0, CHUNKS_PER_AXIS) on both axes.
#[derive(Clone, Copy, PartialEq, Eq, Structural, Debug, Hash)]
pub struct ChunkPosition {
    pub x: u32,
    pub y: u32,
}

/// A cell coordinate local to one chunk, in [0, CHUNK_SIZE) on both axes.
#[derive(Clone, Copy, PartialEq, Eq, Structural, Debug)]
pub struct ChunkCellPosition {
    pub x: u32,
    pub y: u32,
}

/// The flat index of a chunk in the grid's chunk array.
#[derive(Clone, Copy, PartialEq, Eq, Structural, Debug)]
pub struct ChunkIndex(pub usize);

/// The extent of the chunk grid in chunk coordinates.
#[derive(Clone, Copy, PartialEq, Eq, Structural, Debug)]
pub struct ChunksDimensions {
    pub left: i32,
    pub right: i32,
    pub top: i32,
    pub bottom: i32,
}

impl WorldCellPosition {
    /// True when the position addresses a cell of the world.
    pub open spec fn spec_in_bounds(self) -> bool {
        0 <= self.x < WORLD_SIZE && 0 <= self.y < WORLD_SIZE
    }

    pub fn in_bounds(self) -> (r: bool)
        ensures
            r == self.spec_in_bounds(),
    {
        0 <= self.x && self.x < WORLD_SIZE as i32 && 0 <= self.y && self.y < WORLD_SIZE as i32
    }
}

impl ChunkPosition {
    pub open spec fn spec_valid(self) -> bool {
        self.x < CHUNKS_PER_AXIS && self.y < CHUNKS_PER_AXIS
    }
}

impl ChunkCellPosition {
    pub open spec fn spec_valid(self) -> bool {
        self.x < CHUNK_SIZE && self.y < CHUNK_SIZE
    }

    /// The flat index of this cell in a chunk's cell array.
    pub open spec fn spec_cell_index(self) -> int {
        self.x + self.y * CHUNK_SIZE
    }

    pub fn to_cell_index(&self) -> (r: usize)
        requires
            self.spec_valid(),
        ensures
            r == self.spec_cell_index(),
            r < CHUNK_SIZE * CHUNK_SIZE,
    {
        self.x as usize + (self.y as usize * CHUNK_SIZE)
    }
}

impl ChunkIndex {
    pub open spec fn spec_valid(self) -> bool {
        self.0 < CHUNKS_PER_AXIS * CHUNKS_PER_AXIS
    }

    /// The flat index of a chunk position: x + 3 * y.
    pub open spec fn spec_from_chunk_position(chunk_position: ChunkPosition) -> ChunkIndex {
        ChunkIndex((chunk_position.x + CHUNKS_PER_AXIS * chunk_position.y) as usize)
    }

    pub fn from_chunk_position(chunk_position: ChunkPosition) -> (r: Self)
        requires
            chunk_position.spec_valid(),
        ensures
            r == Self::spec_from_chunk_position(chunk_position),
            r.spec_valid(),
    {
        Self((chunk_position.x as usize) + (CHUNKS_PER_AXIS * (chunk_position.y as usize)))
    }

    pub open spec fn spec_to_chunk_position(self) -> ChunkPosition {
        ChunkPosition { x: (self.0 % CHUNKS_PER_AXIS) as u32, y: (self.0 / CHUNKS_PER_AXIS) as u32 }
    }

    pub fn to_chunk_position(self) -> (r: ChunkPosition)
        requires
            self.spec_valid(),
        ensures
            r == self.spec_to_chunk_position(),
            r.spec_valid(),
            Self::spec_from_chunk_position(r) == self,
    {
        let y: usize = self.0 / CHUNKS_PER_AXIS;
        let x: usize = self.0 - (y * CHUNKS_PER_AXIS);

        ChunkPosition { x: x as u32, y: y as u32 }
    }
}

impl ChunksDimensions {
    pub fn width(&self) -> (r: u32)
        requires
            self.left <= self.right,
            self.right - self.left <= i32::MAX,
        ensures
            r == self.right - self.left,
    {
        (self.right - self.left) as u32
    }

    pub fn height(&self) -> (r: u32)
        requires
            self.bottom <= self.top,
            self.top - self.bottom <= i32::MAX,
        ensures
            r == self.top - self.bottom,
    {
        (self.top - self.bottom) as u32
    }
}

/// The world position of a cell given by chunk and local coordinates:
/// world = chunk * CHUNK_SIZE + local.
pub open spec fn spec_chunk_local_to_world(
    chunk: ChunkPosition,
    local: ChunkCellPosition,
) -> WorldCellPosition {
    WorldCellPosition {
        x: (chunk.x * CHUNK_SIZE + local.x) as i32,
        y: (chunk.y * CHUNK_SIZE + local.y) as i32,
    }
}

/// The (chunk, local) pair owning a world cell: chunk = world / CHUNK_SIZE,
/// local = world % CHUNK_SIZE.
pub open spec fn spec_world_to_chunk(world: WorldCellPosition) -> ChunkPosition {
    ChunkPosition { x: ((world.x as int) / 64) as u32, y: ((world.y as int) / 64) as u32 }
}

pub open spec fn spec_world_to_local(world: WorldCellPosition) -> ChunkCellPosition {
    ChunkCellPosition { x: ((world.x as int) % 64) as u32, y: ((world.y as int) % 64) as u32 }
}

/// World to (chunk, local): every valid world position maps to exactly one
/// pair, and back losslessly.
pub fn world_to_chunk_local(world: WorldCellPosition) -> (r: (ChunkPosition, ChunkCellPosition))
    requires
        world.spec_in_bounds(),
    ensures
        r.0 == spec_world_to_chunk(world),
        r.1 == spec_world_to_local(world),
        r.0.spec_valid(),
        r.1.spec_valid(),
        spec_chunk_local_to_world(r.0, r.1) == world,
{
    let chunk = ChunkPosition { x: (world.x as u32) / 64, y: (world.y as u32) / 64 };
    let local = ChunkCellPosition { x: (world.x as u32) % 64, y: (world.y as u32) % 64 };
    (chunk, local)
}

/// (chunk, local) to world, the inverse of world_to_chunk_local.
pub fn chunk_local_to_world(chunk: ChunkPosition, local: ChunkCellPosition) -> (r:
    WorldCellPosition)
    requires
        chunk.spec_valid(),
        local.spec_valid(),
    ensures
        r == spec_chunk_local_to_world(chunk, local),
        r.spec_in_bounds(),
        spec_world_to_chunk(r) == chunk,
        spec_world_to_local(r) == local,
{
    WorldCellPosition { x: (chunk.x * 64 + local.x) as i32, y: (chunk.y * 64 + local.y) as i32 }
}

/// Round trip of coordinates: converting a valid world position to its
/// (chunk, local) pair and back yields the same position, and the pair is
/// the unique one whose cell is that position.
pub proof fn lemma_coord_round_trip(world: WorldCellPosition)
    requires
        world.spec_in_bounds(),
    ensures
        spec_chunk_local_to_world(spec_world_to_chunk(world), spec_world_to_local(world)) == world,
        spec_world_to_chunk(world).spec_valid(),
        spec_world_to_local(world).spec_valid(),
        forall|chunk: ChunkPosition, local: ChunkCellPosition|
            chunk.spec_valid() && local.spec_valid() && spec_chunk_local_to_world(chunk, local)
                == world ==> chunk == spec_world_to_chunk(world) && local == spec_world_to_local(
                world,
            ),
{
    assert forall|chunk: ChunkPosition, local: ChunkCellPosition|
        chunk.spec_valid() && local.spec_valid() && spec_chunk_local_to_world(chunk, local)
            == world implies chunk == spec_world_to_chunk(world) && local == spec_world_to_local(
        world,
    ) by {
        assert(world.x == chunk.x * 64 + local.x && world.y == chunk.y * 64 + local.y);
        assert(chunk.x * 64 + local.x == world.x && local.x < 64 ==> (world.x as int) / 64
            == chunk.x && (world.x as int) % 64 == local.x) by (nonlinear_arith);
        assert(chunk.y * 64 + local.y == world.y && local.y < 64 ==> (world.y as int) / 64
            == chunk.y && (world.y as int) % 64 == local.y) by (nonlinear_arith);
    }
}

} // verus!
