//! The simulation as a whole: the chunk grid, the live particles, the
//! per-tick change tracker and the tick counter, advanced one fixed
//! timestep at a time.  Inbound requests paint settled cells or spawn
//! particles; the outbound diff is drained once per tick by the render
//! sink.

use crate::cell::{Cell, CellColor, CellType};
use crate::changes::{ChunkChanges, ChunkChangeView};
use crate::coords::WorldCellPosition;
use crate::engine::{
    advance_particles, scan_cells, spec_advance_particles, spec_record, spec_scan, TickState,
};
use crate::grid::{grid_set, spec_in_world, Chunks};
use crate::particles::{FixedVec2, Particle, Particles, MAX_SPAWN_COORD, MAX_SPEED};
use vstd::prelude::*;

verus! {

/// Relies on rand::random_range: the result is uniformly drawn from the
/// given half-open range, so it always lies within it; the range must not
/// be empty.
#[verifier::external_body]
fn random_in_range(lo: i64, hi: i64) -> (r: i64)
    requires
        lo < hi,
    ensures
        lo <= r < hi,
{
    rand::random_range(lo..hi)
}

/// The tick counter advances by one and wraps at the integer limit.
pub open spec fn spec_wrapping_inc(t: u64) -> u64 {
    if t == u64::MAX {
        0
    } else {
        (t + 1) as u64
    }
}

/// The mathematical model of the whole simulation.
#[verifier::ext_equal]
pub ghost struct SimView {
    pub grid: Seq<Seq<Option<Cell>>>,
    pub changes: Seq<ChunkChangeView>,
    pub particles: Seq<Particle>,
    pub tick: u64,
}

/// One whole tick: the counter advances, the cell scan runs with the new
/// tick's parity, then every particle is integrated and resolved.
pub open spec fn spec_advance_tick(s: SimView) -> SimView {
    let tick = spec_wrapping_inc(s.tick);
    let even = tick % 2 == 0;
    let st = spec_scan((TickState { grid: s.grid, changes: s.changes }), even, tick);
    let ph = spec_advance_particles(st.grid, st.changes, s.particles);
    SimView { grid: ph.grid, changes: ph.changes, particles: ph.live, tick }
}

/// Painting a cell: inside the world the slot is overwritten with a fresh
/// cell of the material and the write is recorded; outside the world
/// nothing changes.
pub open spec fn spec_paint_cell(
    s: SimView,
    world: WorldCellPosition,
    material: CellType,
    color: CellColor,
) -> SimView {
    if spec_in_world(world.x as int, world.y as int) {
        SimView {
            grid: grid_set(
                s.grid,
                world.x as int,
                world.y as int,
                Some(Cell { cell_type: material, color, last_iteration_updated: 0 }),
            ),
            changes: spec_record(s.changes, world.x as int, world.y as int, color),
            particles: s.particles,
            tick: s.tick,
        }
    } else {
        s
    }
}

/// The simulation state: a 3x3 grid of chunks, the free particles, and the
/// change tracker the render sink drains once per tick.
pub struct PixelSimulation {
    pub chunks: Chunks,
    pub particles: Particles,
    chunk_changes: ChunkChanges,
    tick: u64,
}

impl View for PixelSimulation {
    type V = SimView;

    closed spec fn view(&self) -> SimView {
        SimView {
            grid: self.chunks@,
            changes: self.chunk_changes@,
            particles: self.particles@,
            tick: self.tick,
        }
    }
}

impl PixelSimulation {
    pub open spec fn wf(self) -> bool {
        &&& crate::grid::grid_wf(self@.grid)
        &&& crate::particles::particles_wf(self@.particles)
        &&& crate::changes::changes_wf(self@.changes)
    }

    /// A simulation over the given chunks, with no particles, an empty
    /// diff, and the tick counter at zero.
    pub fn new(chunks: Chunks) -> (r: Self)
        requires
            chunks.wf(),
        ensures
            r.wf(),
            r@.grid == chunks@,
            r@.changes == Seq::<ChunkChangeView>::empty(),
            r@.particles == Seq::<Particle>::empty(),
            r@.tick == 0,
    {
        Self { chunks, particles: Particles::new(), chunk_changes: ChunkChanges::new(), tick: 0 }
    }

    /// The current tick counter.
    pub fn tick(&self) -> (r: u64)
        ensures
            r == self@.tick,
    {
        self.tick
    }

    /// The diff accumulated since the last drain.
    pub fn chunk_changes(&self) -> (r: &ChunkChanges)
        ensures
            r@ == self@.changes,
    {
        &self.chunk_changes
    }

    /// Advances the simulation by one fixed timestep: the tick counter
    /// increments (wrapping), every occupied cell takes one move attempt in
    /// scan order, and every particle is integrated and resolved.
    pub fn advance_tick(&mut self)
        requires
            old(self).wf(),
        ensures
            final(self).wf(),
            final(self)@ == spec_advance_tick(old(self)@),
    {
        let tick = if self.tick == u64::MAX {
            0
        } else {
            self.tick + 1
        };
        self.tick = tick;
        let even = tick % 2 == 0;
        scan_cells(&mut self.chunks, &mut self.chunk_changes, even, tick);
        advance_particles(&mut self.chunks, &mut self.chunk_changes, &mut self.particles);
    }

    /// Places a settled cell of the material at a world position; a
    /// position outside the grid is a no-op, not an error.
    pub fn paint_cell(&mut self, world: WorldCellPosition, material: CellType, color: CellColor)
        requires
            old(self).wf(),
        ensures
            final(self).wf(),
            final(self)@ == spec_paint_cell(old(self)@, world, material, color),
    {
        if world.in_bounds() {
            self.chunks.set_cell_world(
                world,
                Some(Cell { cell_type: material, color, last_iteration_updated: 0 }),
            );
            crate::engine::record_change(&mut self.chunk_changes, world.x, world.y, color);
        }
    }

    /// Spawns `count` particles of the material at a position, each with a
    /// velocity drawn independently from [-velocity_spread,
    /// velocity_spread] on both axes.  The grid, the diff and the tick are
    /// untouched; the new particles follow the existing ones in spawn
    /// order.
    pub fn spawn_particles(
        &mut self,
        position: FixedVec2,
        particle_type: CellType,
        count: usize,
        velocity_spread: i64,
        color: CellColor,
    )
        requires
            old(self).wf(),
            -MAX_SPAWN_COORD <= position.x <= MAX_SPAWN_COORD,
            -MAX_SPAWN_COORD <= position.y <= MAX_SPAWN_COORD,
            0 <= velocity_spread < MAX_SPEED,
        ensures
            final(self).wf(),
            final(self)@.grid == old(self)@.grid,
            final(self)@.changes == old(self)@.changes,
            final(self)@.tick == old(self)@.tick,
            final(self)@.particles.len() == old(self)@.particles.len() + count,
            forall|i: int|
                0 <= i < old(self)@.particles.len() ==> final(self)@.particles[i] == old(
                    self,
                )@.particles[i],
            forall|i: int|
                old(self)@.particles.len() <= i < final(self)@.particles.len() ==> {
                    let p = #[trigger] final(self)@.particles[i];
                    &&& p.particle_type == particle_type
                    &&& p.position == position
                    &&& p.color == color
                    &&& -velocity_spread <= p.velocity.x <= velocity_spread
                    &&& -velocity_spread <= p.velocity.y <= velocity_spread
                },
    {
        let ghost ps0 = self.particles@;
        let mut spawned: usize = 0;
        while spawned < count
            invariant
                spawned <= count,
                self.wf(),
                self.chunks@ == old(self).chunks@,
                self.chunk_changes@ == old(self).chunk_changes@,
                self.tick == old(self).tick,
                -MAX_SPAWN_COORD <= position.x <= MAX_SPAWN_COORD,
                -MAX_SPAWN_COORD <= position.y <= MAX_SPAWN_COORD,
                0 <= velocity_spread < MAX_SPEED,
                self.particles@.len() == ps0.len() + spawned,
                forall|i: int| 0 <= i < ps0.len() ==> self.particles@[i] == ps0[i],
                forall|i: int|
                    ps0.len() <= i < self.particles@.len() ==> {
                        let p = #[trigger] self.particles@[i];
                        &&& p.particle_type == particle_type
                        &&& p.position == position
                        &&& p.color == color
                        &&& -velocity_spread <= p.velocity.x <= velocity_spread
                        &&& -velocity_spread <= p.velocity.y <= velocity_spread
                    },
            decreases count - spawned,
        {
            let vx = random_in_range(-velocity_spread, velocity_spread + 1);
            let vy = random_in_range(-velocity_spread, velocity_spread + 1);
            self.particles.add_particle(
                Particle {
                    particle_type,
                    position,
                    velocity: FixedVec2 { x: vx, y: vy },
                    color,
                },
            );
            spawned = spawned + 1;
        }
    }

    /// Hands the accumulated diff to the render sink and clears the
    /// tracker, leaving grid, particles and tick untouched.
    pub fn drain_changes(&mut self) -> (r: ChunkChanges)
        requires
            old(self).wf(),
        ensures
            final(self).wf(),
            r@ == old(self)@.changes,
            r.wf(),
            final(self)@.changes == Seq::<ChunkChangeView>::empty(),
            final(self)@.grid == old(self)@.grid,
            final(self)@.particles == old(self)@.particles,
            final(self)@.tick == old(self)@.tick,
    {
        let mut drained = ChunkChanges::new();
        core::mem::swap(&mut drained, &mut self.chunk_changes);
        drained
    }

    /// The number of settled cells in the grid.
    pub fn count_cells(&self) -> (r: u64)
        requires
            self.wf(),
        ensures
            r == crate::grid::spec_cell_count(self@.grid),
    {
        let ghost g = self@.grid;
        let mut count: u64 = 0;
        let mut i: usize = 0;
        while i < 9
            invariant
                i <= 9,
                self.wf(),
                g == self@.grid,
                count == crate::grid::spec_count_grid_upto(g, i as int),
            decreases 9 - i,
        {
            let mut j: usize = 0;
            while j < 4096
                invariant
                    i < 9,
                    j <= 4096,
                    self.wf(),
                    g == self@.grid,
                    count == crate::grid::spec_count_grid_upto(g, i as int)
                        + crate::grid::spec_count_slots(g[i as int], j as int),
                decreases 4096 - j,
            {
                let position = crate::coords::ChunkCellPosition {
                    x: (j % 64) as u32,
                    y: (j / 64) as u32,
                };
                proof {
                    assert(position.spec_cell_index() == j as int);
                    crate::grid::lemma_count_grid_upto_le(g, i as int);
                    crate::grid::lemma_count_slots_le(g[i as int], j as int);
                }
                if self.chunks.get_cell(crate::coords::ChunkIndex(i), position).is_some() {
                    count = count + 1;
                }
                j = j + 1;
            }
            i = i + 1;
        }
        proof {
            assert(crate::grid::spec_cell_count(g) == crate::grid::spec_count_grid_upto(g, 9));
        }
        count
    }

    /// The live particles as (position, color) pairs, for wholesale
    /// overlay rendering each tick.
    pub fn live_particles(&self) -> (r: Vec<(FixedVec2, CellColor)>)
        ensures
            r@.len() == self@.particles.len(),
            forall|i: int|
                0 <= i < r@.len() ==> #[trigger] r@[i] == (
                    self@.particles[i].position,
                    self@.particles[i].color,
                ),
    {
        let n = self.particles.len();
        let mut out: Vec<(FixedVec2, CellColor)> = Vec::new();
        let mut i: usize = 0;
        while i < n
            invariant
                i <= n,
                n == self@.particles.len(),
                out@.len() == i,
                forall|j: int|
                    0 <= j < i ==> #[trigger] out@[j] == (
                        self@.particles[j].position,
                        self@.particles[j].color,
                    ),
            decreases n - i,
        {
            let p = self.particles.get(i);
            out.push((p.position, p.color));
            i = i + 1;
        }
        out
    }
}

} // verus!
