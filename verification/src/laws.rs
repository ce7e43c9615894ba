//! The global properties of the engine, stated over the models that the
//! executable functions are proved against: conservation of material, no
//! double update within a tick, boundary containment, and determinism.
//! The coordinate round trip is stated beside the conversions in coords.

use crate::cell::{Cell, CellType};
use crate::changes::ChunkChangeView;
use crate::engine::{
    spec_advance_particles, spec_particles_upto, spec_resolve_particle, spec_scan,
    spec_scan_cell_coords, spec_scan_chunk_coords, spec_scan_chunk_upto, spec_scan_upto,
    spec_step_cell, spec_try_candidate, TickState,
};
use crate::grid::{
    grid_at, grid_set, grid_wf, lemma_grid_set2_count, lemma_grid_set_count, spec_cell_count,
    spec_in_world,
};
use crate::particles::{spec_integrate, Particle};
use crate::sim::{spec_advance_tick, spec_wrapping_inc, SimView};
use vstd::prelude::*;

verus! {

/// A successful candidate move repositions exactly one cell (or swaps
/// two), so it leaves the number of settled cells unchanged.
pub proof fn lemma_try_candidate_count(
    st: TickState,
    x: int,
    y: int,
    dx: int,
    dy: int,
    stamped: Cell,
    allow_swap: bool,
)
    requires
        grid_wf(st.grid),
        spec_in_world(x, y),
        (dx, dy) != (0int, 0int),
        grid_at(st.grid, x, y) is Some,
    ensures
        match spec_try_candidate(st, x, y, dx, dy, stamped, allow_swap) {
            Some(r) => grid_wf(r.grid) && spec_cell_count(r.grid) == spec_cell_count(st.grid),
            None => true,
        },
{
    let tx = x + dx;
    let ty = y + dy;
    if spec_in_world(tx, ty) {
        match grid_at(st.grid, tx, ty) {
            None => {
                lemma_grid_set2_count(st.grid, x, y, None, tx, ty, Some(stamped));
            },
            Some(tc) => {
                if allow_swap && tc.cell_type == CellType::Water {
                    lemma_grid_set2_count(st.grid, x, y, Some(tc), tx, ty, Some(stamped));
                }
            },
        }
    }
}

/// One cell's turn never creates or destroys a cell: it moves, swaps, or
/// stays.
pub proof fn lemma_step_cell_count(st: TickState, x: int, y: int, even: bool, tick: u64)
    requires
        grid_wf(st.grid),
        spec_in_world(x, y),
    ensures
        grid_wf(spec_step_cell(st, x, y, even, tick).grid),
        spec_cell_count(spec_step_cell(st, x, y, even, tick).grid) == spec_cell_count(st.grid),
{
    match grid_at(st.grid, x, y) {
        None => {},
        Some(c) => {
            if c.last_iteration_updated != tick {
                let stamped = Cell {
                    cell_type: c.cell_type,
                    color: c.color,
                    last_iteration_updated: tick,
                };
                let s = if even {
                    -1int
                } else {
                    1int
                };
                lemma_try_candidate_count(st, x, y, 0, 1, stamped, true);
                lemma_try_candidate_count(st, x, y, s, 1, stamped, true);
                lemma_try_candidate_count(st, x, y, -s, 1, stamped, true);
                lemma_try_candidate_count(st, x, y, 0, 1, stamped, false);
                lemma_try_candidate_count(st, x, y, s, 1, stamped, false);
                lemma_try_candidate_count(st, x, y, -s, 1, stamped, false);
                lemma_try_candidate_count(st, x, y, s, 0, stamped, false);
                lemma_try_candidate_count(st, x, y, -s, 0, stamped, false);
                lemma_try_candidate_count(st, x, y, 2 * s, 0, stamped, false);
                lemma_try_candidate_count(st, x, y, -2 * s, 0, stamped, false);
                lemma_grid_set_count(st.grid, x, y, Some(stamped));
            }
        },
    }
}

proof fn lemma_scan_chunk_upto_count(
    st: TickState,
    cx: int,
    cy: int,
    even: bool,
    tick: u64,
    j: int,
)
    requires
        grid_wf(st.grid),
        0 <= cx < 3,
        0 <= cy < 3,
        0 <= j <= 4096,
    ensures
        grid_wf(spec_scan_chunk_upto(st, cx, cy, even, tick, j).grid),
        spec_cell_count(spec_scan_chunk_upto(st, cx, cy, even, tick, j).grid) == spec_cell_count(
            st.grid,
        ),
    decreases j,
{
    if j > 0 {
        lemma_scan_chunk_upto_count(st, cx, cy, even, tick, j - 1);
        let prev = spec_scan_chunk_upto(st, cx, cy, even, tick, j - 1);
        let lxy = spec_scan_cell_coords(even, j - 1);
        assert(0 <= lxy.0 < 64 && 0 <= lxy.1 < 64);
        lemma_step_cell_count(prev, cx * 64 + lxy.0, cy * 64 + lxy.1, even, tick);
    }
}

proof fn lemma_scan_upto_count(st: TickState, even: bool, tick: u64, k: int)
    requires
        grid_wf(st.grid),
        0 <= k <= 9,
    ensures
        grid_wf(spec_scan_upto(st, even, tick, k).grid),
        spec_cell_count(spec_scan_upto(st, even, tick, k).grid) == spec_cell_count(st.grid),
    decreases k,
{
    if k > 0 {
        lemma_scan_upto_count(st, even, tick, k - 1);
        let prev = spec_scan_upto(st, even, tick, k - 1);
        let cxy = spec_scan_chunk_coords(even, k - 1);
        assert(0 <= cxy.0 < 3 && 0 <= cxy.1 < 3);
        lemma_scan_chunk_upto_count(prev, cxy.0, cxy.1, even, tick, 4096);
    }
}

/// Conservation over the cell scan: a full scan of the grid neither
/// creates nor destroys settled cells.
pub proof fn lemma_scan_conservation(st: TickState, even: bool, tick: u64)
    requires
        grid_wf(st.grid),
    ensures
        grid_wf(spec_scan(st, even, tick).grid),
        spec_cell_count(spec_scan(st, even, tick).grid) == spec_cell_count(st.grid),
{
    lemma_scan_upto_count(st, even, tick, 9);
}

/// One particle's resolution accounts for the particle exactly once: it
/// stays live, becomes one settled cell, or is absorbed.
pub proof fn lemma_resolve_particle_count(
    grid: Seq<Seq<Option<Cell>>>,
    changes: Seq<ChunkChangeView>,
    q: Particle,
)
    requires
        grid_wf(grid),
        0 <= q.position.x <= 48896,
        0 <= q.position.y <= 48896,
    ensures
        ({
            let o = spec_resolve_particle(grid, changes, q);
            &&& grid_wf(o.grid)
            &&& spec_cell_count(o.grid) as int + (if o.kept is Some {
                1int
            } else {
                0int
            }) + (if o.absorbed {
                1int
            } else {
                0int
            }) == spec_cell_count(grid) as int + 1
        }),
{
    let wx = (q.position.x as int) / 256;
    let wy = (q.position.y as int) / 256;
    assert(0 <= wx < 192 && 0 <= wy < 192);
    if (wy == 191 || grid_at(grid, wx, wy) is Some) && wy >= 1 && grid_at(grid, wx, wy - 1)
        is None {
        lemma_grid_set_count(
            grid,
            wx,
            wy - 1,
            Some(Cell { cell_type: q.particle_type, color: q.color, last_iteration_updated: 0 }),
        );
    }
}

proof fn lemma_particles_upto_count(
    grid: Seq<Seq<Option<Cell>>>,
    changes: Seq<ChunkChangeView>,
    ps: Seq<Particle>,
    i: int,
)
    requires
        grid_wf(grid),
        0 <= i <= ps.len(),
    ensures
        ({
            let ph = spec_particles_upto(grid, changes, ps, i);
            &&& grid_wf(ph.grid)
            &&& spec_cell_count(ph.grid) as int + ph.live.len() + ph.absorbed == spec_cell_count(
                grid,
            ) as int + i
        }),
    decreases i,
{
    if i > 0 {
        lemma_particles_upto_count(grid, changes, ps, i - 1);
        let prev = spec_particles_upto(grid, changes, ps, i - 1);
        let q = spec_integrate(ps[i - 1]);
        assert(0 <= q.position.x <= 48896 && 0 <= q.position.y <= 48896);
        lemma_resolve_particle_count(prev.grid, prev.changes, q);
    }
}

/// How many particles one tick absorbs at obstructions: the one lossy,
/// explicitly accepted edge case of the particle integrator.
pub open spec fn spec_absorbed_in_tick(s: SimView) -> nat {
    let tick = spec_wrapping_inc(s.tick);
    let even = tick % 2 == 0;
    let st = spec_scan((TickState { grid: s.grid, changes: s.changes }), even, tick);
    spec_advance_particles(st.grid, st.changes, s.particles).absorbed
}

/// Conservation: over one whole tick, moves only reposition cells and
/// particles only settle into cells, so settled cells plus live particles
/// are preserved up to the particles the tick absorbs at obstructions;
/// when nothing is absorbed the sum is invariant.
pub proof fn lemma_tick_conservation(s: SimView)
    requires
        grid_wf(s.grid),
    ensures
        ({
            let s2 = spec_advance_tick(s);
            &&& grid_wf(s2.grid)
            &&& spec_cell_count(s2.grid) as int + s2.particles.len() + spec_absorbed_in_tick(s)
                == spec_cell_count(s.grid) as int + s.particles.len()
        }),
{
    let tick = spec_wrapping_inc(s.tick);
    let even = tick % 2 == 0;
    let st = TickState { grid: s.grid, changes: s.changes };
    lemma_scan_conservation(st, even, tick);
    let scanned = spec_scan(st, even, tick);
    lemma_particles_upto_count(
        scanned.grid,
        scanned.changes,
        s.particles,
        s.particles.len() as int,
    );
}

/// No double update: a cell already stamped with the current tick is left
/// exactly as it is when the scan reaches it, so a cell that has moved
/// this tick is never processed a second time from its new slot.
pub proof fn lemma_no_double_update(st: TickState, x: int, y: int, even: bool, tick: u64)
    requires
        match grid_at(st.grid, x, y) {
            Some(c) => c.last_iteration_updated == tick,
            None => true,
        },
    ensures
        spec_step_cell(st, x, y, even, tick) == st,
{
}

/// The cell a successful candidate writes at its destination carries the
/// current tick's stamp, so by lemma_no_double_update the scan leaves it
/// alone when it reaches that slot later in the same tick.
pub proof fn lemma_moved_cell_is_stamped(
    st: TickState,
    x: int,
    y: int,
    dx: int,
    dy: int,
    stamped: Cell,
    allow_swap: bool,
)
    requires
        grid_wf(st.grid),
        spec_in_world(x, y),
        spec_in_world(x + dx, y + dy),
    ensures
        match spec_try_candidate(st, x, y, dx, dy, stamped, allow_swap) {
            Some(r) => grid_at(r.grid, x + dx, y + dy) == Some(stamped),
            None => true,
        },
{
    let tx = x + dx;
    let ty = y + dy;
    match grid_at(st.grid, tx, ty) {
        None => {
            crate::grid::lemma_grid_set_at(st.grid, x, y, None);
            crate::grid::lemma_grid_set_at(grid_set(st.grid, x, y, None), tx, ty, Some(stamped));
        },
        Some(tc) => {
            if allow_swap && tc.cell_type == CellType::Water {
                crate::grid::lemma_grid_set_at(st.grid, x, y, Some(tc));
                crate::grid::lemma_grid_set_at(
                    grid_set(st.grid, x, y, Some(tc)),
                    tx,
                    ty,
                    Some(stamped),
                );
            }
        },
    }
}

/// Boundary containment: a candidate move whose destination lies outside
/// the 3x3 chunk grid fails and mutates nothing; the grid and the diff
/// are exactly as before.
pub proof fn lemma_boundary_containment(
    st: TickState,
    x: int,
    y: int,
    dx: int,
    dy: int,
    stamped: Cell,
    allow_swap: bool,
)
    requires
        !spec_in_world(x + dx, y + dy),
    ensures
        spec_try_candidate(st, x, y, dx, dy, stamped, allow_swap) is None,
{
}

/// Determinism: a tick is a function of the simulation state alone.  Two
/// simulations whose grids, particle lists, diffs and tick counters agree
/// produce equal grids, equal particle lists and equal change-record sets
/// when advanced; the executable advance_tick realises exactly this
/// function of its starting state.
pub proof fn lemma_determinism(s1: SimView, s2: SimView)
    requires
        s1.grid == s2.grid,
        s1.changes == s2.changes,
        s1.particles == s2.particles,
        s1.tick == s2.tick,
    ensures
        spec_advance_tick(s1) == spec_advance_tick(s2),
{
    assert(s1 =~= s2);
}

} // verus!
