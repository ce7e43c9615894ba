//! The per-tick cell update engine.  Once per tick every occupied cell not
//! yet updated this tick is stamped and attempts, in material-specific
//! priority order, a set of candidate offset moves; the first offset whose
//! destination is vacant (or, for sand over water, swappable) wins.  The
//! scan's horizontal direction alternates with tick parity to avoid a
//! left/right bias; rows are visited bottom-up so a falling cell lands in
//! an already-visited row.  Every successful move is recorded in the change
//! tracker; a cell that stays put is rewritten with a fresh stamp but not
//! recorded.

use crate::cell::{Cell, CellColor, CellType};
use crate::changes::{spec_add_cell_change, CellChange, ChunkChanges, ChunkChangeView};
use crate::coords::{ChunkCellPosition, ChunkPosition, WorldCellPosition};
use crate::grid::{grid_at, grid_set, grid_wf, spec_in_world, Chunks};
use crate::particles::{integrate_particle, spec_integrate, Particle, Particles};
use vstd::prelude::*;

verus! {

/// The state a tick's scan threads through: the grid and the recorded
/// diff.
#[verifier::ext_equal]
pub ghost struct TickState {
    pub grid: Seq<Seq<Option<Cell>>>,
    pub changes: Seq<ChunkChangeView>,
}

impl TickState {
    pub open spec fn wf(self) -> bool {
        grid_wf(self.grid)
    }
}

/// The recorded diff after the cell at world (x, y) becomes visible with
/// the given color.
pub open spec fn spec_record(changes: Seq<ChunkChangeView>, x: int, y: int, color: CellColor) -> Seq<
    ChunkChangeView,
> {
    spec_add_cell_change(
        changes,
        ChunkPosition { x: (x / 64) as u32, y: (y / 64) as u32 },
        CellChange {
            cell_position: ChunkCellPosition { x: (x % 64) as u32, y: (y % 64) as u32 },
            new_color: color,
        },
    )
}

/// One candidate offset tried from (x, y) by the stamped cell: None when
/// the candidate fails (world edge, or an occupied destination that the
/// material may not swap with), otherwise the state after the move.  A
/// vacant destination takes the cell; sand may additionally swap with
/// water, the displaced water moving up into the source slot unchanged.
pub open spec fn spec_try_candidate(
    st: TickState,
    x: int,
    y: int,
    dx: int,
    dy: int,
    stamped: Cell,
    allow_swap: bool,
) -> Option<TickState> {
    let tx = x + dx;
    let ty = y + dy;
    if !spec_in_world(tx, ty) {
        None
    } else {
        match grid_at(st.grid, tx, ty) {
            None => Some(
                TickState {
                    grid: grid_set(grid_set(st.grid, x, y, None), tx, ty, Some(stamped)),
                    changes: spec_record(
                        spec_record(st.changes, x, y, CellColor::spec_transparent()),
                        tx,
                        ty,
                        stamped.color,
                    ),
                },
            ),
            Some(tc) => if allow_swap && tc.cell_type == CellType::Water {
                Some(
                    TickState {
                        grid: grid_set(grid_set(st.grid, x, y, Some(tc)), tx, ty, Some(stamped)),
                        changes: spec_record(
                            spec_record(st.changes, x, y, tc.color),
                            tx,
                            ty,
                            stamped.color,
                        ),
                    },
                )
            } else {
                None
            },
        }
    }
}

/// The state after the cell at world (x, y) takes its turn.  An empty slot
/// or an already-stamped cell changes nothing; otherwise the material's
/// candidates are tried in priority order, and a cell that exhausts them
/// is rewritten in place with a fresh stamp, unrecorded.  Sand tries
/// straight down then both diagonals, swapping with water; water tries
/// straight down, both diagonals, then sideways by one and by two cells.
/// The preferred side follows the scan direction of the tick.
pub open spec fn spec_step_cell(st: TickState, x: int, y: int, even: bool, tick: u64) -> TickState {
    match grid_at(st.grid, x, y) {
        None => st,
        Some(c) => {
            if c.last_iteration_updated == tick {
                st
            } else {
                let stamped = Cell {
                    cell_type: c.cell_type,
                    color: c.color,
                    last_iteration_updated: tick,
                };
                let s = if even {
                    -1int
                } else {
                    1int
                };
                let refreshed = TickState {
                    grid: grid_set(st.grid, x, y, Some(stamped)),
                    changes: st.changes,
                };
                match c.cell_type {
                    CellType::Sand => match spec_try_candidate(st, x, y, 0, 1, stamped, true) {
                        Some(r) => r,
                        None => match spec_try_candidate(st, x, y, s, 1, stamped, true) {
                            Some(r) => r,
                            None => match spec_try_candidate(st, x, y, -s, 1, stamped, true) {
                                Some(r) => r,
                                None => refreshed,
                            },
                        },
                    },
                    CellType::Water => match spec_try_candidate(st, x, y, 0, 1, stamped, false) {
                        Some(r) => r,
                        None => match spec_try_candidate(st, x, y, s, 1, stamped, false) {
                            Some(r) => r,
                            None => match spec_try_candidate(st, x, y, -s, 1, stamped, false) {
                                Some(r) => r,
                                None => match spec_try_candidate(st, x, y, s, 0, stamped, false) {
                                    Some(r) => r,
                                    None => match spec_try_candidate(
                                        st,
                                        x,
                                        y,
                                        -s,
                                        0,
                                        stamped,
                                        false,
                                    ) {
                                        Some(r) => r,
                                        None => match spec_try_candidate(
                                            st,
                                            x,
                                            y,
                                            2 * s,
                                            0,
                                            stamped,
                                            false,
                                        ) {
                                            Some(r) => r,
                                            None => match spec_try_candidate(
                                                st,
                                                x,
                                                y,
                                                -2 * s,
                                                0,
                                                stamped,
                                                false,
                                            ) {
                                                Some(r) => r,
                                                None => refreshed,
                                            },
                                        },
                                    },
                                },
                            },
                        },
                    },
                }
            }
        },
    }
}

/// Appends one change record for world cell (x, y) showing the color.
pub(crate) fn record_change(changes: &mut ChunkChanges, x: i32, y: i32, color: CellColor)
    requires
        old(changes).wf(),
        spec_in_world(x as int, y as int),
    ensures
        final(changes).wf(),
        final(changes)@ == spec_record(old(changes)@, x as int, y as int, color),
{
    let chunk_position = ChunkPosition { x: (x as u32) / 64, y: (y as u32) / 64 };
    let cell_change = CellChange {
        cell_position: ChunkCellPosition { x: (x as u32) % 64, y: (y as u32) % 64 },
        new_color: color,
    };
    changes.add_cell_change(chunk_position, cell_change);
}

/// Tries one candidate offset for the stamped cell at (x, y), writing the
/// move and its two change records when the candidate succeeds.
fn try_candidate(
    chunks: &mut Chunks,
    changes: &mut ChunkChanges,
    x: i32,
    y: i32,
    dx: i32,
    dy: i32,
    stamped: Cell,
    allow_swap: bool,
) -> (moved: bool)
    requires
        old(chunks).wf(),
        old(changes).wf(),
        spec_in_world(x as int, y as int),
        -2 <= dx <= 2,
        0 <= dy <= 1,
    ensures
        final(chunks).wf(),
        final(changes).wf(),
        match spec_try_candidate(
            (TickState { grid: old(chunks)@, changes: old(changes)@ }),
            x as int,
            y as int,
            dx as int,
            dy as int,
            stamped,
            allow_swap,
        ) {
            Some(st) => moved && final(chunks)@ == st.grid && final(changes)@ == st.changes,
            None => !moved && final(chunks)@ == old(chunks)@ && final(changes)@ == old(changes)@,
        },
{
    let tx = x + dx;
    let ty = y + dy;
    if tx < 0 || tx >= 192 || ty < 0 || ty >= 192 {
        return false;
    }
    let source = WorldCellPosition { x, y };
    let target = WorldCellPosition { x: tx, y: ty };
    match chunks.cell_at_world(target) {
        None => {
            chunks.set_cell_world(source, None);
            chunks.set_cell_world(target, Some(stamped));
            record_change(changes, x, y, CellColor::transparent());
            record_change(changes, tx, ty, stamped.color);
            true
        },
        Some(tc) => {
            if allow_swap && tc.cell_type == CellType::Water {
                chunks.set_cell_world(source, Some(tc));
                chunks.set_cell_world(target, Some(stamped));
                record_change(changes, x, y, tc.color);
                record_change(changes, tx, ty, stamped.color);
                true
            } else {
                false
            }
        },
    }
}

/// Gives the cell at world (x, y) its turn for this tick, exactly as the
/// model spec_step_cell says.
pub fn update_cell(chunks: &mut Chunks, changes: &mut ChunkChanges, x: i32, y: i32, even: bool, tick: u64)
    requires
        old(chunks).wf(),
        old(changes).wf(),
        spec_in_world(x as int, y as int),
    ensures
        final(chunks).wf(),
        final(changes).wf(),
        ({
            let st = spec_step_cell(
                (TickState { grid: old(chunks)@, changes: old(changes)@ }),
                x as int,
                y as int,
                even,
                tick,
            );
            final(chunks)@ == st.grid && final(changes)@ == st.changes
        }),
{
    let position = WorldCellPosition { x, y };
    let c = match chunks.cell_at_world(position) {
        None => {
            return ;
        },
        Some(c) => c,
    };
    if c.last_iteration_updated == tick {
        return ;
    }
    let stamped = Cell { cell_type: c.cell_type, color: c.color, last_iteration_updated: tick };
    let s: i32 = if even {
        -1
    } else {
        1
    };
    match c.cell_type {
        CellType::Sand => {
            if try_candidate(chunks, changes, x, y, 0, 1, stamped, true) {
            } else if try_candidate(chunks, changes, x, y, s, 1, stamped, true) {
            } else if try_candidate(chunks, changes, x, y, -s, 1, stamped, true) {
            } else {
                chunks.set_cell_world(position, Some(stamped));
            }
        },
        CellType::Water => {
            if try_candidate(chunks, changes, x, y, 0, 1, stamped, false) {
            } else if try_candidate(chunks, changes, x, y, s, 1, stamped, false) {
            } else if try_candidate(chunks, changes, x, y, -s, 1, stamped, false) {
            } else if try_candidate(chunks, changes, x, y, s, 0, stamped, false) {
            } else if try_candidate(chunks, changes, x, y, -s, 0, stamped, false) {
            } else if try_candidate(chunks, changes, x, y, 2 * s, 0, stamped, false) {
            } else if try_candidate(chunks, changes, x, y, -2 * s, 0, stamped, false) {
            } else {
                chunks.set_cell_world(position, Some(stamped));
            }
        },
    }
}

/// The chunk visited at step k of the chunk scan: columns run with the
/// tick's direction, rows bottom-up.
pub open spec fn spec_scan_chunk_coords(even: bool, k: int) -> (int, int) {
    let cx = if even {
        k / 3
    } else {
        2 - k / 3
    };
    (cx, 2 - k % 3)
}

/// The local cell visited at step j of one chunk's scan: columns run with
/// the tick's direction, rows bottom-up.
pub open spec fn spec_scan_cell_coords(even: bool, j: int) -> (int, int) {
    let lx = if even {
        j / 64
    } else {
        63 - j / 64
    };
    (lx, 63 - j % 64)
}

/// The state after the first j cells of chunk (cx, cy) have taken their
/// turns, in scan order.
pub open spec fn spec_scan_chunk_upto(
    st: TickState,
    cx: int,
    cy: int,
    even: bool,
    tick: u64,
    j: int,
) -> TickState
    decreases j,
{
    if j <= 0 {
        st
    } else {
        let prev = spec_scan_chunk_upto(st, cx, cy, even, tick, j - 1);
        let lxy = spec_scan_cell_coords(even, j - 1);
        spec_step_cell(prev, cx * 64 + lxy.0, cy * 64 + lxy.1, even, tick)
    }
}

/// The state after every cell of chunk (cx, cy) has taken its turn.
pub open spec fn spec_scan_chunk(st: TickState, cx: int, cy: int, even: bool, tick: u64) -> TickState {
    spec_scan_chunk_upto(st, cx, cy, even, tick, 4096)
}

/// The state after the first k chunks have been scanned, in scan order.
pub open spec fn spec_scan_upto(st: TickState, even: bool, tick: u64, k: int) -> TickState
    decreases k,
{
    if k <= 0 {
        st
    } else {
        let prev = spec_scan_upto(st, even, tick, k - 1);
        let cxy = spec_scan_chunk_coords(even, k - 1);
        spec_scan_chunk(prev, cxy.0, cxy.1, even, tick)
    }
}

/// The state after one full scan of the grid.
pub open spec fn spec_scan(st: TickState, even: bool, tick: u64) -> TickState {
    spec_scan_upto(st, even, tick, 9)
}

/// Runs one full scan of the grid, visiting every cell exactly once in the
/// tick's scan order.
#[verifier::rlimit(100)]
pub fn scan_cells(chunks: &mut Chunks, changes: &mut ChunkChanges, even: bool, tick: u64)
    requires
        old(chunks).wf(),
        old(changes).wf(),
    ensures
        final(chunks).wf(),
        final(changes).wf(),
        ({
            let st = spec_scan(
                (TickState { grid: old(chunks)@, changes: old(changes)@ }),
                even,
                tick,
            );
            final(chunks)@ == st.grid && final(changes)@ == st.changes
        }),
{
    let ghost st0 = TickState { grid: chunks@, changes: changes@ };
    let mut k: usize = 0;
    while k < 9
        invariant
            k <= 9,
            chunks.wf(),
            changes.wf(),
            chunks@ == spec_scan_upto(st0, even, tick, k as int).grid,
            changes@ == spec_scan_upto(st0, even, tick, k as int).changes,
        decreases 9 - k,
    {
        let cx: usize = if even {
            k / 3
        } else {
            2 - k / 3
        };
        let cy: usize = 2 - k % 3;
        proof {
            assert(spec_scan_chunk_coords(even, k as int) == (cx as int, cy as int));
        }
        let ghost stk = spec_scan_upto(st0, even, tick, k as int);
        let mut j: usize = 0;
        while j < 4096
            invariant
                j <= 4096,
                k < 9,
                chunks.wf(),
                changes.wf(),
                cx == spec_scan_chunk_coords(even, k as int).0,
                cy == spec_scan_chunk_coords(even, k as int).1,
                stk == spec_scan_upto(st0, even, tick, k as int),
                chunks@ == spec_scan_chunk_upto(stk, cx as int, cy as int, even, tick, j as int).grid,
                changes@ == spec_scan_chunk_upto(
                    stk,
                    cx as int,
                    cy as int,
                    even,
                    tick,
                    j as int,
                ).changes,
            decreases 4096 - j,
        {
            let lx: usize = if even {
                j / 64
            } else {
                63 - j / 64
            };
            let ly: usize = 63 - j % 64;
            proof {
                assert(spec_scan_cell_coords(even, j as int) == (lx as int, ly as int));
            }
            let x: i32 = (cx * 64 + lx) as i32;
            let y: i32 = (cy * 64 + ly) as i32;
            let ghost stj = spec_scan_chunk_upto(stk, cx as int, cy as int, even, tick, j as int);
            update_cell(chunks, changes, x, y, even, tick);
            proof {
                assert(spec_scan_chunk_upto(stk, cx as int, cy as int, even, tick, j + 1)
                    == spec_step_cell(stj, x as int, y as int, even, tick));
            }
            j = j + 1;
        }
        k = k + 1;
    }
}

/// The state of the particle phase: the grid and diff so far, the
/// particles still live (in spawn order), and how many particles were
/// silently absorbed at an obstruction.
#[verifier::ext_equal]
pub ghost struct ParticlePhase {
    pub grid: Seq<Seq<Option<Cell>>>,
    pub changes: Seq<ChunkChangeView>,
    pub live: Seq<Particle>,
    pub absorbed: nat,
}

/// What becomes of one integrated particle against the grid.
#[verifier::ext_equal]
pub ghost struct ParticleOutcome {
    pub grid: Seq<Seq<Option<Cell>>>,
    pub changes: Seq<ChunkChangeView>,
    pub kept: Option<Particle>,
    pub absorbed: bool,
}

/// Resolution of one integrated particle, whose position is already
/// clamped to the world.  If its cell is occupied, or it has reached the
/// world's lower boundary, it tries to settle one cell above the
/// obstruction: a vacant slot there gains a fresh cell of the particle's
/// material (stamp 0) and a change record; otherwise the particle is
/// silently absorbed.  A particle over a vacant cell short of the bottom
/// stays live.
pub open spec fn spec_resolve_particle(
    grid: Seq<Seq<Option<Cell>>>,
    changes: Seq<ChunkChangeView>,
    q: Particle,
) -> ParticleOutcome {
    let wx = (q.position.x as int) / 256;
    let wy = (q.position.y as int) / 256;
    if wy == 191 || grid_at(grid, wx, wy) is Some {
        if wy >= 1 && grid_at(grid, wx, wy - 1) is None {
            ParticleOutcome {
                grid: grid_set(
                    grid,
                    wx,
                    wy - 1,
                    Some(Cell { cell_type: q.particle_type, color: q.color, last_iteration_updated: 0 }),
                ),
                changes: spec_record(changes, wx, wy - 1, q.color),
                kept: None,
                absorbed: false,
            }
        } else {
            ParticleOutcome { grid, changes, kept: None, absorbed: true }
        }
    } else {
        ParticleOutcome { grid, changes, kept: Some(q), absorbed: false }
    }
}

/// The particle phase after the first i particles have been integrated and
/// resolved, in spawn order.
pub open spec fn spec_particles_upto(
    grid: Seq<Seq<Option<Cell>>>,
    changes: Seq<ChunkChangeView>,
    ps: Seq<Particle>,
    i: int,
) -> ParticlePhase
    decreases i,
{
    if i <= 0 {
        ParticlePhase { grid, changes, live: Seq::<Particle>::empty(), absorbed: 0 }
    } else {
        let prev = spec_particles_upto(grid, changes, ps, i - 1);
        let q = spec_integrate(ps[i - 1]);
        let o = spec_resolve_particle(prev.grid, prev.changes, q);
        ParticlePhase {
            grid: o.grid,
            changes: o.changes,
            live: if o.kept is Some {
                prev.live.push(q)
            } else {
                prev.live
            },
            absorbed: prev.absorbed + (if o.absorbed {
                1nat
            } else {
                0nat
            }),
        }
    }
}

/// The particle phase after every live particle has been integrated and
/// resolved.
pub open spec fn spec_advance_particles(
    grid: Seq<Seq<Option<Cell>>>,
    changes: Seq<ChunkChangeView>,
    ps: Seq<Particle>,
) -> ParticlePhase {
    spec_particles_upto(grid, changes, ps, ps.len() as int)
}

/// Integrates and resolves every live particle by one tick, exactly as
/// the model spec_advance_particles says.
pub fn advance_particles(chunks: &mut Chunks, changes: &mut ChunkChanges, particles: &mut Particles)
    requires
        old(chunks).wf(),
        old(changes).wf(),
        old(particles).wf(),
    ensures
        final(chunks).wf(),
        final(changes).wf(),
        final(particles).wf(),
        ({
            let ph = spec_advance_particles(old(chunks)@, old(changes)@, old(particles)@);
            final(chunks)@ == ph.grid && final(changes)@ == ph.changes && final(particles)@
                == ph.live
        }),
{
    let ghost grid0 = chunks@;
    let ghost changes0 = changes@;
    let ghost ps0 = particles@;
    let n = particles.len();
    let mut live = Particles::new();
    let mut i: usize = 0;
    while i < n
        invariant
            i <= n,
            n == ps0.len(),
            particles@ == ps0,
            particles.wf(),
            chunks.wf(),
            changes.wf(),
            live.wf(),
            chunks@ == spec_particles_upto(grid0, changes0, ps0, i as int).grid,
            changes@ == spec_particles_upto(grid0, changes0, ps0, i as int).changes,
            live@ == spec_particles_upto(grid0, changes0, ps0, i as int).live,
        decreases n - i,
    {
        let ghost prev = spec_particles_upto(grid0, changes0, ps0, i as int);
        let p = particles.get(i);
        let q = integrate_particle(p);
        let wx: i32 = (q.position.x / 256) as i32;
        let wy: i32 = (q.position.y / 256) as i32;
        let cell_here = WorldCellPosition { x: wx, y: wy };
        proof {
            assert(wx as int == (q.position.x as int) / 256 && wy as int == (q.position.y as int)
                / 256);
            assert(spec_in_world(wx as int, wy as int));
        }
        if wy == 191 || chunks.cell_at_world(cell_here).is_some() {
            if wy >= 1 {
                let above = WorldCellPosition { x: wx, y: wy - 1 };
                if chunks.cell_at_world(above).is_none() {
                    chunks.set_cell_world(
                        above,
                        Some(
                            Cell {
                                cell_type: q.particle_type,
                                color: q.color,
                                last_iteration_updated: 0,
                            },
                        ),
                    );
                    record_change(changes, wx, wy - 1, q.color);
                }
            }
        } else {
            live.add_particle(q);
        }
        proof {
            assert(spec_particles_upto(grid0, changes0, ps0, i + 1) == ParticlePhase {
                grid: spec_resolve_particle(prev.grid, prev.changes, q).grid,
                changes: spec_resolve_particle(prev.grid, prev.changes, q).changes,
                live: if spec_resolve_particle(prev.grid, prev.changes, q).kept is Some {
                    prev.live.push(q)
                } else {
                    prev.live
                },
                absorbed: prev.absorbed + (if spec_resolve_particle(
                    prev.grid,
                    prev.changes,
                    q,
                ).absorbed {
                    1nat
                } else {
                    0nat
                }),
            });
        }
        i = i + 1;
    }
    *particles = live;
}

} // verus!
