//! Free-floating particles: material units in ballistic flight at sub-cell
//! precision, not yet settled into the grid.  Positions and velocities are
//! fixed-point numbers in subcell units (SUBCELL_SCALE subcells per cell),
//! so one world cell spans SUBCELL_SCALE units on each axis.

use crate::cell::{CellColor, CellType};
use vstd::prelude::*;

verus! {

/// Fixed-point subcell units per world cell.
pub const SUBCELL_SCALE: i64 = 256;

/// The fixed timestep: the simulation advances 6 ticks per second.
pub const TICKS_PER_SECOND: i64 = 6;

/// Gravity, in subcells per second per second (200 cells/s^2).
pub const GRAVITY_SUBCELLS: i64 = 51200;

/// Gravity applied per tick: GRAVITY_SUBCELLS / TICKS_PER_SECOND, in
/// subcells per second.
pub const GRAVITY_PER_TICK: i64 = 8533;

/// Terminal speed, in subcells per second; velocities are capped here so
/// that the integration arithmetic stays inside the machine range.
pub const MAX_SPEED: i64 = 1048576;

/// Bound on particle coordinates before the first clamp (spawn points come
/// from outside the world and are clamped on the first tick).
pub const MAX_SPAWN_COORD: i64 = 1073741824;

/// The largest in-world position on either axis, in subcells:
/// (192 - 1) * SUBCELL_SCALE.
pub const MAX_WORLD_SUBCELL: i64 = 48896;

/// A fixed-point 2-vector in subcell units.
#[derive(Clone, Copy, PartialEq, Eq, Structural, Debug)]
pub struct FixedVec2 {
    pub x: i64,
    pub y: i64,
}

/// A material unit in flight, destroyed when it settles into the grid or
/// is absorbed at an obstruction.
#[derive(Clone, Copy, PartialEq, Eq, Structural, Debug)]
pub struct Particle {
    pub particle_type: CellType,
    pub position: FixedVec2,
    pub velocity: FixedVec2,
    pub color: CellColor,
}

impl Particle {
    /// Machine bounds under which the integration arithmetic cannot
    /// overflow: coordinates within the spawn range, speed at most the
    /// terminal speed.
    pub open spec fn wf(self) -> bool {
        &&& -MAX_SPAWN_COORD <= self.position.x <= MAX_SPAWN_COORD
        &&& -MAX_SPAWN_COORD <= self.position.y <= MAX_SPAWN_COORD
        &&& -MAX_SPEED <= self.velocity.x <= MAX_SPEED
        &&& -MAX_SPEED <= self.velocity.y <= MAX_SPEED
    }
}

/// Truncating division by the tick rate, the fixed-point counterpart of
/// scaling a per-second quantity by the timestep.
pub open spec fn spec_div_ticks(v: int) -> int {
    if v >= 0 {
        v / 6
    } else {
        -((-v) / 6)
    }
}

pub open spec fn spec_clamp(v: int, lo: int, hi: int) -> int {
    if v < lo {
        lo
    } else if v > hi {
        hi
    } else {
        v
    }
}

/// One integration step: gravity accelerates the particle downward (capped
/// at the terminal speed), the new velocity carries the position forward,
/// and the position is clamped to the world bounds.
pub open spec fn spec_integrate(p: Particle) -> Particle {
    let vy = if p.velocity.y + GRAVITY_PER_TICK > MAX_SPEED {
        MAX_SPEED as int
    } else {
        p.velocity.y + GRAVITY_PER_TICK
    };
    let px = spec_clamp(p.position.x + spec_div_ticks(p.velocity.x as int), 0, MAX_WORLD_SUBCELL as int);
    let py = spec_clamp(p.position.y + spec_div_ticks(vy), 0, MAX_WORLD_SUBCELL as int);
    Particle {
        particle_type: p.particle_type,
        position: FixedVec2 { x: px as i64, y: py as i64 },
        velocity: FixedVec2 { x: p.velocity.x, y: vy as i64 },
        color: p.color,
    }
}

fn div_ticks(v: i64) -> (r: i64)
    requires
        -MAX_SPEED <= v <= MAX_SPEED,
    ensures
        r == spec_div_ticks(v as int),
{
    if v >= 0 {
        v / 6
    } else {
        -((-v) / 6)
    }
}

fn clamp_world(v: i64) -> (r: i64)
    ensures
        r == spec_clamp(v as int, 0, MAX_WORLD_SUBCELL as int),
{
    if v < 0 {
        0
    } else if v > MAX_WORLD_SUBCELL {
        MAX_WORLD_SUBCELL
    } else {
        v
    }
}

/// Integrates one particle by one tick.  After the step the particle is
/// inside the world on both axes.
pub fn integrate_particle(p: Particle) -> (r: Particle)
    requires
        p.wf(),
    ensures
        r == spec_integrate(p),
        r.wf(),
        0 <= r.position.x <= MAX_WORLD_SUBCELL,
        0 <= r.position.y <= MAX_WORLD_SUBCELL,
{
    let vy = if p.velocity.y + GRAVITY_PER_TICK > MAX_SPEED {
        MAX_SPEED
    } else {
        p.velocity.y + GRAVITY_PER_TICK
    };
    let px = clamp_world(p.position.x + div_ticks(p.velocity.x));
    let py = clamp_world(p.position.y + div_ticks(vy));
    Particle {
        particle_type: p.particle_type,
        position: FixedVec2 { x: px, y: py },
        velocity: FixedVec2 { x: p.velocity.x, y: vy },
        color: p.color,
    }
}

/// The live particles of the simulation, in spawn order.
pub struct Particles {
    particles: Vec<Particle>,
}

impl View for Particles {
    type V = Seq<Particle>;

    closed spec fn view(&self) -> Seq<Particle> {
        self.particles@
    }
}

/// Every particle of the list lies within the machine bounds.
pub open spec fn particles_wf(ps: Seq<Particle>) -> bool {
    forall|i: int| 0 <= i < ps.len() ==> (#[trigger] ps[i]).wf()
}

impl Particles {
    pub open spec fn wf(self) -> bool {
        particles_wf(self@)
    }

    pub fn new() -> (r: Self)
        ensures
            r@ == Seq::<Particle>::empty(),
            r.wf(),
    {
        Self { particles: Vec::new() }
    }

    pub fn add_particle(&mut self, particle: Particle)
        requires
            old(self).wf(),
            particle.wf(),
        ensures
            final(self)@ == old(self)@.push(particle),
            final(self).wf(),
    {
        self.particles.push(particle);
        proof {
            assert forall|i: int| 0 <= i < self@.len() implies (#[trigger] self@[i]).wf() by {
                if i < old(self)@.len() {
                    assert(self@[i] == old(self)@[i]);
                }
            }
        }
    }

    pub fn len(&self) -> (r: usize)
        ensures
            r == self@.len(),
    {
        self.particles.len()
    }

    pub fn get(&self, i: usize) -> (r: Particle)
        requires
            i < self@.len(),
        ensures
            r == self@[i as int],
    {
        self.particles[i]
    }
}

} // verus!
