use falling_sand::cell::{CellColor, CellType};
use falling_sand::coords::WorldCellPosition;
use falling_sand::grid::Chunks;
use falling_sand::particles::FixedVec2;
use falling_sand::sim::PixelSimulation;

fn sand_color() -> CellColor {
    CellColor { r: 220, g: 190, b: 120, a: 255 }
}

fn water_color() -> CellColor {
    CellColor { r: 60, g: 120, b: 220, a: 255 }
}

fn empty_sim() -> PixelSimulation {
    PixelSimulation::new(Chunks::new())
}

fn cell_type_at(sim: &PixelSimulation, x: i32, y: i32) -> Option<CellType> {
    sim.chunks.cell_at_world(WorldCellPosition { x, y }).map(|c| c.cell_type)
}

/// Scenario A: a single sand cell falls one cell per tick until it reaches
/// the bottom row; each tick yields one chunk record with two cell changes
/// (source cleared, destination set), except on the two ticks where the
/// fall crosses a chunk boundary and the two records split over the two
/// chunks.
#[test]
fn sand_falls_one_cell_per_tick() {
    let mut sim = empty_sim();
    sim.paint_cell(WorldCellPosition { x: 100, y: 0 }, CellType::Sand, sand_color());
    let _ = sim.drain_changes();
    for step in 0..191i32 {
        sim.advance_tick();
        assert_eq!(cell_type_at(&sim, 100, step), None);
        assert_eq!(cell_type_at(&sim, 100, step + 1), Some(CellType::Sand));
        let changes = sim.drain_changes();
        let crosses_chunk_boundary = (step + 1) % 64 == 0;
        if crosses_chunk_boundary {
            assert_eq!(changes.len(), 2);
            assert_eq!(changes.cell_changes_at(0).len(), 1);
            assert_eq!(changes.cell_changes_at(1).len(), 1);
        } else {
            assert_eq!(changes.len(), 1);
            let recorded = changes.cell_changes_at(0);
            assert_eq!(recorded.len(), 2);
            assert_eq!(recorded[0].new_color, CellColor { r: 0, g: 0, b: 0, a: 0 });
            assert_eq!(recorded[1].new_color, sand_color());
        }
    }
    sim.advance_tick();
    assert_eq!(cell_type_at(&sim, 100, 191), Some(CellType::Sand));
    let changes = sim.drain_changes();
    assert_eq!(changes.len(), 0);
}

/// Scenario B: a sand cell directly above a blocked water cell swaps with
/// it in one tick: sand sinks into the water's slot, water rises.
#[test]
fn sand_swaps_with_water_below() {
    let mut sim = empty_sim();
    sim.paint_cell(WorldCellPosition { x: 100, y: 191 }, CellType::Water, water_color());
    sim.paint_cell(WorldCellPosition { x: 100, y: 190 }, CellType::Sand, sand_color());
    for x in [98, 99, 101, 102] {
        sim.paint_cell(WorldCellPosition { x, y: 191 }, CellType::Sand, sand_color());
    }
    let _ = sim.drain_changes();
    sim.advance_tick();
    assert_eq!(cell_type_at(&sim, 100, 191), Some(CellType::Sand));
    assert_eq!(cell_type_at(&sim, 100, 190), Some(CellType::Water));
}

/// Scenario C, one cell: water on the floor moves exactly one cell
/// sideways per tick when nothing else is open, and the preferred side
/// alternates with tick parity.
#[test]
fn water_flows_sideways_alternating() {
    let mut sim = empty_sim();
    sim.paint_cell(WorldCellPosition { x: 100, y: 191 }, CellType::Water, water_color());
    sim.advance_tick();
    assert_eq!(cell_type_at(&sim, 100, 191), None);
    assert_eq!(cell_type_at(&sim, 101, 191), Some(CellType::Water));
    sim.advance_tick();
    assert_eq!(cell_type_at(&sim, 101, 191), None);
    assert_eq!(cell_type_at(&sim, 100, 191), Some(CellType::Water));
}

/// Scenario C, two cells: water whose one-cell lateral moves are blocked
/// spreads two cells toward the preferred side.
#[test]
fn water_flows_two_cells_when_one_is_blocked() {
    let mut sim = empty_sim();
    sim.paint_cell(WorldCellPosition { x: 100, y: 191 }, CellType::Water, water_color());
    sim.paint_cell(WorldCellPosition { x: 99, y: 191 }, CellType::Sand, sand_color());
    sim.paint_cell(WorldCellPosition { x: 101, y: 191 }, CellType::Sand, sand_color());
    sim.advance_tick();
    assert_eq!(cell_type_at(&sim, 100, 191), None);
    assert_eq!(cell_type_at(&sim, 102, 191), Some(CellType::Water));
}

/// Sand blocked straight down by sand slides to the open diagonal on the
/// preferred side.
#[test]
fn sand_slides_diagonally() {
    let mut sim = empty_sim();
    sim.paint_cell(WorldCellPosition { x: 100, y: 191 }, CellType::Sand, sand_color());
    sim.paint_cell(WorldCellPosition { x: 100, y: 190 }, CellType::Sand, sand_color());
    sim.advance_tick();
    assert_eq!(cell_type_at(&sim, 100, 190), None);
    assert_eq!(cell_type_at(&sim, 101, 191), Some(CellType::Sand));
    assert_eq!(cell_type_at(&sim, 100, 191), Some(CellType::Sand));
}

/// Scenario D: a particle whose target cell is already occupied settles
/// one cell above the obstruction on the first tick it would overlap, and
/// material is conserved while it does.
#[test]
fn particle_settles_above_obstruction() {
    let mut sim = empty_sim();
    sim.paint_cell(WorldCellPosition { x: 100, y: 191 }, CellType::Sand, sand_color());
    let _ = sim.drain_changes();
    sim.spawn_particles(
        FixedVec2 { x: 100 * 256 + 128, y: 190 * 256 },
        CellType::Sand,
        1,
        0,
        sand_color(),
    );
    assert_eq!(sim.live_particles().len(), 1);
    assert_eq!(sim.count_cells(), 1);
    sim.advance_tick();
    assert_eq!(sim.live_particles().len(), 0);
    assert_eq!(sim.count_cells(), 2);
    assert_eq!(cell_type_at(&sim, 100, 190), Some(CellType::Sand));
    let changes = sim.drain_changes();
    assert_eq!(changes.len(), 1);
    let recorded = changes.cell_changes_at(0);
    assert_eq!(recorded.len(), 1);
    assert_eq!(recorded[0].new_color, sand_color());
}

/// Scenario E: painting outside the grid bounds produces no change record,
/// no cell, and no panic.
#[test]
fn paint_outside_bounds_is_a_no_op() {
    let mut sim = empty_sim();
    sim.paint_cell(WorldCellPosition { x: -5, y: 10 }, CellType::Sand, sand_color());
    sim.paint_cell(WorldCellPosition { x: 192, y: 0 }, CellType::Sand, sand_color());
    sim.paint_cell(WorldCellPosition { x: 0, y: -1 }, CellType::Water, water_color());
    assert_eq!(sim.count_cells(), 0);
    assert_eq!(sim.drain_changes().len(), 0);
}

#[test]
fn paint_inside_bounds_records_one_change() {
    let mut sim = empty_sim();
    sim.paint_cell(WorldCellPosition { x: 7, y: 9 }, CellType::Water, water_color());
    assert_eq!(cell_type_at(&sim, 7, 9), Some(CellType::Water));
    assert_eq!(sim.count_cells(), 1);
    let changes = sim.drain_changes();
    assert_eq!(changes.len(), 1);
    let recorded = changes.cell_changes_at(0);
    assert_eq!(recorded.len(), 1);
    assert_eq!(recorded[0].new_color, water_color());
    assert_eq!(recorded[0].cell_position.x, 7);
    assert_eq!(recorded[0].cell_position.y, 9);
}

#[test]
fn spawned_particles_carry_material_position_and_color() {
    let mut sim = empty_sim();
    sim.spawn_particles(
        FixedVec2 { x: 5000, y: 6000 },
        CellType::Water,
        5,
        2560,
        water_color(),
    );
    let live = sim.live_particles();
    assert_eq!(live.len(), 5);
    for (position, color) in live {
        assert_eq!(position, FixedVec2 { x: 5000, y: 6000 });
        assert_eq!(color, water_color());
    }
    for i in 0..sim.particles.len() {
        let particle = sim.particles.get(i);
        assert_eq!(particle.particle_type, CellType::Water);
        assert!(particle.velocity.x.abs() <= 2560);
        assert!(particle.velocity.y.abs() <= 2560);
    }
}

fn paint_mixed_block(sim: &mut PixelSimulation) {
    for x in 80..96 {
        for y in 100..108 {
            let material = if (x + y) % 3 == 0 { CellType::Water } else { CellType::Sand };
            let color = if (x + y) % 3 == 0 { water_color() } else { sand_color() };
            sim.paint_cell(WorldCellPosition { x, y }, material, color);
        }
    }
}

/// Conservation: over many ticks of mixed sand and water with no
/// particles in flight, the number of settled cells never changes.
#[test]
fn cell_count_is_conserved_across_ticks() {
    let mut sim = empty_sim();
    paint_mixed_block(&mut sim);
    let before = sim.count_cells();
    assert_eq!(before, 16 * 8);
    for _ in 0..10 {
        sim.advance_tick();
        assert_eq!(sim.count_cells(), before);
    }
}

/// Determinism: two simulations given identical paint requests produce
/// identical grids and identical change records tick after tick.
#[test]
fn identical_states_evolve_identically() {
    let mut first = empty_sim();
    let mut second = empty_sim();
    paint_mixed_block(&mut first);
    paint_mixed_block(&mut second);
    let _ = first.drain_changes();
    let _ = second.drain_changes();
    for _ in 0..3 {
        first.advance_tick();
        second.advance_tick();
        for x in 70..106 {
            for y in 90..192 {
                assert_eq!(
                    first.chunks.cell_at_world(WorldCellPosition { x, y }),
                    second.chunks.cell_at_world(WorldCellPosition { x, y })
                );
            }
        }
        let changes_a = first.drain_changes();
        let changes_b = second.drain_changes();
        assert_eq!(changes_a.len(), changes_b.len());
        for i in 0..changes_a.len() {
            assert_eq!(changes_a.chunk_position_at(i), changes_b.chunk_position_at(i));
            assert_eq!(changes_a.cell_changes_at(i), changes_b.cell_changes_at(i));
        }
    }
}

/// A particle in free fall stays live and is reported for overlay
/// rendering until it lands.
#[test]
fn falling_particle_stays_live_until_it_lands() {
    let mut sim = empty_sim();
    sim.spawn_particles(
        FixedVec2 { x: 50 * 256, y: 0 },
        CellType::Sand,
        1,
        0,
        sand_color(),
    );
    sim.advance_tick();
    let live = sim.live_particles();
    assert_eq!(live.len(), 1);
    assert!(live[0].0.y > 0);
    for _ in 0..400 {
        sim.advance_tick();
    }
    assert_eq!(sim.live_particles().len(), 0);
    assert_eq!(sim.count_cells(), 1);
    assert_eq!(cell_type_at(&sim, 50, 191), Some(CellType::Sand));
}
