use falling_sand::cell::CellColor;
use falling_sand::changes::{CellChange, ChunkChanges};
use falling_sand::coords::{
    chunk_local_to_world, world_to_chunk_local, ChunkCellPosition, ChunkIndex, ChunkPosition,
    ChunksDimensions, WorldCellPosition,
};

#[test]
fn world_chunk_local_round_trip() {
    let samples = [
        (0, 0),
        (63, 63),
        (64, 63),
        (63, 64),
        (64, 64),
        (100, 5),
        (191, 191),
        (0, 191),
        (191, 0),
        (127, 128),
    ];
    for (x, y) in samples {
        let world = WorldCellPosition { x, y };
        let (chunk, local) = world_to_chunk_local(world);
        assert!(chunk.x < 3 && chunk.y < 3);
        assert!(local.x < 64 && local.y < 64);
        let back = chunk_local_to_world(chunk, local);
        assert_eq!(back, world);
    }
}

#[test]
fn chunk_local_world_values() {
    let world = WorldCellPosition { x: 130, y: 70 };
    let (chunk, local) = world_to_chunk_local(world);
    assert_eq!(chunk, ChunkPosition { x: 2, y: 1 });
    assert_eq!(local, ChunkCellPosition { x: 2, y: 6 });
}

#[test]
fn chunk_index_round_trip() {
    for x in 0..3u32 {
        for y in 0..3u32 {
            let position = ChunkPosition { x, y };
            let index = ChunkIndex::from_chunk_position(position);
            assert_eq!(index.0, (x + 3 * y) as usize);
            assert_eq!(index.to_chunk_position(), position);
        }
    }
}

#[test]
fn cell_index_formula() {
    assert_eq!(ChunkCellPosition { x: 0, y: 0 }.to_cell_index(), 0);
    assert_eq!(ChunkCellPosition { x: 5, y: 3 }.to_cell_index(), 5 + 3 * 64);
    assert_eq!(ChunkCellPosition { x: 63, y: 63 }.to_cell_index(), 4095);
}

#[test]
fn dimensions_width_height() {
    let dimensions = ChunksDimensions { left: -1, right: 2, top: 4, bottom: -3 };
    assert_eq!(dimensions.width(), 3);
    assert_eq!(dimensions.height(), 7);
}

#[test]
fn in_bounds_test() {
    assert!(WorldCellPosition { x: 0, y: 0 }.in_bounds());
    assert!(WorldCellPosition { x: 191, y: 191 }.in_bounds());
    assert!(!WorldCellPosition { x: -1, y: 0 }.in_bounds());
    assert!(!WorldCellPosition { x: 0, y: 192 }.in_bounds());
}

fn color(r: u8) -> CellColor {
    CellColor { r, g: 10, b: 20, a: 255 }
}

#[test]
fn tracker_appends_to_existing_chunk_record() {
    let mut changes = ChunkChanges::new();
    let chunk = ChunkPosition { x: 1, y: 2 };
    let first = CellChange { cell_position: ChunkCellPosition { x: 3, y: 4 }, new_color: color(1) };
    let second = CellChange { cell_position: ChunkCellPosition { x: 5, y: 6 }, new_color: color(2) };
    changes.add_cell_change(chunk, first);
    changes.add_cell_change(chunk, second);
    assert_eq!(changes.len(), 1);
    assert_eq!(changes.chunk_position_at(0), chunk);
    let recorded = changes.cell_changes_at(0);
    assert_eq!(recorded.len(), 2);
    assert_eq!(recorded[0], first);
    assert_eq!(recorded[1], second);
}

#[test]
fn tracker_keeps_one_record_per_chunk() {
    let mut changes = ChunkChanges::new();
    let chunk_a = ChunkPosition { x: 0, y: 0 };
    let chunk_b = ChunkPosition { x: 2, y: 1 };
    let change = CellChange { cell_position: ChunkCellPosition { x: 0, y: 0 }, new_color: color(3) };
    changes.add_cell_change(chunk_a, change);
    changes.add_cell_change(chunk_b, change);
    changes.add_cell_change(chunk_a, change);
    assert_eq!(changes.len(), 2);
    assert_eq!(changes.chunk_position_at(0), chunk_a);
    assert_eq!(changes.chunk_position_at(1), chunk_b);
    assert_eq!(changes.cell_changes_at(0).len(), 2);
    assert_eq!(changes.cell_changes_at(1).len(), 1);
}

#[test]
fn tracker_batch_appends_in_order() {
    let mut changes = ChunkChanges::new();
    let chunk = ChunkPosition { x: 0, y: 1 };
    let batch = [
        CellChange { cell_position: ChunkCellPosition { x: 1, y: 1 }, new_color: color(4) },
        CellChange { cell_position: ChunkCellPosition { x: 2, y: 2 }, new_color: color(5) },
        CellChange { cell_position: ChunkCellPosition { x: 3, y: 3 }, new_color: color(6) },
    ];
    changes.add_cell_changes(chunk, &batch);
    changes.add_cell_changes(chunk, &batch[..1]);
    assert_eq!(changes.len(), 1);
    let recorded = changes.cell_changes_at(0);
    assert_eq!(recorded.len(), 4);
    assert_eq!(recorded[0], batch[0]);
    assert_eq!(recorded[1], batch[1]);
    assert_eq!(recorded[2], batch[2]);
    assert_eq!(recorded[3], batch[0]);
}

#[test]
fn tracker_clear_empties() {
    let mut changes = ChunkChanges::new();
    let chunk = ChunkPosition { x: 1, y: 1 };
    let change = CellChange { cell_position: ChunkCellPosition { x: 9, y: 9 }, new_color: color(7) };
    changes.add_cell_change(chunk, change);
    changes.clear();
    assert_eq!(changes.len(), 0);
}
