use voxel_world::atlas::AtlasBuilder;
use voxel_world::mesh::{new_block, Vec3i};
use voxel_world::world::{BlockInstance, Command, PointerButton, PointerEvent, World};

fn single_block_world(at: Vec3i) -> World {
    let mut b = AtlasBuilder::new();
    b.add("dirt".to_string()).unwrap();
    let atlas = b.build().unwrap();
    let mesh = new_block(0, 0, 0, 0, 0, 0).unwrap();
    let mut w = World::new(atlas, mesh, 7, 9);
    w.spawn_sheet(at, 1, 1);
    w
}

#[test]
fn primary_click_places_block_above() {
    let mut w = single_block_world(Vec3i { x: 3, y: -10, z: 4 });
    let cmd = w.on_pointer(0, PointerEvent::Click(PointerButton::Primary));
    assert_eq!(cmd, Command::Spawn(Vec3i { x: 3, y: -9, z: 4 }));
    assert_eq!(w.apply(cmd), Some(1));
    assert_eq!(w.live_count(), 2);
    let clicked = w.block(0).unwrap();
    let placed = w.block(1).unwrap();
    assert_eq!(placed.position, Vec3i { x: 3, y: -9, z: 4 });
    assert_eq!(placed.mesh, clicked.mesh);
    assert_eq!(placed.material, clicked.material);
    assert_eq!(placed.mesh, 7);
    assert_eq!(placed.material, 9);
}

#[test]
fn primary_click_at_lattice_top_places_nothing() {
    let w = single_block_world(Vec3i { x: 0, y: i32::MAX, z: 0 });
    assert_eq!(w.on_pointer(0, PointerEvent::Click(PointerButton::Primary)), Command::Nothing);
}

#[test]
fn secondary_click_removes_block() {
    let mut w = single_block_world(Vec3i { x: 3, y: -10, z: 4 });
    let cmd = w.on_pointer(0, PointerEvent::Click(PointerButton::Secondary));
    assert_eq!(cmd, Command::Despawn(0));
    assert_eq!(w.apply(cmd), None);
    assert_eq!(w.block(0), None);
    assert_eq!(w.live_count(), 0);
    assert_eq!(w.slot_count(), 1);
    for e in [
        PointerEvent::Over,
        PointerEvent::Out,
        PointerEvent::Click(PointerButton::Primary),
        PointerEvent::Click(PointerButton::Secondary),
    ] {
        assert_eq!(w.on_pointer(0, e), Command::Nothing);
    }
}

#[test]
fn other_button_does_nothing() {
    let w = single_block_world(Vec3i { x: 1, y: 2, z: 3 });
    assert_eq!(w.on_pointer(0, PointerEvent::Click(PointerButton::Other)), Command::Nothing);
}

#[test]
fn hover_highlights_and_clears() {
    let mut w = single_block_world(Vec3i { x: 1, y: 2, z: 3 });
    let over = w.on_pointer(0, PointerEvent::Over);
    assert_eq!(over, Command::SetHighlight { block: 0, on: true });
    w.apply(over);
    assert!(w.block(0).unwrap().highlighted);
    w.apply(w.on_pointer(0, PointerEvent::Over));
    assert!(w.block(0).unwrap().highlighted);
    w.apply(w.on_pointer(0, PointerEvent::Out));
    assert!(!w.block(0).unwrap().highlighted);
    w.apply(w.on_pointer(0, PointerEvent::Out));
    assert_eq!(
        w.block(0),
        Some(BlockInstance { position: Vec3i { x: 1, y: 2, z: 3 }, mesh: 7, material: 9, highlighted: false })
    );
}

#[test]
fn events_on_unknown_handles_do_nothing() {
    let mut w = single_block_world(Vec3i { x: 1, y: 2, z: 3 });
    assert_eq!(w.on_pointer(5, PointerEvent::Over), Command::Nothing);
    assert_eq!(w.apply(Command::Despawn(5)), None);
    assert_eq!(w.apply(Command::SetHighlight { block: 5, on: true }), None);
    assert_eq!(w.slot_count(), 1);
}

#[test]
fn sheet_fills_columns_in_order() {
    let mut w = single_block_world(Vec3i { x: 0, y: 0, z: 0 });
    w.spawn_sheet(Vec3i { x: -1, y: 5, z: 2 }, 2, 3);
    assert_eq!(w.slot_count(), 7);
    let expected = [(-1, 2), (-1, 3), (-1, 4), (0, 2), (0, 3), (0, 4)];
    for (n, (x, z)) in expected.iter().enumerate() {
        assert_eq!(w.block(n + 1).unwrap().position, Vec3i { x: *x, y: 5, z: *z });
    }
}
