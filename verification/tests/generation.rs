use intergen::choices::{cycle_shape_kind, ShapeKind, SpawnAddMode, SpawnPlacementMode};
use intergen::generation_messages::{
    next_repeat_count, selected_child_shape_status_message, single_attachment_repeat_count_status_message,
    spawn_add_mode_status_message, spawn_frontier_rewind_status_message,
    spawn_placement_mode_status_message, spawn_summary_status_message,
};
use intergen::noise_hash::{exclusion_hash_bits, lfo_hash_bits, octave_seed};

#[test]
fn spawn_add_mode_status_message_mentions_fill_level() {
    let status = spawn_add_mode_status_message(SpawnAddMode::FillLevel);

    assert!(status.starts_with("Ctrl+Space add mode:"));
    assert!(status.contains("fill current level"));
}

#[test]
fn single_attachment_repeat_count_status_message_mentions_zero_locking_behavior() {
    let status = single_attachment_repeat_count_status_message(0);

    assert!(status.contains("never advance automatically"));
}

#[test]
fn spawn_frontier_rewind_status_message_mentions_root() {
    assert!(spawn_frontier_rewind_status_message().contains("root"));
}

#[test]
fn add_modes_cycle_between_single_and_fill_level() {
    assert_eq!(SpawnAddMode::Single.next(), SpawnAddMode::FillLevel);
    assert_eq!(SpawnAddMode::FillLevel.next(), SpawnAddMode::Single);
}

#[test]
fn generation_status_messages_name_their_setting() {
    assert_eq!(
        single_attachment_repeat_count_status_message(1),
        "Single-spawn attachment capacity: 1 child"
    );
    assert_eq!(
        single_attachment_repeat_count_status_message(12),
        "Single-spawn attachment capacity: 12 children"
    );
    assert_eq!(
        spawn_placement_mode_status_message(SpawnPlacementMode::Edge),
        "Spawn placement mode: edges"
    );
    assert_eq!(
        selected_child_shape_status_message(ShapeKind::Octahedron),
        "Selected child shape: Octahedron"
    );
    assert_eq!(
        spawn_summary_status_message(1, ShapeKind::Cube, 2, 1, SpawnAddMode::Single),
        "Spawned Cube at level 2 from parent level 1"
    );
    assert_eq!(
        spawn_summary_status_message(4, ShapeKind::Tetrahedron, 1, 0, SpawnAddMode::FillLevel),
        "Spawned 4 Tetrahedron objects at level 1 from parent level 0 (fill current level)"
    );
}

#[test]
fn repeat_count_steps_saturate_and_increase_wins() {
    assert_eq!(next_repeat_count(3, true, false), Some(2));
    assert_eq!(next_repeat_count(3, false, true), Some(4));
    assert_eq!(next_repeat_count(3, true, true), Some(4));
    assert_eq!(next_repeat_count(0, true, false), None);
    assert_eq!(next_repeat_count(usize::MAX, false, true), None);
    assert_eq!(next_repeat_count(5, false, false), None);
}

#[test]
fn shape_kinds_cycle_both_ways() {
    assert_eq!(cycle_shape_kind(ShapeKind::Dodecahedron, 1), ShapeKind::Cube);
    assert_eq!(cycle_shape_kind(ShapeKind::Cube, -1), ShapeKind::Dodecahedron);
    assert_eq!(SpawnPlacementMode::Face.next(), SpawnPlacementMode::Vertex);
}

#[test]
fn noise_hashes_match_their_definitions() {
    assert_eq!(lfo_hash_bits(0, 17), 425_050_546);
    assert_eq!(lfo_hash_bits(-3, 5), 2_521_670_080);
    assert_eq!(lfo_hash_bits(1, 17), 885_559_415);
    assert_eq!(octave_seed(23, 3), 3_668_340_034);
    assert_eq!(octave_seed(u32::MAX, 1), 2_654_435_768);
    assert_eq!(exclusion_hash_bits(2, SpawnPlacementMode::Edge, 5), 10_609_341_316_168_012_947);
    assert_eq!(exclusion_hash_bits(0, SpawnPlacementMode::Vertex, 0), 16_507_096_966_833_969_069);
}

#[test]
fn cycling_back_by_any_step_returns_the_start() {
    for direction in -9isize..=9 {
        for start in [ShapeKind::Cube, ShapeKind::Tetrahedron, ShapeKind::Octahedron, ShapeKind::Dodecahedron] {
            let moved = cycle_shape_kind(start, direction);
            assert_eq!(cycle_shape_kind(moved, -direction), start);
        }
    }
    assert_eq!(cycle_shape_kind(ShapeKind::Octahedron, 4), ShapeKind::Octahedron);
    assert_eq!(cycle_shape_kind(ShapeKind::Cube, -1), ShapeKind::Dodecahedron);
    assert_eq!(cycle_shape_kind(ShapeKind::Tetrahedron, 6), ShapeKind::Dodecahedron);
}
