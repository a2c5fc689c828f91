use intergen::choices::SpawnPlacementMode;
use intergen::spawn_order::{spawn_candidates, AttachmentOccupancy, SpawnAttachment, SpawnLevelConstraint};

fn cube() -> AttachmentOccupancy {
    AttachmentOccupancy::new(8, 12, 6)
}

#[test]
fn root_level_is_exhausted_before_level_one_is_used() {
    let mut root = cube();
    for index in 0..6 {
        root.mark_occupied(SpawnAttachment { mode: SpawnPlacementMode::Vertex, index });
    }
    let levels = vec![0, 1];
    let occupancy = vec![root, cube()];

    let order = spawn_candidates(&levels, &occupancy, SpawnPlacementMode::Vertex, SpawnLevelConstraint::Any);

    assert_eq!(order.len(), 2 + 8);
    assert_eq!(order[0], (0, 6));
    assert_eq!(order[1], (0, 7));
    assert_eq!(order[2], (1, 0));
    assert!(order.windows(2).all(|pair| levels[pair[0].0] <= levels[pair[1].0]));
}

#[test]
fn switching_spawn_modes_uses_separate_attachment_occupancy() {
    let mut root = cube();
    for index in 0..8 {
        root.mark_occupied(SpawnAttachment { mode: SpawnPlacementMode::Vertex, index });
    }
    let occupancy = vec![root];
    let levels = vec![0];

    assert!(spawn_candidates(&levels, &occupancy, SpawnPlacementMode::Vertex, SpawnLevelConstraint::Any).is_empty());
    let edges = spawn_candidates(&levels, &occupancy, SpawnPlacementMode::Edge, SpawnLevelConstraint::Any);
    assert_eq!(edges.len(), 12);
    assert!(!occupancy[0].is_occupied(SpawnAttachment { mode: SpawnPlacementMode::Face, index: 5 }));
    assert!(occupancy[0].is_occupied(SpawnAttachment { mode: SpawnPlacementMode::Vertex, index: 5 }));
    assert_eq!(occupancy[0].attachment_count(SpawnPlacementMode::Face), 6);
}

#[test]
fn exact_levels_use_parents_one_level_up() {
    let levels = vec![0, 1, 1, 2];
    let occupancy = vec![cube(), AttachmentOccupancy::new(4, 6, 4), cube(), cube()];

    let order = spawn_candidates(&levels, &occupancy, SpawnPlacementMode::Face, SpawnLevelConstraint::Exact(2));
    assert_eq!(order.len(), 4 + 6);
    assert!(order.iter().all(|(parent, _)| levels[*parent] == 1));
    assert_eq!(order[4], (2, 0));

    assert!(spawn_candidates(&levels, &occupancy, SpawnPlacementMode::Face, SpawnLevelConstraint::Exact(0)).is_empty());
    assert!(spawn_candidates(&levels, &occupancy, SpawnPlacementMode::Face, SpawnLevelConstraint::Exact(4)).is_empty());
    assert_eq!(
        spawn_candidates(&levels, &occupancy, SpawnPlacementMode::Face, SpawnLevelConstraint::Exact(3)).len(),
        6
    );
}
