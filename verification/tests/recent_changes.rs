use intergen::recent_changes::{RecentChangeSnapshotRow, RecentChangesState, MAX_RECENT_CHANGES};

const RECENT_CHANGE_TIMEOUT_SECS: f32 = 6.0;

fn snapshot(changes: &RecentChangesState<f32>, now_secs: f32) -> Vec<RecentChangeSnapshotRow> {
    let recent: Vec<bool> = changes
        .entries
        .iter()
        .map(|entry| now_secs - entry.changed_at <= RECENT_CHANGE_TIMEOUT_SECS)
        .collect();
    changes.snapshot(&recent)
}

#[test]
fn snapshot_keeps_latest_change_after_timeout() {
    let mut changes = RecentChangesState::default();
    changes.record("Child scale ratio".to_string(), "0.62".to_string(), 1.0);
    changes.record("Global object opacity".to_string(), "80%".to_string(), 2.0);

    let rows = snapshot(&changes, 20.0);

    assert_eq!(rows.len(), 1);
    assert_eq!(rows[0].label, "Global object opacity");
    assert_eq!(rows[0].value, "80%");
}

#[test]
fn snapshot_keeps_recent_changes_before_timeout() {
    let mut changes = RecentChangesState::default();
    changes.record("Child scale ratio".to_string(), "0.62".to_string(), 1.0);
    changes.record("Global object opacity".to_string(), "80%".to_string(), 2.0);

    let rows = snapshot(&changes, 3.0);

    assert_eq!(rows.len(), 2);
    assert_eq!(rows[0].label, "Global object opacity");
    assert_eq!(rows[1].label, "Child scale ratio");
}

#[test]
fn recording_the_same_label_updates_and_moves_it_first() {
    let mut changes = RecentChangesState::default();
    changes.record("Child scale ratio".to_string(), "0.62".to_string(), 1.0);
    changes.record("Global object opacity".to_string(), "80%".to_string(), 2.0);
    changes.record("Child scale ratio".to_string(), "0.67".to_string(), 3.0);

    let rows = snapshot(&changes, 3.0);

    assert_eq!(rows.len(), 2);
    assert_eq!(rows[0].label, "Child scale ratio");
    assert_eq!(rows[0].value, "0.67");
}

#[test]
fn status_messages_split_label_and_value_at_colon() {
    let mut changes = RecentChangesState::default();
    changes.record_status_message("Child scale ratio: 0.62".to_string(), 1.0);

    let rows = snapshot(&changes, 1.0);

    assert_eq!(rows[0].label, "Child scale ratio");
    assert_eq!(rows[0].value, "0.62");
}

#[test]
fn status_messages_drop_a_reset_prefix_and_keep_messages_without_colon() {
    let mut changes = RecentChangesState::default();
    changes.record_status_message("  Reset Bloom intensity :  0.50 ".to_string(), 1.0);
    changes.record_status_message("Single-spawn frontier rewound to the root".to_string(), 2.0);

    assert_eq!(changes.entries[1].label, "Bloom intensity");
    assert_eq!(changes.entries[1].value, "0.50");
    assert_eq!(changes.entries[0].label, "Single-spawn frontier rewound to the root");
    assert_eq!(changes.entries[0].value, "");
}

#[test]
fn blank_labels_are_ignored() {
    let mut changes: RecentChangesState<f32> = RecentChangesState::default();
    changes.record(" \t\u{3000}".to_string(), "x".to_string(), 1.0);
    changes.record_status_message(" : value".to_string(), 1.0);

    assert!(changes.entries.is_empty());
}

#[test]
fn only_the_most_recent_changes_are_kept() {
    let mut changes = RecentChangesState::default();
    for index in 0..40 {
        changes.record(format!("setting {index}"), "on".to_string(), index as f32);
    }

    assert_eq!(changes.entries.len(), MAX_RECENT_CHANGES);
    assert_eq!(changes.entries[0].label, "setting 39");
    assert_eq!(changes.entries[MAX_RECENT_CHANGES - 1].label, "setting 8");
}
