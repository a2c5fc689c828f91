use intergen::preset_storage::{
    current_unix_time, preset_directory, take_cached_record, unique_preset_path, unix_ms_from,
    PRESET_FORMAT_VERSION,
};
use intergen::presets::{
    sort_preset_records, CollisionResolutionState, FileTime, PresetBrowserState, PresetCommand,
    PresetFileHeader, PresetFileStamp, PresetIndex, PresetRecord, SlotOutcome,
};
use intergen::timestamp::format_utc_timestamp;

fn record(path: &str, saved_at_unix_ms: u64, assignment: Option<PresetIndex>) -> PresetRecord {
    PresetRecord {
        path: path.to_string(),
        stamp: PresetFileStamp {
            len: saved_at_unix_ms,
            modified: None,
        },
        file: PresetFileHeader {
            format_version: 1,
            id: path.to_string(),
            saved_at_unix_ms,
            summary: path.to_string(),
            assignment,
        },
    }
}

fn slot(bank: u8, slot: u8) -> PresetIndex {
    PresetIndex { bank, slot }
}

#[test]
fn bank_occupancy_marks_collisions() {
    let mut state = PresetBrowserState::default();
    state.records = vec![
        record("one.toml", 1, Some(slot(2, 3))),
        record("two.toml", 2, Some(slot(2, 3))),
    ];

    assert_eq!(state.bank_occupancy(2).chars().nth(3), Some('!'));
}

#[test]
fn upsert_record_replaces_matching_path_without_duplication() {
    let mut state = PresetBrowserState::default();
    state.records = vec![record("one.toml", 1, None)];

    state.upsert_record(record("one.toml", 2, None));

    assert_eq!(state.records.len(), 1);
    assert_eq!(state.records[0].file.saved_at_unix_ms, 2);
}

#[test]
fn upsert_record_keeps_newest_record_first() {
    let mut state = PresetBrowserState::default();
    state.records = vec![record("old.toml", 1, None)];

    state.upsert_record(record("new.toml", 2, None));

    assert_eq!(state.records[0].path, "new.toml");
    assert_eq!(state.records[1].path, "old.toml");
}

#[test]
fn strip_segments_highlight_save_and_selected_target() {
    let mut state = PresetBrowserState::default();
    state.arm_save();
    state.first_digit = Some(4);

    let segments = state.strip_segments();

    assert_eq!(segments.command, "save");
    assert_eq!(segments.target, " 4_");
    assert!(segments.emphasize_command);
    assert!(segments.emphasize_target);
}

#[test]
fn strip_segments_highlight_loaded_bank_and_slot() {
    let mut state = PresetBrowserState::default();
    state.records = vec![record("loaded.toml", 1, Some(slot(4, 2)))];
    state.highlight_index(slot(4, 2));

    let segments = state.strip_segments();
    let bank = segments
        .banks
        .iter()
        .find(|bank| bank.bank == 4)
        .expect("bank 4 should be present");

    assert!(bank.emphasize_bank);
    assert!(bank.emphasize_selected_slot);
    assert_eq!(bank.selected_slot, "2");
}

#[test]
fn preset_filename_timestamp_matches_screenshot_style() {
    let path = unique_preset_path("scene-presets", 1_741_018_296, 45, "example", &Vec::new());

    assert_eq!(
        path,
        "scene-presets/scene-preset-2025-03-03_16-11-36-045-0000-example.toml"
    );
}

#[test]
fn utc_timestamp_text_of_known_instants() {
    assert_eq!(format_utc_timestamp(0), "1970-01-01_00-00-00");
    assert_eq!(format_utc_timestamp(1_741_018_296), "2025-03-03_16-11-36");
    assert_eq!(format_utc_timestamp(951_782_400), "2000-02-29_00-00-00");
    assert_eq!(format_utc_timestamp(4_107_542_399), "2100-02-28_23-59-59");
}

#[test]
fn unique_preset_path_skips_taken_names() {
    let taken = vec![
        "scene-presets/scene-preset-2025-03-03_16-11-36-045-0000-example.toml".to_string(),
        "scene-presets/scene-preset-2025-03-03_16-11-36-045-0001-example.toml".to_string(),
        "scene-presets/other.toml".to_string(),
    ];

    let path = unique_preset_path("scene-presets", 1_741_018_296, 45, "example", &taken);

    assert_eq!(
        path,
        "scene-presets/scene-preset-2025-03-03_16-11-36-045-0002-example.toml"
    );
}

#[test]
fn slot_codes_join_bank_and_slot_digits() {
    assert_eq!(slot(4, 2).code(), "42");
    assert_eq!(slot(0, 0).code(), "00");
    assert_eq!(PresetCommand::Free.label(), "free");
}

#[test]
fn two_digits_complete_a_slot_code() {
    let mut state = PresetBrowserState::default();

    assert_eq!(state.push_digit(7), None);
    assert_eq!(state.status_message, "7_");
    assert_eq!(state.first_digit, Some(7));
    assert_eq!(state.push_digit(3), Some(slot(7, 3)));
    assert_eq!(state.first_digit, None);
}

#[test]
fn records_for_index_lists_newest_first_keeping_ties_in_order() {
    let mut state = PresetBrowserState::default();
    state.records = vec![
        record("a.toml", 5, Some(slot(1, 1))),
        record("b.toml", 9, Some(slot(1, 1))),
        record("c.toml", 9, None),
        record("d.toml", 5, Some(slot(1, 1))),
    ];

    let found = state.records_for_index(slot(1, 1));
    let paths: Vec<&str> = found.iter().map(|r| r.path.as_str()).collect();

    assert_eq!(paths, vec!["b.toml", "a.toml", "d.toml"]);
}

#[test]
fn sorting_is_stable_for_equal_save_times() {
    let mut records = vec![
        record("x.toml", 3, None),
        record("y.toml", 7, None),
        record("z.toml", 3, None),
        record("w.toml", 7, None),
    ];

    sort_preset_records(&mut records);
    let paths: Vec<&str> = records.iter().map(|r| r.path.as_str()).collect();

    assert_eq!(paths, vec!["y.toml", "w.toml", "x.toml", "z.toml"]);
}

#[test]
fn loading_an_empty_slot_reports_it() {
    let mut state = PresetBrowserState::default();
    state.first_digit = Some(5);

    let outcome = state.begin_slot_command(slot(5, 5));

    assert!(matches!(outcome, SlotOutcome::Finished(None)));
    assert_eq!(state.status_message, "slot 55 is empty");
    assert_eq!(state.first_digit, None);
}

#[test]
fn loading_a_slot_with_one_preset_asks_to_apply_it() {
    let mut state = PresetBrowserState::default();
    state.records = vec![record("a.toml", 5, Some(slot(1, 2))), record("b.toml", 6, None)];

    match state.begin_slot_command(slot(1, 2)) {
        SlotOutcome::Apply(found) => assert_eq!(found.path, "a.toml"),
        _ => panic!("expected the slot's preset"),
    }
    let printed = state.finish_load(slot(1, 2), "a.toml");

    assert_eq!(printed.as_deref(), Some("Loaded scene preset 12: a.toml"));
    assert_eq!(state.highlighted_index, Some(slot(1, 2)));
}

#[test]
fn loading_a_shared_slot_opens_the_chooser() {
    let mut state = PresetBrowserState::default();
    state.records = vec![
        record("a.toml", 5, Some(slot(3, 3))),
        record("b.toml", 8, Some(slot(3, 3))),
    ];

    let outcome = state.begin_slot_command(slot(3, 3));

    match outcome {
        SlotOutcome::Finished(Some(message)) => assert_eq!(
            message,
            "Slot 33 has multiple assigned presets. Resolve the chooser."
        ),
        _ => panic!("expected a message"),
    }
    assert!(state.chooser_visible());
    assert_eq!(state.status_message, "resolve 33");
    assert_eq!(
        state.chooser_text().as_deref(),
        Some("Resolve slot 33\n> 8 b.toml\n  5 a.toml\nUp/Down choose  Enter keep  Esc close")
    );
}

#[test]
fn resolving_keeps_only_the_chosen_preset_in_the_slot() {
    let mut state = PresetBrowserState::default();
    state.records = vec![
        record("a.toml", 5, Some(slot(3, 3))),
        record("b.toml", 8, Some(slot(3, 3))),
        record("c.toml", 2, Some(slot(0, 1))),
    ];
    state.start_collision_resolution(slot(3, 3), true);
    state.chooser_select_next();
    state.chooser_select_next();

    let (chooser, updates) = state.take_resolution().expect("a valid selection");
    assert_eq!(chooser.selected, 1);
    state.upsert_records(updates);
    let printed = state.finish_resolution(&chooser);

    let assigned: Vec<&str> = state
        .records
        .iter()
        .filter(|r| r.file.assignment == Some(slot(3, 3)))
        .map(|r| r.path.as_str())
        .collect();
    assert_eq!(assigned, vec!["a.toml"]);
    assert_eq!(state.records.len(), 3);
    assert_eq!(printed.as_deref(), Some("Slot 33 now points to a.toml."));
    assert_eq!(state.highlighted_index, Some(slot(3, 3)));
    assert!(!state.chooser_visible());
}

#[test]
fn an_invalid_chooser_selection_is_reported() {
    let mut state = PresetBrowserState::default();
    state.chooser = Some(CollisionResolutionState {
        index: slot(1, 1),
        selected: 4,
        candidates: vec![record("a.toml", 1, Some(slot(1, 1)))],
        load_after_resolution: false,
    });

    assert!(state.take_resolution().is_none());
    assert_eq!(state.status_message, "chooser selection was invalid");
    assert!(!state.chooser_visible());
}

#[test]
fn freeing_a_slot_unassigns_all_its_presets() {
    let mut state = PresetBrowserState::default();
    state.arm_free();
    state.records = vec![
        record("a.toml", 5, Some(slot(6, 6))),
        record("b.toml", 8, Some(slot(6, 6))),
        record("c.toml", 2, Some(slot(6, 7))),
    ];

    let freed = match state.begin_slot_command(slot(6, 6)) {
        SlotOutcome::Free(freed) => freed,
        _ => panic!("expected records to free"),
    };
    assert_eq!(freed.len(), 2);
    assert!(freed.iter().all(|r| r.file.assignment.is_none()));
    let printed = state.finish_free(slot(6, 6), freed);

    assert_eq!(printed.as_deref(), Some("Freed scene preset slot 66."));
    assert_eq!(state.bank_occupancy(6), ".......7..");
    assert_eq!(state.records.len(), 3);
    assert_eq!(state.command, PresetCommand::Load);
}

#[test]
fn freeing_an_empty_slot_reports_it() {
    let mut state = PresetBrowserState::default();
    state.arm_free();

    assert!(matches!(
        state.begin_slot_command(slot(9, 9)),
        SlotOutcome::Finished(None)
    ));
    assert_eq!(state.status_message, "slot 99 is already empty");
}

#[test]
fn saving_into_an_occupied_slot_opens_the_chooser() {
    let mut state = PresetBrowserState::default();
    state.arm_save();
    state.records = vec![record("a.toml", 5, Some(slot(2, 2)))];
    assert!(matches!(state.begin_slot_command(slot(2, 2)), SlotOutcome::Save));

    let printed = state.finish_save(slot(2, 2), record("b.toml", 9, Some(slot(2, 2))));

    assert_eq!(
        printed.as_deref(),
        Some("Stored a new scene preset in slot 22. Resolve which preset stays assigned.")
    );
    assert!(state.chooser_visible());
    assert_eq!(state.records[0].path, "b.toml");
}

#[test]
fn saving_into_a_free_slot_reports_the_summary() {
    let mut state = PresetBrowserState::default();
    state.arm_save();

    let printed = state.finish_save(slot(2, 2), record("b.toml", 9, Some(slot(2, 2))));

    assert_eq!(printed.as_deref(), Some("Stored scene preset 22: b.toml"));
    assert_eq!(state.status_message, "Stored scene preset 22: b.toml");
    assert!(!state.chooser_visible());
}

#[test]
fn strip_shows_plain_banks_and_status() {
    let mut state = PresetBrowserState::default();
    state.records = vec![record("a.toml", 1, Some(slot(0, 9)))];
    state.status_message = "hello".to_string();

    let segments = state.strip_segments();

    assert_eq!(segments.command, "load");
    assert_eq!(segments.target, "");
    assert_eq!(segments.status, " | hello");
    assert_eq!(segments.banks.len(), 10);
    assert_eq!(segments.banks[0].prefix, "[.........9]");
    assert_eq!(segments.banks[0].label, "0");
    assert!(!segments.banks[0].emphasize_bank);
    assert!(!segments.emphasize_command);
}

#[test]
fn closing_the_page_forgets_the_typed_command() {
    let mut state = PresetBrowserState::default();
    state.arm_save();
    state.push_digit(1);
    state.close_page();

    assert_eq!(state.command, PresetCommand::Load);
    assert_eq!(state.first_digit, None);
    assert_eq!(state.status_message, "");
}

#[test]
fn cached_records_are_reused_by_path() {
    let mut cached = vec![
        record("a.toml", 1, None),
        record("b.toml", 2, None),
        record("a.toml", 3, None),
    ];

    let taken = take_cached_record(&mut cached, "a.toml").expect("a cached record");

    assert_eq!(taken.file.saved_at_unix_ms, 3);
    assert_eq!(cached.len(), 1);
    assert_eq!(cached[0].path, "b.toml");
    assert!(taken.is_unchanged(&PresetFileStamp { len: 3, modified: None }));
    assert!(!taken.is_unchanged(&PresetFileStamp {
        len: 3,
        modified: Some(FileTime { secs: 1, nanos: 0 })
    }));
    assert!(take_cached_record(&mut cached, "missing.toml").is_none());
}

#[test]
fn refresh_keeps_records_newest_first() {
    let mut state = PresetBrowserState::default();
    state.records = vec![record("a.toml", 1, None)];

    let cached = state.begin_refresh();
    assert_eq!(cached.len(), 1);
    assert!(state.records.is_empty());
    state.finish_refresh(vec![record("x.toml", 1, None), record("y.toml", 4, None)]);

    assert_eq!(state.records[0].path, "y.toml");
}

#[test]
fn preset_headers_carry_the_save_time() {
    let header = PresetFileHeader::stamped(slot(1, 2), "scene".to_string(), 1234);

    assert_eq!(header.id, "preset-1234");
    assert_eq!(header.format_version, PRESET_FORMAT_VERSION);
    assert_eq!(header.assignment, Some(slot(1, 2)));

    let now = PresetFileHeader::new(slot(1, 2), "scene".to_string());
    assert_eq!(now.id, format!("preset-{}", now.saved_at_unix_ms));
}

#[test]
fn milliseconds_combine_seconds_and_fraction() {
    assert_eq!(unix_ms_from(1_741_018_296, 45), 1_741_018_296_045);
    assert_eq!(unix_ms_from(0, 999), 999);
    let (_, millis) = current_unix_time();
    assert!(millis < 1000);
    assert_eq!(preset_directory(), "scene-presets");
}
