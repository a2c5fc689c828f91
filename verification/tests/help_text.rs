use intergen::help_text::{
    append_overlay_lines, fx_help, overlay_controls_text, overlay_help_entries, preset_help,
    scene_help, startup_controls_message, startup_fx_message, startup_message, top_level_help,
};

#[test]
fn startup_messages_list_the_fragments_of_their_groups() {
    let controls = startup_controls_message();
    assert!(controls.starts_with("Controls: F1 cycles help views, "));
    let expected: Vec<&str> = top_level_help()
        .iter()
        .chain(scene_help().iter())
        .map(|entry| entry.startup)
        .collect();
    assert_eq!(controls, format!("Controls: {}", expected.join(", ")));

    let fx = startup_fx_message();
    let expected: Vec<&str> = fx_help().iter().map(|entry| entry.startup).collect();
    assert_eq!(fx, format!("F2 page: {}", expected.join(", ")));
}

#[test]
fn startup_message_skips_empty_groups() {
    let top = top_level_help();
    let groups: [&[intergen::help_text::HelpEntry]; 3] = [&[], top.as_slice(), &[]];
    let message = startup_message("Keys", &groups);
    let expected: Vec<&str> = top.iter().map(|entry| entry.startup).collect();
    assert_eq!(message, format!("Keys: {}", expected.join(", ")));
    assert_eq!(startup_message("None", &[]), "None: ");
}

#[test]
fn overlay_lists_every_entry_then_the_status_line() {
    let entries = overlay_help_entries();
    assert_eq!(
        entries.len(),
        top_level_help().len() + fx_help().len() + preset_help().len() + scene_help().len()
    );
    let text = overlay_controls_text("font: ok");
    let mut expected: Vec<String> = entries.iter().map(|entry| entry.overlay.to_string()).collect();
    expected.push(String::new());
    expected.push("font: ok".to_string());
    assert_eq!(text, expected.join("\n"));

    let mut lines = vec!["first".to_string()];
    append_overlay_lines(&mut lines, &preset_help());
    assert_eq!(lines.len(), 1 + preset_help().len());
    assert_eq!(lines[1], preset_help()[0].overlay);
}

#[test]
fn overlay_text_has_forty_three_lines() {
    let text = overlay_controls_text("font: default");
    let lines: Vec<&str> = text.split('\n').collect();
    assert_eq!(lines.len(), 43);
    assert_eq!(lines[0], "F1: Cycle help views");
    assert_eq!(lines[40], "T: Reset child twist angle");
    assert_eq!(lines[41], "");
    assert_eq!(lines[42], "font: default");
    assert!(overlay_help_entries().iter().all(|entry| !entry.overlay.contains('\n')));
}
