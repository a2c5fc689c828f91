use intergen::control_page::{
    ControlPage, ControlPageInputMask, ControlPageState, FunctionKeys, HelpOverlayChange,
    KeyBinding, KeyBindingPattern, KeyCode, KeyModifiers, ModifierRequirement,
};
use intergen::edit_mode::EffectTunerPageMode;
use intergen::presets::{PresetBrowserState, PresetCommand};
use intergen::tuner_navigation::EffectTunerNavigation;

fn binding(key_code: KeyCode) -> KeyBinding {
    KeyBinding {
        key_code,
        modifiers: KeyModifiers::default(),
    }
}

fn shifted_binding(key_code: KeyCode) -> KeyBinding {
    KeyBinding {
        key_code,
        modifiers: KeyModifiers {
            shift: true,
            ..KeyModifiers::default()
        },
    }
}

fn press(escape: bool, f1: bool, f2: bool, f3: bool) -> FunctionKeys {
    FunctionKeys { escape, f1, f2, f3 }
}

#[test]
fn opening_a_page_replaces_the_previous_page() {
    let mut state = ControlPageState::default();

    assert_eq!(state.open_page(ControlPage::EffectTuner), None);
    assert!(state.is_active(ControlPage::EffectTuner));

    assert_eq!(
        state.open_page(ControlPage::ScenePresets),
        Some(ControlPage::EffectTuner)
    );
    assert!(state.is_active(ControlPage::ScenePresets));
}

#[test]
fn active_page_is_the_focused_page() {
    let mut state = ControlPageState::default();

    assert_eq!(state.active_page(), None);
    assert_eq!(state.focused_page(), None);

    state.open_page(ControlPage::EffectTuner);
    assert_eq!(state.active_page(), Some(ControlPage::EffectTuner));
    assert!(state.page_has_focus(ControlPage::EffectTuner));

    state.open_page(ControlPage::ScenePresets);
    assert_eq!(state.focused_page(), Some(ControlPage::ScenePresets));
    assert!(state.page_has_focus(ControlPage::ScenePresets));
}

#[test]
fn effect_tuner_mask_only_captures_its_own_bindings() {
    let mask = ControlPageInputMask {
        active_page: Some(ControlPage::EffectTuner),
        preset_chooser_visible: false,
    };

    assert!(mask.captures_binding(binding(KeyCode::Space)));
    assert!(mask.captures_binding(binding(KeyCode::ArrowUp)));
    assert!(mask.captures_binding(binding(KeyCode::Digit1)));
    assert!(mask.captures_binding(shifted_binding(KeyCode::Digit1)));
    assert!(mask.captures_binding(binding(KeyCode::Comma)));
    assert!(mask.captures_binding(binding(KeyCode::Minus)));
    assert!(mask.captures_binding(shifted_binding(KeyCode::Equal)));
    assert!(mask.captures_binding(binding(KeyCode::NumpadAdd)));

    assert!(!mask.captures_binding(binding(KeyCode::KeyG)));
    assert!(!mask.captures_binding(binding(KeyCode::KeyW)));
    assert!(!mask.captures_binding(binding(KeyCode::Equal)));
}

#[test]
fn preset_page_mask_tracks_collision_chooser_bindings() {
    let preset_page_mask = ControlPageInputMask {
        active_page: Some(ControlPage::ScenePresets),
        preset_chooser_visible: false,
    };

    assert!(preset_page_mask.captures_binding(binding(KeyCode::KeyS)));
    assert!(preset_page_mask.captures_binding(binding(KeyCode::Digit4)));
    assert!(!preset_page_mask.captures_binding(binding(KeyCode::ArrowUp)));
    assert!(!preset_page_mask.captures_binding(binding(KeyCode::KeyW)));

    let chooser_mask = ControlPageInputMask {
        preset_chooser_visible: true,
        ..preset_page_mask
    };

    assert!(chooser_mask.captures_binding(binding(KeyCode::ArrowUp)));
    assert!(chooser_mask.captures_binding(binding(KeyCode::ArrowDown)));
    assert!(chooser_mask.captures_binding(binding(KeyCode::Enter)));
}

#[test]
fn help_shortcut_closes_effect_tuner_before_showing_help() {
    let mut control_page = ControlPageState::default();
    let mut tuner = EffectTunerNavigation::new();
    let mut presets = PresetBrowserState::default();
    control_page.open_page(ControlPage::EffectTuner);
    tuner.open_page();

    let reaction =
        control_page.handle_function_keys(press(false, true, false, false), false, &mut tuner, &mut presets);

    assert_eq!(control_page.active_page(), None);
    assert_eq!(reaction.help, HelpOverlayChange::Cycle);
    assert_eq!(reaction.message, Some("F2 control page closed."));
    assert!(!tuner.is_pinned());
}

#[test]
fn h_key_does_not_open_help_overlay() {
    let mut control_page = ControlPageState::default();
    let mut tuner = EffectTunerNavigation::new();
    let mut presets = PresetBrowserState::default();

    let reaction = control_page.handle_function_keys(FunctionKeys::default(), false, &mut tuner, &mut presets);

    assert_eq!(reaction.help, HelpOverlayChange::Keep);
    assert_eq!(reaction.message, None);
    assert_eq!(control_page.active_page(), None);
}

#[test]
fn effect_tuner_shortcut_hides_help_overlay() {
    let mut control_page = ControlPageState::default();
    let mut tuner = EffectTunerNavigation::new();
    let mut presets = PresetBrowserState::default();

    let reaction =
        control_page.handle_function_keys(press(false, false, true, false), true, &mut tuner, &mut presets);

    assert_eq!(reaction.help, HelpOverlayChange::Hide);
    assert_eq!(control_page.active_page(), Some(ControlPage::EffectTuner));
    assert!(tuner.is_pinned());
    assert_eq!(reaction.message, Some("F2 control page pinned open."));
}

#[test]
fn escape_closes_help_overlay_when_no_control_page_is_active() {
    let mut control_page = ControlPageState::default();
    let mut tuner = EffectTunerNavigation::new();
    let mut presets = PresetBrowserState::default();

    let reaction =
        control_page.handle_function_keys(press(true, false, false, false), true, &mut tuner, &mut presets);

    assert_eq!(reaction.help, HelpOverlayChange::Hide);
    assert_eq!(reaction.message, Some("F1 help page closed."));
    assert_eq!(control_page.active_page(), None);
}

#[test]
fn f2_cycles_compact_list_and_closed() {
    let mut control_page = ControlPageState::default();
    let mut tuner = EffectTunerNavigation::new();
    let mut presets = PresetBrowserState::default();
    let f2 = press(false, false, true, false);

    control_page.handle_function_keys(f2, false, &mut tuner, &mut presets);
    assert_eq!(tuner.page_mode(), EffectTunerPageMode::Compact);

    let reaction = control_page.handle_function_keys(f2, false, &mut tuner, &mut presets);
    assert_eq!(tuner.page_mode(), EffectTunerPageMode::List);
    assert_eq!(reaction.message, Some("F2 parameter list page pinned open."));

    let reaction = control_page.handle_function_keys(f2, false, &mut tuner, &mut presets);
    assert_eq!(control_page.active_page(), None);
    assert_eq!(tuner.page_mode(), EffectTunerPageMode::Compact);
    assert!(!tuner.is_pinned());
    assert_eq!(reaction.message, Some("F2 control page closed."));
}

#[test]
fn f3_toggles_the_preset_page() {
    let mut control_page = ControlPageState::default();
    let mut tuner = EffectTunerNavigation::new();
    let mut presets = PresetBrowserState::default();
    let f3 = press(false, false, false, true);
    control_page.open_page(ControlPage::EffectTuner);
    tuner.open_page();

    let reaction = control_page.handle_function_keys(f3, false, &mut tuner, &mut presets);
    assert!(reaction.open_preset_page);
    assert_eq!(control_page.active_page(), Some(ControlPage::EffectTuner));

    let message = control_page.finish_opening_preset_page(&mut tuner, &mut presets);
    assert_eq!(message, "Scene preset mode open. Type two digits to recall a slot.");
    assert_eq!(control_page.active_page(), Some(ControlPage::ScenePresets));
    assert!(!tuner.is_pinned());

    presets.arm_save();
    let reaction = control_page.handle_function_keys(f3, false, &mut tuner, &mut presets);
    assert!(!reaction.open_preset_page);
    assert_eq!(reaction.message, Some("Scene preset page closed."));
    assert_eq!(control_page.active_page(), None);
    assert_eq!(presets.command, PresetCommand::Load);
}

#[test]
fn escape_closes_the_open_page_before_the_help_overlay() {
    let mut control_page = ControlPageState::default();
    let mut tuner = EffectTunerNavigation::new();
    let mut presets = PresetBrowserState::default();
    control_page.open_page(ControlPage::ScenePresets);

    let reaction =
        control_page.handle_function_keys(press(true, false, false, false), true, &mut tuner, &mut presets);

    assert_eq!(reaction.help, HelpOverlayChange::Keep);
    assert_eq!(reaction.message, Some("Scene preset page closed."));
    assert_eq!(control_page.active_page(), None);
}

#[test]
fn no_page_no_capture_and_modifier_requirements() {
    let mask = ControlPageInputMask::default();
    assert!(!mask.captures_binding(binding(KeyCode::Space)));

    let pattern = KeyBindingPattern::unmodified(KeyCode::Period);
    assert!(pattern.matches(binding(KeyCode::Period)));
    assert!(!pattern.matches(shifted_binding(KeyCode::Period)));
    assert!(ModifierRequirement::Required.matches(true));
    assert!(!ModifierRequirement::Forbidden.matches(true));
    assert_eq!(ControlPage::EffectTuner.closed_message(), "F2 control page closed.");

    let chooser_open = ControlPageInputMask {
        active_page: Some(ControlPage::EffectTuner),
        preset_chooser_visible: true,
    };
    assert!(!chooser_open.captures_binding(binding(KeyCode::KeyS)));
    let ctrl_digit = KeyBinding {
        key_code: KeyCode::Digit3,
        modifiers: KeyModifiers {
            control: true,
            ..KeyModifiers::default()
        },
    };
    assert!(!chooser_open.captures_binding(ctrl_digit));
}
