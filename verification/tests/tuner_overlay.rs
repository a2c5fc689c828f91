use intergen::edit_mode::{EffectOverlayField, LfoShape};
use intergen::scene_catalog::EffectTunerSceneParameter;
use intergen::tuner_navigation::EffectTunerNavigation;
use intergen::tuner_overlay::{list_row_snapshot, overlay_numeric_text, overlay_snapshot};
use intergen::tuner_parameter::EffectTunerParameter;

fn scene_index(parameter: EffectTunerSceneParameter) -> usize {
    EffectTunerParameter::all()
        .iter()
        .position(|candidate| *candidate == EffectTunerParameter::Scene(parameter))
        .expect("scene parameter should be listed")
}

fn texts() -> (String, String, String, String) {
    ("1.000".to_string(), "1.250".to_string(), "0.000".to_string(), "0.250".to_string())
}

#[test]
fn overlay_snapshot_uses_compact_labels_and_active_field() {
    let mut effect_tuner = EffectTunerNavigation::new();
    effect_tuner.select_index(3);
    effect_tuner.step_edit_mode(-1);
    effect_tuner.open_page();
    let (value, live, amplitude, frequency) = texts();

    let snapshot = overlay_snapshot(&effect_tuner, true, false, LfoShape::Saw, value, live, amplitude, frequency);

    assert_eq!(snapshot.effect_label, "lens");
    assert_eq!(snapshot.parameter_label, "k2");
    assert_eq!(snapshot.active_field, EffectOverlayField::LfoShape);
    assert!(snapshot.pinned);
    assert_eq!(snapshot.effect_state_text, "ON");
    assert_eq!(snapshot.shape_text, "saw");
    assert_eq!(snapshot.lfo_state_text, "OFF");
}

#[test]
fn scene_parameter_overlay_shows_only_the_value() {
    let mut effect_tuner = EffectTunerNavigation::new();
    effect_tuner.step_edit_mode(-1);
    effect_tuner.select_index(scene_index(EffectTunerSceneParameter::ChildKind));
    let (value, live, amplitude, frequency) = texts();

    let snapshot = overlay_snapshot(&effect_tuner, true, true, LfoShape::Sine, value, live, amplitude, frequency);

    assert_eq!(snapshot.effect_label, "scene");
    assert_eq!(snapshot.effect_state_text, "VAL");
    assert!(!snapshot.supports_lfo);
    assert_eq!(snapshot.lfo_state_text, "--");
    assert_eq!(snapshot.amplitude_text, "--");
    assert_eq!(snapshot.frequency_text, "--");
    assert_eq!(snapshot.shape_text, "--");
    assert_eq!(snapshot.active_field, EffectOverlayField::Value);
}

#[test]
fn scene_numeric_overlay_exposes_lfo_fields() {
    let mut effect_tuner = EffectTunerNavigation::new();
    effect_tuner.step_edit_mode(-1);
    effect_tuner.select_index(scene_index(EffectTunerSceneParameter::GlobalOpacity));
    let (value, live, amplitude, frequency) = texts();

    let snapshot = overlay_snapshot(&effect_tuner, false, false, LfoShape::Sine, value, live, amplitude, frequency);

    assert!(snapshot.supports_lfo);
    assert_eq!(snapshot.lfo_state_text, "OFF");
    assert_eq!(snapshot.amplitude_text, "0.000");
    assert_eq!(snapshot.active_field, EffectOverlayField::LfoShape);
}

#[test]
fn typed_numbers_replace_the_active_field_only() {
    let mut effect_tuner = EffectTunerNavigation::new();
    assert!(effect_tuner.push_numeric_input('4'));
    assert!(effect_tuner.push_numeric_input('2'));
    let (value, live, amplitude, frequency) = texts();

    let snapshot = overlay_snapshot(&effect_tuner, true, true, LfoShape::Sine, value, live, amplitude, frequency);
    assert_eq!(snapshot.value_text, "42");
    assert_eq!(snapshot.amplitude_text, "0.000");
    assert_eq!(snapshot.live_value_text, "1.250");

    assert_eq!(overlay_numeric_text(&effect_tuner, EffectOverlayField::LfoFrequency, "x".to_string()), "x");

    let selected = effect_tuner.selected_parameter();
    let row = list_row_snapshot(&effect_tuner, selected, true, true, "1.0".to_string(), "1.1".to_string());
    assert!(row.selected);
    assert_eq!(row.value_text, "42");
    assert_eq!(row.active_field, Some(EffectOverlayField::Value));

    let other = EffectTunerParameter::all()[1];
    let row = list_row_snapshot(&effect_tuner, other, false, true, "1.0".to_string(), "1.1".to_string());
    assert!(!row.selected);
    assert_eq!(row.value_text, "1.0");
    assert_eq!(row.effect_state_text, "OFF");
    assert_eq!(row.lfo_state_text, "ON");
    assert_eq!(row.active_field, None);
}

#[test]
fn switching_field_shows_the_value_again() {
    let mut effect_tuner = EffectTunerNavigation::new();
    assert!(effect_tuner.push_numeric_input('0'));
    assert!(effect_tuner.step_edit_mode(1));
    let (value, live, amplitude, frequency) = texts();

    let snapshot = overlay_snapshot(&effect_tuner, true, true, LfoShape::Sine, value.clone(), live, amplitude, frequency);

    assert_eq!(snapshot.active_field, EffectOverlayField::LfoAmplitude);
    assert_eq!(snapshot.value_text, value);
}
