use intergen::edit_mode::{EffectEditMode, EffectOverlayField, EffectTunerPageMode, LfoShape};
use intergen::effect_catalog::{EffectGroup, EffectNumericParameter};
use intergen::numeric_entry::{is_numeric_entry_char, NumericEntryBuffer};
use intergen::scene_catalog::EffectTunerSceneParameter;
use intergen::tuner_navigation::{EffectTunerNavigation, PARAMETER_COUNT};
use intergen::tuner_overlay::{list_overlay_snapshot, overlay_snapshot, ParameterDisplay};
use intergen::tuner_parameter::{
    effect_parameter_index, lfo_index_for_parameter, lfo_parameters, lfo_seed_for_index,
    EffectTunerParameter,
};

fn displays() -> Vec<ParameterDisplay> {
    (0..PARAMETER_COUNT)
        .map(|index| ParameterDisplay {
            effect_enabled: false,
            lfo_enabled: index % 2 == 0,
            value_text: format!("value {}", index),
            live_value_text: format!("live {}", index),
        })
        .collect()
}

fn index_of(parameter: EffectTunerParameter) -> usize {
    EffectTunerParameter::all()
        .iter()
        .position(|candidate| *candidate == parameter)
        .expect("parameter should exist in the F2 parameter list")
}

#[test]
fn lfo_shape_cycle_includes_random_shapes() {
    assert_eq!(LfoShape::Square.cycle(false), LfoShape::SteppedRandom);
    assert_eq!(LfoShape::SteppedRandom.cycle(false), LfoShape::BrownianMotion);
    assert_eq!(LfoShape::BrownianMotion.cycle(false), LfoShape::Sine);
    assert_eq!(LfoShape::Sine.cycle(true), LfoShape::BrownianMotion);
    assert_eq!(LfoShape::SteppedRandom.label(), "stepped random");
}

#[test]
fn selected_effect_matches_parameter_group() {
    let mut effect_tuner = EffectTunerNavigation::new();
    effect_tuner.select_index(17);

    assert_eq!(effect_tuner.selected_effect_group(), Some(EffectGroup::Bloom));
}

#[test]
fn open_and_close_page_manage_page_modes() {
    let mut effect_tuner = EffectTunerNavigation::new();

    effect_tuner.open_page();
    assert_eq!(effect_tuner.page_mode(), EffectTunerPageMode::Compact);

    effect_tuner.show_list_page();
    assert_eq!(effect_tuner.page_mode(), EffectTunerPageMode::List);

    effect_tuner.close_page();
    assert_eq!(effect_tuner.page_mode(), EffectTunerPageMode::Compact);
}

#[test]
fn scroll_selection_moves_without_hold_input() {
    let mut effect_tuner = EffectTunerNavigation::new();
    let initial = effect_tuner.selected_parameter();

    assert!(effect_tuner.scroll_selection(1));
    assert_ne!(effect_tuner.selected_parameter(), initial);
    assert!(!effect_tuner.scroll_selection(0));
    assert!(effect_tuner.scroll_selection(-5));
    assert_eq!(effect_tuner.selected_parameter(), initial);
}

#[test]
fn list_overlay_snapshot_scrolls_to_keep_selection_visible() {
    let mut effect_tuner = EffectTunerNavigation::new();
    effect_tuner.select_index(EffectTunerParameter::all().len() - 1);
    effect_tuner.show_list_page();

    let snapshot = list_overlay_snapshot(
        &effect_tuner,
        &displays(),
        7,
        LfoShape::Sine,
        "0.000".to_string(),
        "0.250".to_string(),
    );

    assert_eq!(snapshot.total_parameters, EffectTunerParameter::all().len());
    assert_eq!(snapshot.rows.len(), 7);
    assert_eq!(snapshot.window_start + snapshot.rows.len(), snapshot.total_parameters);
    assert!(snapshot.rows.last().is_some_and(|row| row.selected));
    assert_eq!(
        snapshot.detail.parameter_label,
        effect_tuner.selected_parameter().short_label()
    );
}

#[test]
fn list_overlay_shows_at_least_one_row() {
    let mut effect_tuner = EffectTunerNavigation::new();
    effect_tuner.select_index(10);

    let snapshot = list_overlay_snapshot(
        &effect_tuner,
        &displays(),
        0,
        LfoShape::Sine,
        "0.000".to_string(),
        "0.250".to_string(),
    );

    assert_eq!(snapshot.rows.len(), 1);
    assert_eq!(snapshot.window_start, 10);
    assert!(snapshot.rows[0].selected);
    assert_eq!(snapshot.rows[0].value_text, "value 10");
    assert_eq!(snapshot.detail.live_value_text, "live 10");
    assert!(!snapshot.pinned);

    let (start, end) = effect_tuner.selection_window_bounds(4);
    let snapshot = list_overlay_snapshot(
        &effect_tuner,
        &displays(),
        4,
        LfoShape::Sine,
        "0.000".to_string(),
        "0.250".to_string(),
    );
    assert_eq!(snapshot.window_start, start);
    assert_eq!(snapshot.rows.len(), end - start);
    assert_eq!(snapshot.rows[0].value_text, format!("value {}", start));
    assert_eq!(snapshot.rows[0].effect_state_text, "OFF");
}

#[test]
fn every_effect_stable_id_starts_with_its_effect_label() {
    for parameter in EffectNumericParameter::all() {
        let prefix = format!("{}.", parameter.effect_group().label());
        assert!(parameter.stable_id().starts_with(&prefix));
    }
    assert_eq!(EffectNumericParameter::LensStrength.stable_id(), "lens_distortion.strength");
    assert_eq!(EffectNumericParameter::GaussianBlurRadius.stable_id(), "gaussian_blur.radius_pixels");
}

#[test]
fn switching_field_clears_numeric_entry_highlight_text() {
    let mut effect_tuner = EffectTunerNavigation::new();
    assert!(effect_tuner.push_numeric_input('0'));

    assert!(effect_tuner.step_edit_mode(1));

    assert_eq!(effect_tuner.active_field(), EffectOverlayField::LfoAmplitude);
    assert_eq!(effect_tuner.numeric_entry_text(), None);
}

#[test]
fn selecting_another_parameter_clears_numeric_entry() {
    let mut effect_tuner = EffectTunerNavigation::new();
    assert!(effect_tuner.push_numeric_input('0'));

    effect_tuner.cycle_selection(1);

    assert_eq!(effect_tuner.selected_parameter().short_label(), "mod");
    assert!(!effect_tuner.has_numeric_entry());
}

#[test]
fn shape_field_ignores_numeric_entry() {
    let mut effect_tuner = EffectTunerNavigation::new();
    effect_tuner.step_edit_mode(-1);
    assert_eq!(effect_tuner.active_field(), EffectOverlayField::LfoShape);

    assert!(!effect_tuner.push_numeric_input('1'));
    assert!(!effect_tuner.has_numeric_entry());
}

#[test]
fn scene_parameters_only_expose_the_value_field() {
    let mut effect_tuner = EffectTunerNavigation::new();
    effect_tuner.step_edit_mode(-1);
    assert_eq!(effect_tuner.displayed_edit_mode(), EffectEditMode::LfoShape);
    effect_tuner.select_index(index_of(EffectTunerParameter::Scene(EffectTunerSceneParameter::ChildKind)));

    assert_eq!(effect_tuner.selected_parameter().group_label(), "scene");
    assert!(!effect_tuner.selected_parameter().supports_lfo());
    assert_eq!(effect_tuner.active_field(), EffectOverlayField::Value);
    let snapshot = overlay_snapshot(
        &effect_tuner,
        true,
        false,
        LfoShape::Sine,
        "1.000".to_string(),
        "1.000".to_string(),
        "0.000".to_string(),
        "0.250".to_string(),
    );
    assert_eq!(snapshot.effect_label, "scene");
    assert_eq!(snapshot.effect_state_text, "VAL");
    assert!(!snapshot.supports_lfo);
    assert_eq!(snapshot.lfo_state_text, "--");
    assert_eq!(snapshot.amplitude_text, "--");
    assert_eq!(snapshot.active_field, EffectOverlayField::Value);
}

#[test]
fn eligible_scene_numeric_parameters_expose_lfo_fields() {
    let mut effect_tuner = EffectTunerNavigation::new();
    effect_tuner.step_edit_mode(-1);
    effect_tuner.select_index(index_of(EffectTunerParameter::Scene(EffectTunerSceneParameter::GlobalOpacity)));

    assert!(effect_tuner.selected_parameter().supports_lfo());
    assert_eq!(effect_tuner.active_field(), EffectOverlayField::LfoShape);
    let snapshot = overlay_snapshot(
        &effect_tuner,
        true,
        false,
        LfoShape::Sine,
        "1.000".to_string(),
        "1.000".to_string(),
        "0.000".to_string(),
        "0.250".to_string(),
    );
    assert!(snapshot.supports_lfo);
    assert_eq!(snapshot.lfo_state_text, "OFF");
    assert_eq!(snapshot.amplitude_text, "0.000");
    assert_eq!(snapshot.active_field, EffectOverlayField::LfoShape);
}

#[test]
fn stable_ids_round_trip_for_every_parameter() {
    let all = EffectTunerParameter::all();
    assert_eq!(all.len(), PARAMETER_COUNT);
    for parameter in &all {
        assert_eq!(EffectTunerParameter::from_stable_id(parameter.stable_id()), Some(*parameter));
    }
    for parameter in EffectNumericParameter::all() {
        assert_eq!(EffectNumericParameter::from_stable_id(parameter.stable_id()), Some(*parameter));
        assert_eq!(effect_parameter_index(*parameter).map(|index| EffectNumericParameter::all()[index]), Some(*parameter));
    }
    for parameter in EffectTunerSceneParameter::all() {
        assert_eq!(EffectTunerSceneParameter::from_stable_id(parameter.stable_id()), Some(*parameter));
    }
    assert_eq!(EffectTunerParameter::from_stable_id("no.such.parameter"), None);
}

#[test]
fn lfo_slots_follow_the_lfo_parameter_list() {
    let lfo = lfo_parameters();
    for (index, parameter) in lfo.iter().enumerate() {
        assert!(parameter.supports_lfo());
        assert_eq!(lfo_index_for_parameter(*parameter), Some(index));
    }
    assert_eq!(
        lfo_index_for_parameter(EffectTunerParameter::Scene(EffectTunerSceneParameter::ChildKind)),
        None
    );
    assert_ne!(lfo_seed_for_index(0), lfo_seed_for_index(1));
}

#[test]
fn numeric_entry_keeps_a_well_formed_number() {
    let mut entry = NumericEntryBuffer::new();
    assert_eq!(entry.displayed_text(), None);
    assert!(entry.push('-'));
    assert!(entry.push(','));
    assert_eq!(entry.displayed_text(), Some("-0."));
    assert!(!entry.push('.'));
    assert!(!entry.push('+'));
    assert!(entry.push('5'));
    assert_eq!(entry.displayed_text(), Some("-0.5"));
    assert!(entry.backspace());
    assert_eq!(entry.displayed_text(), Some("-0."));
    entry.clear();
    assert_eq!(entry.displayed_text(), None);
    assert!(!entry.backspace());
}

#[test]
fn only_value_field_edits_trigger_direct_scene_restore_path() {
    let mut effect_tuner = EffectTunerNavigation::new();

    assert!(effect_tuner.selected_field_edits_parameter_value());

    assert!(effect_tuner.step_edit_mode(1));
    assert!(!effect_tuner.selected_field_edits_parameter_value());
}

#[test]
fn numeric_entry_characters_are_digits_points_and_signs() {
    for c in ['0', '7', '9', '.', ',', '-', '+'] {
        assert!(is_numeric_entry_char(c));
    }
    for c in ['a', ' ', '/', 'e', '\u{3000}'] {
        assert!(!is_numeric_entry_char(c));
    }
}

#[test]
fn list_overlay_marks_exactly_the_selected_row() {
    let mut effect_tuner = EffectTunerNavigation::new();
    effect_tuner.select_index(40);
    for visible_rows in [1usize, 4, 7, 126, 200] {
        let snapshot = list_overlay_snapshot(
            &effect_tuner,
            &displays(),
            visible_rows,
            LfoShape::Sine,
            "0.000".to_string(),
            "0.250".to_string(),
        );
        let shown = visible_rows.min(PARAMETER_COUNT);
        assert_eq!(snapshot.rows.len(), shown);
        assert!(snapshot.window_start + shown <= PARAMETER_COUNT);
        let marked: Vec<usize> = (0..snapshot.rows.len()).filter(|&i| snapshot.rows[i].selected).collect();
        assert_eq!(marked, vec![40 - snapshot.window_start]);
    }
}
