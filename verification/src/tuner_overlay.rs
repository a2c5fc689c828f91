//! The texts of the live control page overlay: labels, on/off states, and the typed
//! number shown in place of the field it edits. Numbers are formatted by the caller.
use vstd::prelude::*;
use crate::edit_mode::{EffectOverlayField, LfoShape};
use crate::tuner_navigation::{window_end, window_keeps_selection_visible, window_start, EffectTunerNavigation, PARAMETER_COUNT};
use crate::tuner_parameter::lemma_all_distinct;
use crate::tuner_parameter::EffectTunerParameter;

verus! {

/// The compact overlay of the selected parameter.
#[derive(Debug)]
pub struct EffectTunerOverlaySnapshot {
    pub pinned: bool,
    pub effect_label: &'static str,
    pub effect_state_text: &'static str,
    pub effect_state_emphasized: bool,
    pub parameter_label: &'static str,
    pub value_text: String,
    pub live_value_text: String,
    pub supports_lfo: bool,
    pub lfo_state_text: &'static str,
    pub lfo_state_emphasized: bool,
    pub amplitude_text: String,
    pub frequency_text: String,
    pub shape_text: &'static str,
    pub active_field: EffectOverlayField,
}

/// One row of the parameter list.
#[derive(Debug)]
pub struct EffectTunerListRowSnapshot {
    pub effect_label: &'static str,
    pub effect_state_text: &'static str,
    pub effect_state_emphasized: bool,
    pub parameter_label: &'static str,
    pub value_text: String,
    pub live_value_text: String,
    pub supports_lfo: bool,
    pub lfo_state_text: &'static str,
    pub lfo_state_emphasized: bool,
    pub selected: bool,
    pub active_field: Option<EffectOverlayField>,
}

/// What the caller has formatted for one parameter of the list: whether its effect
/// and its LFO are on, its value text and its live value text.
pub struct ParameterDisplay {
    pub effect_enabled: bool,
    pub lfo_enabled: bool,
    pub value_text: String,
    pub live_value_text: String,
}

/// The list page: a window of rows around the selection and the selected parameter's
/// compact overlay.
#[derive(Debug)]
pub struct EffectTunerListOverlaySnapshot {
    pub pinned: bool,
    pub total_parameters: usize,
    pub window_start: usize,
    pub rows: Vec<EffectTunerListRowSnapshot>,
    pub detail: EffectTunerOverlaySnapshot,
}

/// The name of a waveform.
pub open spec fn shape_label(shape: LfoShape) -> &'static str {
    match shape {
        LfoShape::Sine => "sine",
        LfoShape::Triangle => "triangle",
        LfoShape::Saw => "saw",
        LfoShape::Square => "square",
        LfoShape::SteppedRandom => "stepped random",
        LfoShape::BrownianMotion => "brownian motion",
    }
}

/// The state column of a parameter's effect: `ON` or `OFF` for effect parameters,
/// `VAL` for scene parameters.
pub open spec fn effect_state(parameter: EffectTunerParameter, effect_enabled: bool) -> (&'static str, bool) {
    match parameter {
        EffectTunerParameter::Effect(_) => (if effect_enabled { "ON" } else { "OFF" }, effect_enabled),
        EffectTunerParameter::Scene(_) => ("VAL", false),
    }
}

/// The state column of a parameter's LFO: `ON` or `OFF` when it has one, `--` otherwise.
pub open spec fn lfo_state(parameter: EffectTunerParameter, lfo_enabled: bool) -> (&'static str, bool) {
    if parameter.spec_supports_lfo() {
        (if lfo_enabled { "ON" } else { "OFF" }, lfo_enabled)
    } else {
        ("--", false)
    }
}

/// What field `field` shows: the typed number while it is the active field and a
/// number is being typed, else `fallback`.
pub open spec fn shown_number(navigation: EffectTunerNavigation, field: EffectOverlayField, fallback: Seq<char>) -> Seq<char> {
    if navigation.spec_displayed_edit_mode().spec_overlay_field() == field && navigation.spec_numeric_entry().len() > 0 {
        navigation.spec_numeric_entry()
    } else {
        fallback
    }
}

fn effect_state_of(parameter: EffectTunerParameter, effect_enabled: bool) -> (state: (&'static str, bool))
    ensures
        state == effect_state(parameter, effect_enabled),
{
    match parameter.effect_group() {
        Some(_) => (if effect_enabled { "ON" } else { "OFF" }, effect_enabled),
        None => ("VAL", false),
    }
}

fn lfo_state_of(parameter: EffectTunerParameter, lfo_enabled: bool) -> (state: (&'static str, bool))
    ensures
        state == lfo_state(parameter, lfo_enabled),
{
    if parameter.supports_lfo() {
        (if lfo_enabled { "ON" } else { "OFF" }, lfo_enabled)
    } else {
        ("--", false)
    }
}

/// The typed number while `field` is the active field and a number is being typed,
/// else `fallback`.
pub fn overlay_numeric_text(navigation: &EffectTunerNavigation, field: EffectOverlayField, fallback: String) -> (text: String)
    requires
        navigation.well_formed(),
    ensures
        text@ == shown_number(*navigation, field, fallback@),
{
    if navigation.active_field() == field {
        if let Some(typed) = navigation.numeric_entry_text() {
            let mut text = String::new();
            crate::text::push_str(&mut text, typed);
            return text;
        }
    }
    fallback
}

/// A dash placeholder.
fn dashes() -> (text: String)
    ensures
        text@ == "--"@,
{
    let mut text = String::new();
    crate::text::push_str(&mut text, "--");
    text
}

/// `snapshot` is the compact overlay of the parameter selected in `navigation`, with
/// its effect on when `effect_enabled`, its LFO on when `lfo_enabled` with waveform
/// `lfo_shape`, and the given value, live value, amplitude and frequency texts.
pub open spec fn overlay_matches(
    navigation: EffectTunerNavigation,
    effect_enabled: bool,
    lfo_enabled: bool,
    lfo_shape: LfoShape,
    value_text: Seq<char>,
    live_value_text: Seq<char>,
    amplitude_text: Seq<char>,
    frequency_text: Seq<char>,
    snapshot: EffectTunerOverlaySnapshot,
) -> bool {
    let parameter = navigation.spec_selected_parameter();
    &&& snapshot.pinned == navigation.spec_pinned()
    &&& snapshot.effect_label == parameter.spec_group_label()
    &&& (snapshot.effect_state_text, snapshot.effect_state_emphasized) == effect_state(parameter, effect_enabled)
    &&& snapshot.parameter_label == parameter.spec_short_label()
    &&& snapshot.value_text@ == shown_number(navigation, EffectOverlayField::Value, value_text)
    &&& snapshot.live_value_text@ == live_value_text
    &&& snapshot.supports_lfo == parameter.spec_supports_lfo()
    &&& (snapshot.lfo_state_text, snapshot.lfo_state_emphasized) == lfo_state(parameter, lfo_enabled)
    &&& if parameter.spec_supports_lfo() {
        &&& snapshot.amplitude_text@ == shown_number(navigation, EffectOverlayField::LfoAmplitude, amplitude_text)
        &&& snapshot.frequency_text@ == shown_number(navigation, EffectOverlayField::LfoFrequency, frequency_text)
        &&& snapshot.shape_text == shape_label(lfo_shape)
    } else {
        &&& snapshot.amplitude_text@ == "--"@
        &&& snapshot.frequency_text@ == "--"@
        &&& snapshot.shape_text == "--"
    }
    &&& snapshot.active_field == navigation.spec_displayed_edit_mode().spec_overlay_field()
}

/// The compact overlay of the selected parameter. `effect_enabled` is whether its
/// effect is on, `lfo_enabled` and `lfo_shape` describe its LFO, and the texts are its
/// formatted value, live value, LFO amplitude and LFO frequency.
pub fn overlay_snapshot(
    navigation: &EffectTunerNavigation,
    effect_enabled: bool,
    lfo_enabled: bool,
    lfo_shape: LfoShape,
    value_text: String,
    live_value_text: String,
    amplitude_text: String,
    frequency_text: String,
) -> (snapshot: EffectTunerOverlaySnapshot)
    requires
        navigation.well_formed(),
    ensures
        overlay_matches(*navigation, effect_enabled, lfo_enabled, lfo_shape, value_text@, live_value_text@, amplitude_text@, frequency_text@, snapshot),
{
    let parameter = navigation.selected_parameter();
    let supports_lfo = parameter.supports_lfo();
    let (effect_state_text, effect_state_emphasized) = effect_state_of(parameter, effect_enabled);
    let (lfo_state_text, lfo_state_emphasized) = lfo_state_of(parameter, lfo_enabled);
    let (amplitude_text, frequency_text, shape_text) = if supports_lfo {
        (
            overlay_numeric_text(navigation, EffectOverlayField::LfoAmplitude, amplitude_text),
            overlay_numeric_text(navigation, EffectOverlayField::LfoFrequency, frequency_text),
            lfo_shape.label(),
        )
    } else {
        (dashes(), dashes(), "--")
    };
    EffectTunerOverlaySnapshot {
        pinned: navigation.is_pinned(),
        effect_label: parameter.group_label(),
        effect_state_text,
        effect_state_emphasized,
        parameter_label: parameter.short_label(),
        value_text: overlay_numeric_text(navigation, EffectOverlayField::Value, value_text),
        live_value_text,
        supports_lfo,
        lfo_state_text,
        lfo_state_emphasized,
        amplitude_text,
        frequency_text,
        shape_text,
        active_field: navigation.active_field(),
    }
}

/// `row` is the list row of `parameter` for `navigation`, with its effect on when
/// `effect_enabled`, its LFO on when `lfo_enabled`, and the given value texts.
pub open spec fn row_matches(
    navigation: EffectTunerNavigation,
    parameter: EffectTunerParameter,
    effect_enabled: bool,
    lfo_enabled: bool,
    value_text: Seq<char>,
    live_value_text: Seq<char>,
    row: EffectTunerListRowSnapshot,
) -> bool {
    let selected = parameter == navigation.spec_selected_parameter();
    &&& row.selected == selected
    &&& row.effect_label == parameter.spec_group_label()
    &&& (row.effect_state_text, row.effect_state_emphasized) == effect_state(parameter, effect_enabled)
    &&& row.parameter_label == parameter.spec_short_label()
    &&& row.value_text@ == if selected {
        shown_number(navigation, EffectOverlayField::Value, value_text)
    } else {
        value_text
    }
    &&& row.live_value_text@ == live_value_text
    &&& row.supports_lfo == parameter.spec_supports_lfo()
    &&& (row.lfo_state_text, row.lfo_state_emphasized) == lfo_state(parameter, lfo_enabled)
    &&& row.active_field == if selected {
        Some(navigation.spec_displayed_edit_mode().spec_overlay_field())
    } else {
        None
    }
}

/// The list row of `parameter`. `effect_enabled` is whether its effect is on,
/// `lfo_enabled` whether its LFO is on, and the texts its formatted value and live value.
pub fn list_row_snapshot(
    navigation: &EffectTunerNavigation,
    parameter: EffectTunerParameter,
    effect_enabled: bool,
    lfo_enabled: bool,
    value_text: String,
    live_value_text: String,
) -> (row: EffectTunerListRowSnapshot)
    requires
        navigation.well_formed(),
    ensures
        row_matches(*navigation, parameter, effect_enabled, lfo_enabled, value_text@, live_value_text@, row),
{
    let selected = parameter == navigation.selected_parameter();
    let (effect_state_text, effect_state_emphasized) = effect_state_of(parameter, effect_enabled);
    let (lfo_state_text, lfo_state_emphasized) = lfo_state_of(parameter, lfo_enabled);
    EffectTunerListRowSnapshot {
        effect_label: parameter.group_label(),
        effect_state_text,
        effect_state_emphasized,
        parameter_label: parameter.short_label(),
        value_text: if selected {
            overlay_numeric_text(navigation, EffectOverlayField::Value, value_text)
        } else {
            value_text
        },
        live_value_text,
        supports_lfo: parameter.supports_lfo(),
        lfo_state_text,
        lfo_state_emphasized,
        selected,
        active_field: if selected { Some(navigation.active_field()) } else { None },
    }
}

/// The number of rows a list window shows for `visible_rows` requested rows: at least one.
pub open spec fn shown_row_count(visible_rows: int) -> int {
    if visible_rows >= 1 { visible_rows } else { 1 }
}

/// `snapshot` is the list page for `navigation` with a window of `visible_rows` rows
/// (at least one), `displays` holding what is formatted for every parameter in list
/// order, and `lfo_shape` and the two texts describing the selected parameter's LFO.
pub open spec fn list_overlay_matches(
    navigation: EffectTunerNavigation,
    displays: Seq<ParameterDisplay>,
    visible_rows: usize,
    lfo_shape: LfoShape,
    amplitude_text: Seq<char>,
    frequency_text: Seq<char>,
    snapshot: EffectTunerListOverlaySnapshot,
) -> bool {
    let selected = navigation.spec_selected_index();
    let rows = shown_row_count(visible_rows as int);
    let start = window_start(selected, rows, PARAMETER_COUNT as int);
    let end = window_end(selected, rows, PARAMETER_COUNT as int);
    let chosen = displays[selected];
    &&& snapshot.pinned == navigation.spec_pinned()
    &&& snapshot.total_parameters == PARAMETER_COUNT
    &&& snapshot.window_start == start
    &&& snapshot.rows@.len() == end - start
    &&& forall|i: int| 0 <= i < snapshot.rows@.len() ==> {
        let display = displays[start + i];
        row_matches(
            navigation,
            EffectTunerParameter::spec_all()[start + i],
            display.effect_enabled,
            display.lfo_enabled,
            display.value_text@,
            display.live_value_text@,
            #[trigger] snapshot.rows@[i],
        )
    }
    &&& overlay_matches(
        navigation,
        chosen.effect_enabled,
        chosen.lfo_enabled,
        lfo_shape,
        chosen.value_text@,
        chosen.live_value_text@,
        amplitude_text,
        frequency_text,
        snapshot.detail,
    )
}

/// A list page shows as many rows as asked for (at least one, at most the whole
/// list), all within the list; the selection lies in the window, its row is the one
/// row marked selected, and the detail shows the selected parameter.
pub proof fn list_overlay_marks_the_selection(
    navigation: EffectTunerNavigation,
    displays: Seq<ParameterDisplay>,
    visible_rows: usize,
    lfo_shape: LfoShape,
    amplitude_text: Seq<char>,
    frequency_text: Seq<char>,
    snapshot: EffectTunerListOverlaySnapshot,
)
    requires
        navigation.well_formed(),
        displays.len() == PARAMETER_COUNT,
        list_overlay_matches(navigation, displays, visible_rows, lfo_shape, amplitude_text, frequency_text, snapshot),
    ensures
        ({
            let rows = shown_row_count(visible_rows as int);
            let shown = if rows < PARAMETER_COUNT { rows } else { PARAMETER_COUNT as int };
            let selected = navigation.spec_selected_index();
            &&& snapshot.rows@.len() == shown
            &&& snapshot.window_start + shown <= PARAMETER_COUNT
            &&& snapshot.window_start <= selected < snapshot.window_start + shown
            &&& forall|i: int| 0 <= i < shown ==> (#[trigger] snapshot.rows@[i].selected <==> snapshot.window_start + i == selected)
            &&& snapshot.detail.parameter_label == navigation.spec_selected_parameter().spec_short_label()
        }),
{
    let selected = navigation.spec_selected_index();
    let rows = shown_row_count(visible_rows as int);
    navigation.lemma_selection_in_list();
    window_keeps_selection_visible(selected, rows, PARAMETER_COUNT as int);
    let start = snapshot.window_start as int;
    assert forall|i: int| 0 <= i < snapshot.rows@.len() implies (#[trigger] snapshot.rows@[i].selected <==> start + i == selected) by {
        let display = displays[start + i];
        assert(row_matches(
            navigation,
            EffectTunerParameter::spec_all()[start + i],
            display.effect_enabled,
            display.lfo_enabled,
            display.value_text@,
            display.live_value_text@,
            snapshot.rows@[i],
        ));
        if EffectTunerParameter::spec_all()[start + i] == navigation.spec_selected_parameter() {
            lemma_all_distinct(start + i, selected);
        }
    }
}

/// The list page overlay for a window of `visible_rows` rows (at least one). `displays`
/// holds what is formatted for every parameter in list order; `lfo_shape` and the two
/// texts describe the selected parameter's LFO.
pub fn list_overlay_snapshot(
    navigation: &EffectTunerNavigation,
    displays: &Vec<ParameterDisplay>,
    visible_rows: usize,
    lfo_shape: LfoShape,
    amplitude_text: String,
    frequency_text: String,
) -> (snapshot: EffectTunerListOverlaySnapshot)
    requires
        navigation.well_formed(),
        displays@.len() == PARAMETER_COUNT,
    ensures
        list_overlay_matches(*navigation, displays@, visible_rows, lfo_shape, amplitude_text@, frequency_text@, snapshot),
{
    let rows_shown = if visible_rows >= 1 { visible_rows } else { 1 };
    let (start, end) = navigation.selection_window_bounds(rows_shown);
    let all = EffectTunerParameter::all();
    let mut rows: Vec<EffectTunerListRowSnapshot> = Vec::new();
    let mut index = start;
    while index < end
        invariant
            navigation.well_formed(),
            displays@.len() == PARAMETER_COUNT,
            all@ == EffectTunerParameter::spec_all(),
            all@.len() == PARAMETER_COUNT,
            start <= index <= end <= PARAMETER_COUNT,
            rows@.len() == index - start,
            forall|i: int| 0 <= i < rows@.len() ==> {
                let display = displays@[start + i];
                row_matches(
                    *navigation,
                    EffectTunerParameter::spec_all()[start + i],
                    display.effect_enabled,
                    display.lfo_enabled,
                    display.value_text@,
                    display.live_value_text@,
                    #[trigger] rows@[i],
                )
            },
        decreases end - index,
    {
        let display = &displays[index];
        let row = list_row_snapshot(
            navigation,
            all[index],
            display.effect_enabled,
            display.lfo_enabled,
            display.value_text.clone(),
            display.live_value_text.clone(),
        );
        rows.push(row);
        index += 1;
    }
    let chosen = &displays[navigation.selected_index()];
    let detail = overlay_snapshot(
        navigation,
        chosen.effect_enabled,
        chosen.lfo_enabled,
        lfo_shape,
        chosen.value_text.clone(),
        chosen.live_value_text.clone(),
        amplitude_text,
        frequency_text,
    );
    EffectTunerListOverlaySnapshot {
        pinned: navigation.is_pinned(),
        total_parameters: PARAMETER_COUNT,
        window_start: start,
        rows,
        detail,
    }
}

} // verus!
