//! The discrete state of the live control page: which parameter is selected,
//! which of its fields is edited, the page layout, and the typed numeric entry.
use vstd::prelude::*;
use crate::choices::{cycled, wrap_index};
use crate::edit_mode::{EffectEditMode, EffectOverlayField, EffectTunerPageMode};
use crate::effect_catalog::EffectGroup;
use crate::numeric_entry::NumericEntryBuffer;
use crate::tuner_parameter::EffectTunerParameter;

verus! {

/// Number of parameters on the control page.
pub const PARAMETER_COUNT: usize = 126;

/// Whether `mode` can be edited on `parameter`: the value always, LFO fields only on
/// parameters that own an LFO slot.
pub open spec fn mode_supported(mode: EffectEditMode, parameter: EffectTunerParameter) -> bool {
    mode == EffectEditMode::Value || parameter.spec_supports_lfo()
}

/// The edit mode reached by stepping `direction` from `mode` until a supported mode is
/// found, trying at most `tries` steps.
pub open spec fn stepped_edit_mode(mode: EffectEditMode, direction: int, lfo_capable: bool, tries: nat) -> EffectEditMode
    decreases tries,
{
    let next = cycled(EffectEditMode::spec_all(), mode, direction);
    if tries <= 1 || next == EffectEditMode::Value || lfo_capable {
        next
    } else {
        stepped_edit_mode(next, direction, lfo_capable, (tries - 1) as nat)
    }
}

/// First row of a list window of `visible_rows` rows over `total` rows that keeps row
/// `selected` near its middle.
pub open spec fn window_start(selected: int, visible_rows: int, total: int) -> int {
    if total <= visible_rows {
        0
    } else {
        let centered = if selected >= visible_rows / 2 { selected - visible_rows / 2 } else { 0 };
        if centered < total - visible_rows { centered } else { total - visible_rows }
    }
}

/// One past the last row of that window.
pub open spec fn window_end(selected: int, visible_rows: int, total: int) -> int {
    if total <= visible_rows {
        total
    } else {
        let end = window_start(selected, visible_rows, total) + visible_rows;
        if end < total { end } else { total }
    }
}

/// Discrete state of the live control page.
#[derive(Debug)]
pub struct EffectTunerNavigation {
    selected_index: usize,
    page_mode: EffectTunerPageMode,
    edit_mode: EffectEditMode,
    numeric_entry: NumericEntryBuffer,
    pinned: bool,
}

impl EffectTunerNavigation {
    /// The selection is a parameter of the list.
    pub closed spec fn well_formed(self) -> bool {
        self.selected_index < PARAMETER_COUNT
    }

    /// Index of the selected parameter.
    pub closed spec fn spec_selected_index(self) -> int {
        self.selected_index as int
    }

    /// The page layout.
    pub closed spec fn spec_page_mode(self) -> EffectTunerPageMode {
        self.page_mode
    }

    /// The stored edit mode (it may not apply to the selected parameter).
    pub closed spec fn spec_edit_mode(self) -> EffectEditMode {
        self.edit_mode
    }

    /// Whether the page is pinned open.
    pub closed spec fn spec_pinned(self) -> bool {
        self.pinned
    }

    /// The typed numeric entry.
    pub closed spec fn spec_numeric_entry(self) -> Seq<char> {
        self.numeric_entry@
    }

    /// A well-formed page selects a parameter of the list.
    pub proof fn lemma_selection_in_list(self)
        requires
            self.well_formed(),
        ensures
            0 <= self.spec_selected_index() < PARAMETER_COUNT,
    {
    }

    /// The selected parameter.
    pub open spec fn spec_selected_parameter(self) -> EffectTunerParameter {
        EffectTunerParameter::spec_all()[self.spec_selected_index()]
    }

    /// The edit mode shown: the stored one when it applies to the selected parameter,
    /// otherwise the value.
    pub open spec fn spec_displayed_edit_mode(self) -> EffectEditMode {
        if mode_supported(self.spec_edit_mode(), self.spec_selected_parameter()) {
            self.spec_edit_mode()
        } else {
            EffectEditMode::Value
        }
    }

    /// A closed page with the first parameter selected and its value field active.
    pub fn new() -> (state: EffectTunerNavigation)
        ensures
            state.spec_selected_index() == 0,
            state.spec_page_mode() == EffectTunerPageMode::Compact,
            state.spec_edit_mode() == EffectEditMode::Value,
            state.spec_numeric_entry() == Seq::<char>::empty(),
            !state.spec_pinned(),
            state.well_formed(),
    {
        EffectTunerNavigation {
            selected_index: 0,
            page_mode: EffectTunerPageMode::Compact,
            edit_mode: EffectEditMode::Value,
            numeric_entry: NumericEntryBuffer::new(),
            pinned: false,
        }
    }

    /// Index of the selected parameter.
    pub fn selected_index(&self) -> (index: usize)
        requires
            self.well_formed(),
        ensures
            index == self.spec_selected_index(),
            index < PARAMETER_COUNT,
    {
                self.selected_index
    }

    /// The selected parameter.
    pub fn selected_parameter(&self) -> (parameter: EffectTunerParameter)
        requires
            self.well_formed(),
        ensures
            parameter == self.spec_selected_parameter(),
    {
                let all = EffectTunerParameter::all();
        all[self.selected_index]
    }

    /// The page layout.
    pub fn page_mode(&self) -> (mode: EffectTunerPageMode)
        requires
            self.well_formed(),
        ensures
            mode == self.spec_page_mode(),
    {
        self.page_mode
    }

    /// Whether the page is pinned open.
    pub fn is_pinned(&self) -> (pinned: bool)
        requires
            self.well_formed(),
        ensures
            pinned == self.spec_pinned(),
    {
        self.pinned
    }

    /// The effect the selected parameter belongs to, if it is an effect parameter.
    pub fn selected_effect_group(&self) -> (group: Option<EffectGroup>)
        requires
            self.well_formed(),
        ensures
            group == match self.spec_selected_parameter() {
                EffectTunerParameter::Effect(parameter) => Some(parameter.spec_effect_group()),
                EffectTunerParameter::Scene(_) => None,
            },
    {
        self.selected_parameter().effect_group()
    }

    /// Whether `edit_mode` can be edited on `parameter`.
    pub fn mode_supported_for_parameter(edit_mode: EffectEditMode, parameter: EffectTunerParameter) -> (supported: bool)
        ensures
            supported == mode_supported(edit_mode, parameter),
    {
        edit_mode == EffectEditMode::Value || parameter.supports_lfo()
    }

    /// The edit mode shown for the selected parameter.
    pub fn displayed_edit_mode(&self) -> (mode: EffectEditMode)
        requires
            self.well_formed(),
        ensures
            mode == self.spec_displayed_edit_mode(),
            mode_supported(mode, self.spec_selected_parameter()),
    {
        if Self::mode_supported_for_parameter(self.edit_mode, self.selected_parameter()) {
            self.edit_mode
        } else {
            EffectEditMode::Value
        }
    }

    /// The overlay field that is active.
    pub fn active_field(&self) -> (field: EffectOverlayField)
        requires
            self.well_formed(),
        ensures
            field == self.spec_displayed_edit_mode().spec_overlay_field(),
    {
        self.displayed_edit_mode().overlay_field()
    }

    /// Whether the active field edits the parameter's value itself (rather than its LFO).
    pub fn selected_field_edits_parameter_value(&self) -> (edits_value: bool)
        requires
            self.well_formed(),
        ensures
            edits_value == (self.spec_displayed_edit_mode().spec_overlay_field() == EffectOverlayField::Value),
    {
        match self.active_field() {
            EffectOverlayField::Value => true,
            _ => false,
        }
    }

    /// Name of the displayed edit mode.
    pub fn edit_mode_label(&self) -> (text: &'static str)
        requires
            self.well_formed(),
        ensures
            text == match self.spec_displayed_edit_mode() {
                EffectEditMode::Value => "value",
                EffectEditMode::LfoAmplitude => "lfo amp",
                EffectEditMode::LfoFrequency => "lfo freq",
                EffectEditMode::LfoShape => "lfo shape",
            },
    {
        self.displayed_edit_mode().label()
    }

    /// Whether typed digits edit the active field.
    pub fn active_field_accepts_numeric_entry(&self) -> (accepts: bool)
        requires
            self.well_formed(),
        ensures
            accepts == match self.spec_displayed_edit_mode() {
                EffectEditMode::Value => self.spec_selected_parameter().spec_value_accepts_numeric_input(),
                EffectEditMode::LfoAmplitude | EffectEditMode::LfoFrequency => true,
                EffectEditMode::LfoShape => false,
            },
    {
        match self.displayed_edit_mode() {
            EffectEditMode::Value => self.selected_parameter().value_accepts_numeric_input(),
            EffectEditMode::LfoAmplitude | EffectEditMode::LfoFrequency => true,
            EffectEditMode::LfoShape => false,
        }
    }

    /// Pins the page open in the compact layout.
    pub fn open_page(&mut self)
        requires
            old(self).well_formed(),
        ensures
            final(self).well_formed(),
            final(self).spec_page_mode() == EffectTunerPageMode::Compact,
            final(self).spec_pinned(),
            final(self).spec_selected_index() == old(self).spec_selected_index(),
            final(self).spec_edit_mode() == old(self).spec_edit_mode(),
            final(self).spec_numeric_entry() == old(self).spec_numeric_entry(),
    {
        self.page_mode = EffectTunerPageMode::Compact;
        self.pinned = true;
    }

    /// Switches to the list layout.
    pub fn show_list_page(&mut self)
        requires
            old(self).well_formed(),
        ensures
            final(self).well_formed(),
            final(self).spec_page_mode() == EffectTunerPageMode::List,
            final(self).spec_pinned() == old(self).spec_pinned(),
            final(self).spec_selected_index() == old(self).spec_selected_index(),
            final(self).spec_edit_mode() == old(self).spec_edit_mode(),
            final(self).spec_numeric_entry() == old(self).spec_numeric_entry(),
    {
        self.page_mode = EffectTunerPageMode::List;
    }

    /// Closes the page: compact layout, unpinned, no typed entry.
    pub fn close_page(&mut self)
        requires
            old(self).well_formed(),
        ensures
            final(self).well_formed(),
            final(self).spec_page_mode() == EffectTunerPageMode::Compact,
            !final(self).spec_pinned(),
            final(self).spec_numeric_entry() == Seq::<char>::empty(),
            final(self).spec_selected_index() == old(self).spec_selected_index(),
            final(self).spec_edit_mode() == old(self).spec_edit_mode(),
    {
        self.page_mode = EffectTunerPageMode::Compact;
        self.pinned = false;
        self.numeric_entry = NumericEntryBuffer::new();
    }

    /// Selects the parameter at `index`.
    pub fn select_index(&mut self, index: usize)
        requires
            old(self).well_formed(),
            index < PARAMETER_COUNT,
        ensures
            final(self).well_formed(),
            final(self).spec_selected_index() == index,
            final(self).spec_page_mode() == old(self).spec_page_mode(),
            final(self).spec_pinned() == old(self).spec_pinned(),
            final(self).spec_edit_mode() == old(self).spec_edit_mode(),
            final(self).spec_numeric_entry() == old(self).spec_numeric_entry(),
    {
        self.selected_index = index;
    }

    /// Moves the selection `direction` places, wrapping around the list; the typed entry
    /// is dropped and an edit mode the new parameter lacks falls back to its value.
    pub fn cycle_selection(&mut self, direction: isize)
        requires
            old(self).well_formed(),
        ensures
            final(self).well_formed(),
            final(self).spec_selected_index() == (old(self).spec_selected_index() + direction) % (PARAMETER_COUNT as int),
            final(self).spec_numeric_entry() == Seq::<char>::empty(),
            final(self).spec_edit_mode() == if mode_supported(old(self).spec_edit_mode(), final(self).spec_selected_parameter()) {
                old(self).spec_edit_mode()
            } else {
                EffectEditMode::Value
            },
            final(self).spec_page_mode() == old(self).spec_page_mode(),
            final(self).spec_pinned() == old(self).spec_pinned(),
    {
        self.numeric_entry = NumericEntryBuffer::new();
        let next = wrap_index(self.selected_index as i128 + direction as i128, PARAMETER_COUNT);
        self.selected_index = next;
        self.coerce_edit_mode_for_selected();
    }

    /// Moves the selection one place towards `direction`, as a mouse wheel notch does;
    /// returns whether it moved, which it does unless `direction` is zero.
    pub fn scroll_selection(&mut self, direction: isize) -> (moved: bool)
        requires
            old(self).well_formed(),
        ensures
            final(self).well_formed(),
            moved == (direction != 0),
            direction == 0 ==> *final(self) == *old(self),
            direction != 0 ==> {
                let step: int = if direction > 0 { 1 } else { -1 };
                &&& final(self).spec_selected_index() == (old(self).spec_selected_index() + step) % (PARAMETER_COUNT as int)
                &&& final(self).spec_numeric_entry() == Seq::<char>::empty()
                &&& final(self).spec_edit_mode() == if mode_supported(old(self).spec_edit_mode(), final(self).spec_selected_parameter()) {
                    old(self).spec_edit_mode()
                } else {
                    EffectEditMode::Value
                }
                &&& final(self).spec_page_mode() == old(self).spec_page_mode()
                &&& final(self).spec_pinned() == old(self).spec_pinned()
            },
    {
        if direction == 0 {
            return false;
        }
        let step: isize = if direction > 0 { 1 } else { -1 };
        self.cycle_selection(step);
        true
    }

    /// Falls back to the value field when the stored edit mode does not apply.
    pub fn coerce_edit_mode_for_selected(&mut self)
        requires
            old(self).well_formed(),
        ensures
            final(self).well_formed(),
            final(self).spec_edit_mode() == if mode_supported(old(self).spec_edit_mode(), old(self).spec_selected_parameter()) {
                old(self).spec_edit_mode()
            } else {
                EffectEditMode::Value
            },
            final(self).spec_selected_index() == old(self).spec_selected_index(),
            final(self).spec_numeric_entry() == old(self).spec_numeric_entry(),
            final(self).spec_page_mode() == old(self).spec_page_mode(),
            final(self).spec_pinned() == old(self).spec_pinned(),
    {
        if !Self::mode_supported_for_parameter(self.edit_mode, self.selected_parameter()) {
            self.edit_mode = EffectEditMode::Value;
        }
    }

    /// Steps the edit mode `direction` places, skipping LFO fields on parameters without
    /// an LFO; the typed entry is dropped. Returns whether the edit mode changed.
    pub fn step_edit_mode(&mut self, direction: isize) -> (changed: bool)
        requires
            old(self).well_formed(),
        ensures
            final(self).well_formed(),
            final(self).spec_edit_mode() == stepped_edit_mode(
                old(self).spec_edit_mode(), direction as int, old(self).spec_selected_parameter().spec_supports_lfo(), 4),
            changed == (final(self).spec_edit_mode() != old(self).spec_edit_mode()),
            final(self).spec_numeric_entry() == Seq::<char>::empty(),
            final(self).spec_selected_index() == old(self).spec_selected_index(),
            final(self).spec_page_mode() == old(self).spec_page_mode(),
            final(self).spec_pinned() == old(self).spec_pinned(),
    {
        self.numeric_entry = NumericEntryBuffer::new();
        let previous_mode = self.edit_mode;
        let lfo_capable = self.selected_parameter().supports_lfo();
        let mut next_mode = self.edit_mode;
        let mut remaining: usize = 4;
        loop
            invariant_except_break
                1 <= remaining <= 4,
                stepped_edit_mode(previous_mode, direction as int, lfo_capable, 4)
                    == stepped_edit_mode(next_mode, direction as int, lfo_capable, remaining as nat),
            ensures
                next_mode == stepped_edit_mode(previous_mode, direction as int, lfo_capable, 4),
            decreases remaining,
        {
            let candidate = next_mode.step(direction);
            if remaining <= 1 || candidate == EffectEditMode::Value || lfo_capable {
                next_mode = candidate;
                break;
            }
            next_mode = candidate;
            remaining -= 1;
        }
        self.edit_mode = next_mode;
        self.edit_mode != previous_mode
    }

    /// First and one-past-last rows of a list window of `visible_rows` rows that keeps
    /// the selection visible.
    pub fn selection_window_bounds(&self, visible_rows: usize) -> (bounds: (usize, usize))
        requires
            self.well_formed(),
        ensures
            bounds.0 == window_start(self.spec_selected_index(), visible_rows as int, PARAMETER_COUNT as int),
            bounds.1 == window_end(self.spec_selected_index(), visible_rows as int, PARAMETER_COUNT as int),
    {
        let total = PARAMETER_COUNT;
        if total <= visible_rows {
            return (0, total);
        }
        let half_window = visible_rows / 2;
        let max_start = total - visible_rows;
        let centered = if self.selected_index >= half_window { self.selected_index - half_window } else { 0 };
        let start = if centered < max_start { centered } else { max_start };
        let end = if start + visible_rows < total { start + visible_rows } else { total };
        (start, end)
    }

    /// Whether digits have been typed.
    pub fn has_numeric_entry(&self) -> (typed: bool)
        requires
            self.well_formed(),
        ensures
            typed == (self.spec_numeric_entry().len() > 0),
    {
        self.numeric_entry.displayed_text().is_some()
    }

    /// The typed text, if any.
    pub fn numeric_entry_text(&self) -> (text: Option<&str>)
        requires
            self.well_formed(),
        ensures
            match text {
                Some(t) => self.spec_numeric_entry().len() > 0 && t@ == self.spec_numeric_entry(),
                None => self.spec_numeric_entry().len() == 0,
            },
    {
        self.numeric_entry.displayed_text()
    }

    /// Types a character into the active field when it takes numbers. Returns whether
    /// the character was taken.
    pub fn push_numeric_input(&mut self, character: char) -> (accepted: bool)
        requires
            old(self).well_formed(),
        ensures
            final(self).well_formed(),
            accepted ==> final(self).spec_numeric_entry()
                == crate::numeric_entry::entry_after_typing(old(self).spec_numeric_entry(), character).unwrap(),
            !accepted ==> final(self).spec_numeric_entry() == old(self).spec_numeric_entry(),
            accepted == (old(self).active_field_accepts(character)),
            final(self).spec_selected_index() == old(self).spec_selected_index(),
            final(self).spec_edit_mode() == old(self).spec_edit_mode(),
            final(self).spec_page_mode() == old(self).spec_page_mode(),
            final(self).spec_pinned() == old(self).spec_pinned(),
    {
        if !self.active_field_accepts_numeric_entry() {
            return false;
        }
        let mut entry = NumericEntryBuffer::new();
        std::mem::swap(&mut entry, &mut self.numeric_entry);
        let accepted = entry.push(character);
        self.numeric_entry = entry;
        accepted
    }

    /// Whether typing `character` is taken: the active field takes numbers and the
    /// character extends the entry.
    pub open spec fn active_field_accepts(self, character: char) -> bool {
        &&& match self.spec_displayed_edit_mode() {
            EffectEditMode::Value => self.spec_selected_parameter().spec_value_accepts_numeric_input(),
            EffectEditMode::LfoAmplitude | EffectEditMode::LfoFrequency => true,
            EffectEditMode::LfoShape => false,
        }
        &&& crate::numeric_entry::entry_after_typing(self.spec_numeric_entry(), character).is_some()
    }

    /// Erases the last typed character. Returns whether there was one.
    pub fn backspace_numeric_input(&mut self) -> (erased: bool)
        requires
            old(self).well_formed(),
        ensures
            final(self).well_formed(),
            erased == (old(self).spec_numeric_entry().len() > 0),
            final(self).spec_numeric_entry() == if erased { old(self).spec_numeric_entry().drop_last() } else { old(self).spec_numeric_entry() },
            final(self).spec_selected_index() == old(self).spec_selected_index(),
            final(self).spec_edit_mode() == old(self).spec_edit_mode(),
            final(self).spec_page_mode() == old(self).spec_page_mode(),
            final(self).spec_pinned() == old(self).spec_pinned(),
    {
        let mut entry = NumericEntryBuffer::new();
        std::mem::swap(&mut entry, &mut self.numeric_entry);
        let erased = entry.backspace();
        self.numeric_entry = entry;
        erased
    }

    /// Ends a typed entry, keeping the typed value. Returns whether one was typed.
    pub fn finalize_numeric_entry(&mut self) -> (finished: bool)
        requires
            old(self).well_formed(),
        ensures
            final(self).well_formed(),
            finished == (old(self).spec_numeric_entry().len() > 0),
            final(self).spec_numeric_entry() == Seq::<char>::empty(),
            final(self).spec_selected_index() == old(self).spec_selected_index(),
            final(self).spec_edit_mode() == old(self).spec_edit_mode(),
            final(self).spec_page_mode() == old(self).spec_page_mode(),
            final(self).spec_pinned() == old(self).spec_pinned(),
    {
        if !self.has_numeric_entry() {
            return false;
        }
        self.numeric_entry = NumericEntryBuffer::new();
        true
    }

    /// Drops the typed entry.
    pub fn clear_numeric_entry(&mut self)
        requires
            old(self).well_formed(),
        ensures
            final(self).well_formed(),
            final(self).spec_numeric_entry() == Seq::<char>::empty(),
            final(self).spec_selected_index() == old(self).spec_selected_index(),
            final(self).spec_edit_mode() == old(self).spec_edit_mode(),
            final(self).spec_page_mode() == old(self).spec_page_mode(),
            final(self).spec_pinned() == old(self).spec_pinned(),
    {
        self.numeric_entry = NumericEntryBuffer::new();
    }
}

/// Moving the selection forth and then back by the same number of places returns to
/// the parameter that was selected.
pub proof fn selection_step_is_undone(index: int, direction: int)
    requires
        0 <= index < PARAMETER_COUNT,
    ensures
        (((index + direction) % (PARAMETER_COUNT as int)) - direction) % (PARAMETER_COUNT as int) == index,
{
    let n = PARAMETER_COUNT as int;
    let m = (index + direction) % n;
    assert(((m - direction) % n) == index) by (nonlinear_arith)
        requires
            n == 126,
            0 <= index < n,
            m == (index + direction) % n;
}

/// The list window holds `min(visible_rows, total)` rows and contains the selection.
pub proof fn window_keeps_selection_visible(selected: int, visible_rows: int, total: int)
    requires
        0 <= selected < total,
        visible_rows >= 1,
    ensures
        0 <= window_start(selected, visible_rows, total) <= selected < window_end(selected, visible_rows, total) <= total,
        window_end(selected, visible_rows, total) - window_start(selected, visible_rows, total)
            == if total <= visible_rows { total } else { visible_rows },
{
    if total > visible_rows {
        assert(visible_rows / 2 < visible_rows) by (nonlinear_arith)
            requires visible_rows >= 1;
        assert(visible_rows / 2 >= 0) by (nonlinear_arith)
            requires visible_rows >= 1;
    }
}

} // verus!
