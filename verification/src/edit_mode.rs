//! Which field of the selected control-page parameter is being edited, and the
//! LFO waveform choices.
use vstd::prelude::*;
use crate::choices::{ChoiceValue, cycle_from_all, cycled};

verus! {

/// The field of the selected parameter that adjustments apply to.
#[derive(Clone, Copy, Debug, PartialEq, Eq, Structural)]
pub enum EffectEditMode {
    Value,
    LfoAmplitude,
    LfoFrequency,
    LfoShape,
}

/// The field highlighted in the control-page overlay.
#[derive(Clone, Copy, Debug, PartialEq, Eq, Structural)]
pub enum EffectOverlayField {
    Value,
    LfoAmplitude,
    LfoFrequency,
    LfoShape,
}

/// Layout of the live control page.
#[derive(Clone, Copy, Debug, PartialEq, Eq, Structural)]
pub enum EffectTunerPageMode {
    Compact,
    List,
}

/// Waveform of a parameter LFO.
#[derive(Clone, Copy, Debug, PartialEq, Eq, Structural)]
pub enum LfoShape {
    Sine,
    Triangle,
    Saw,
    Square,
    SteppedRandom,
    BrownianMotion,
}

impl ChoiceValue for EffectEditMode {
    fn same_as(&self, other: &Self) -> (same: bool) {
        *self == *other
    }
}

impl ChoiceValue for LfoShape {
    fn same_as(&self, other: &Self) -> (same: bool) {
        *self == *other
    }
}

impl EffectEditMode {
    /// Every edit mode, in stepping order.
    pub open spec fn spec_all() -> Seq<EffectEditMode> {
        seq![EffectEditMode::Value, EffectEditMode::LfoAmplitude, EffectEditMode::LfoFrequency, EffectEditMode::LfoShape]
    }

    /// Name of the edit mode.
    pub fn label(self) -> (text: &'static str)
        ensures
            text == (match self {
                EffectEditMode::Value => "value",
                EffectEditMode::LfoAmplitude => "lfo amp",
                EffectEditMode::LfoFrequency => "lfo freq",
                EffectEditMode::LfoShape => "lfo shape",
            }),
    {
        match self {
            EffectEditMode::Value => "value",
            EffectEditMode::LfoAmplitude => "lfo amp",
            EffectEditMode::LfoFrequency => "lfo freq",
            EffectEditMode::LfoShape => "lfo shape",
        }
    }

    /// The edit mode `direction` steps away, wrapping around.
    pub fn step(self, direction: isize) -> (next: EffectEditMode)
        ensures
            next == cycled(Self::spec_all(), self, direction as int),
    {
        let all: [EffectEditMode; 4] = [EffectEditMode::Value, EffectEditMode::LfoAmplitude, EffectEditMode::LfoFrequency, EffectEditMode::LfoShape];
        cycle_from_all(&all, self, direction)
    }

    /// The overlay field that shows this edit mode.
    pub open spec fn spec_overlay_field(self) -> EffectOverlayField {
        match self {
            EffectEditMode::Value => EffectOverlayField::Value,
            EffectEditMode::LfoAmplitude => EffectOverlayField::LfoAmplitude,
            EffectEditMode::LfoFrequency => EffectOverlayField::LfoFrequency,
            EffectEditMode::LfoShape => EffectOverlayField::LfoShape,
        }
    }

    /// The overlay field that shows this edit mode.
    pub fn overlay_field(self) -> (field: EffectOverlayField)
        ensures
            field == self.spec_overlay_field(),
    {
        match self {
            EffectEditMode::Value => EffectOverlayField::Value,
            EffectEditMode::LfoAmplitude => EffectOverlayField::LfoAmplitude,
            EffectEditMode::LfoFrequency => EffectOverlayField::LfoFrequency,
            EffectEditMode::LfoShape => EffectOverlayField::LfoShape,
        }
    }
}

impl LfoShape {
    /// Every waveform, in cycling order.
    pub open spec fn spec_all() -> Seq<LfoShape> {
        seq![LfoShape::Sine, LfoShape::Triangle, LfoShape::Saw, LfoShape::Square, LfoShape::SteppedRandom, LfoShape::BrownianMotion]
    }

    /// Name of the waveform.
    pub fn label(self) -> (text: &'static str)
        ensures
            text == (match self {
                LfoShape::Sine => "sine",
                LfoShape::Triangle => "triangle",
                LfoShape::Saw => "saw",
                LfoShape::Square => "square",
                LfoShape::SteppedRandom => "stepped random",
                LfoShape::BrownianMotion => "brownian motion",
            }),
    {
        match self {
            LfoShape::Sine => "sine",
            LfoShape::Triangle => "triangle",
            LfoShape::Saw => "saw",
            LfoShape::Square => "square",
            LfoShape::SteppedRandom => "stepped random",
            LfoShape::BrownianMotion => "brownian motion",
        }
    }

    /// The neighbouring waveform: the previous one when `backwards`, else the next one.
    pub fn cycle(self, backwards: bool) -> (next: LfoShape)
        ensures
            next == cycled(Self::spec_all(), self, if backwards { -1 } else { 1 }),
    {
        let all: [LfoShape; 6] = [LfoShape::Sine, LfoShape::Triangle, LfoShape::Saw, LfoShape::Square, LfoShape::SteppedRandom, LfoShape::BrownianMotion];
        let delta: isize = if backwards { -1 } else { 1 };
        cycle_from_all(&all, self, delta)
    }
}

} // verus!
