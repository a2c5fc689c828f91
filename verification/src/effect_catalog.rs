//! Post-processing effect groups and their numeric parameters: stable
//! identifiers, labels and grouping.
use vstd::prelude::*;

verus! {

/// A camera-output shader effect that can be switched on and off.
#[derive(Clone, Copy, Debug, PartialEq, Eq, Structural)]
pub enum EffectGroup {
    ColorWavefolder,
    LensDistortion,
    GaussianBlur,
    Bloom,
    EdgeDetection,
}

impl EffectGroup {
    /// Identifier of the effect as written in configuration files.
    pub open spec fn spec_label(self) -> &'static str {
        match self {
            EffectGroup::ColorWavefolder => "color_wavefolder",
            EffectGroup::LensDistortion => "lens_distortion",
            EffectGroup::GaussianBlur => "gaussian_blur",
            EffectGroup::Bloom => "bloom",
            EffectGroup::EdgeDetection => "edge_detection",
        }
    }

    /// Identifier of the effect as written in configuration files.
    pub fn label(self) -> (text: &'static str)
        ensures
            text == self.spec_label(),
    {
        match self {
            EffectGroup::ColorWavefolder => "color_wavefolder",
            EffectGroup::LensDistortion => "lens_distortion",
            EffectGroup::GaussianBlur => "gaussian_blur",
            EffectGroup::Bloom => "bloom",
            EffectGroup::EdgeDetection => "edge_detection",
        }
    }

    /// Short name of the effect used in the control-page columns.
    pub open spec fn spec_compact_label(self) -> &'static str {
        match self {
            EffectGroup::ColorWavefolder => "wavefolder",
            EffectGroup::LensDistortion => "lens",
            EffectGroup::GaussianBlur => "blur",
            EffectGroup::Bloom => "bloom",
            EffectGroup::EdgeDetection => "edge",
        }
    }

    /// Short name of the effect used in the control-page columns.
    pub fn compact_label(self) -> (text: &'static str)
        ensures
            text == self.spec_compact_label(),
    {
        match self {
            EffectGroup::ColorWavefolder => "wavefolder",
            EffectGroup::LensDistortion => "lens",
            EffectGroup::GaussianBlur => "blur",
            EffectGroup::Bloom => "bloom",
            EffectGroup::EdgeDetection => "edge",
        }
    }
}

/// A numeric parameter of one of the shader effects.
#[derive(Clone, Copy, Debug, PartialEq, Eq, Structural)]
pub enum EffectNumericParameter {
    WavefolderGain,
    WavefolderModulus,
    LensStrength,
    LensRadialK2,
    LensRadialK3,
    LensCenterX,
    LensCenterY,
    LensScaleX,
    LensScaleY,
    LensTangentialX,
    LensTangentialY,
    LensZoom,
    LensChromaticAberration,
    GaussianBlurSigma,
    GaussianBlurRadius,
    BloomThreshold,
    BloomIntensity,
    BloomRadius,
    EdgeStrength,
    EdgeThreshold,
    EdgeMix,
    EdgeColorR,
    EdgeColorG,
    EdgeColorB,
}

/// Every effect parameter, in control-page order.
pub const EFFECT_NUMERIC_PARAMETERS: [EffectNumericParameter; 24] = [
    EffectNumericParameter::WavefolderGain,
    EffectNumericParameter::WavefolderModulus,
    EffectNumericParameter::LensStrength,
    EffectNumericParameter::LensRadialK2,
    EffectNumericParameter::LensRadialK3,
    EffectNumericParameter::LensCenterX,
    EffectNumericParameter::LensCenterY,
    EffectNumericParameter::LensScaleX,
    EffectNumericParameter::LensScaleY,
    EffectNumericParameter::LensTangentialX,
    EffectNumericParameter::LensTangentialY,
    EffectNumericParameter::LensZoom,
    EffectNumericParameter::LensChromaticAberration,
    EffectNumericParameter::GaussianBlurSigma,
    EffectNumericParameter::GaussianBlurRadius,
    EffectNumericParameter::BloomThreshold,
    EffectNumericParameter::BloomIntensity,
    EffectNumericParameter::BloomRadius,
    EffectNumericParameter::EdgeStrength,
    EffectNumericParameter::EdgeThreshold,
    EffectNumericParameter::EdgeMix,
    EffectNumericParameter::EdgeColorR,
    EffectNumericParameter::EdgeColorG,
    EffectNumericParameter::EdgeColorB,
];

impl EffectNumericParameter {
    /// Every effect parameter, in control-page order.
    pub open spec fn spec_all() -> Seq<EffectNumericParameter> {
        seq![
            EffectNumericParameter::WavefolderGain,
            EffectNumericParameter::WavefolderModulus,
            EffectNumericParameter::LensStrength,
            EffectNumericParameter::LensRadialK2,
            EffectNumericParameter::LensRadialK3,
            EffectNumericParameter::LensCenterX,
            EffectNumericParameter::LensCenterY,
            EffectNumericParameter::LensScaleX,
            EffectNumericParameter::LensScaleY,
            EffectNumericParameter::LensTangentialX,
            EffectNumericParameter::LensTangentialY,
            EffectNumericParameter::LensZoom,
            EffectNumericParameter::LensChromaticAberration,
            EffectNumericParameter::GaussianBlurSigma,
            EffectNumericParameter::GaussianBlurRadius,
            EffectNumericParameter::BloomThreshold,
            EffectNumericParameter::BloomIntensity,
            EffectNumericParameter::BloomRadius,
            EffectNumericParameter::EdgeStrength,
            EffectNumericParameter::EdgeThreshold,
            EffectNumericParameter::EdgeMix,
            EffectNumericParameter::EdgeColorR,
            EffectNumericParameter::EdgeColorG,
            EffectNumericParameter::EdgeColorB,
        ]
    }

    /// Every effect parameter, in control-page order.
    pub fn all() -> (parameters: &'static [EffectNumericParameter])
        ensures
            parameters@ == Self::spec_all(),
    {
        &EFFECT_NUMERIC_PARAMETERS
    }

    /// The identifier under which the parameter is stored in presets.
    pub open spec fn spec_stable_id(self) -> &'static str {
        match self {
            Self::WavefolderGain => "color_wavefolder.gain",
            Self::WavefolderModulus => "color_wavefolder.modulus",
            Self::LensStrength => "lens_distortion.strength",
            Self::LensRadialK2 => "lens_distortion.radial_k2",
            Self::LensRadialK3 => "lens_distortion.radial_k3",
            Self::LensCenterX => "lens_distortion.center.x",
            Self::LensCenterY => "lens_distortion.center.y",
            Self::LensScaleX => "lens_distortion.scale.x",
            Self::LensScaleY => "lens_distortion.scale.y",
            Self::LensTangentialX => "lens_distortion.tangential.x",
            Self::LensTangentialY => "lens_distortion.tangential.y",
            Self::LensZoom => "lens_distortion.zoom",
            Self::LensChromaticAberration => "lens_distortion.chromatic_aberration",
            Self::GaussianBlurSigma => "gaussian_blur.sigma",
            Self::GaussianBlurRadius => "gaussian_blur.radius_pixels",
            Self::BloomThreshold => "bloom.threshold",
            Self::BloomIntensity => "bloom.intensity",
            Self::BloomRadius => "bloom.radius_pixels",
            Self::EdgeStrength => "edge_detection.strength",
            Self::EdgeThreshold => "edge_detection.threshold",
            Self::EdgeMix => "edge_detection.mix",
            Self::EdgeColorR => "edge_detection.color.r",
            Self::EdgeColorG => "edge_detection.color.g",
            Self::EdgeColorB => "edge_detection.color.b",
        }
    }

    /// The identifier under which the parameter is stored in presets.
    pub fn stable_id(self) -> (value: &'static str)
        ensures
            value == self.spec_stable_id(),
    {
        match self {
            Self::WavefolderGain => "color_wavefolder.gain",
            Self::WavefolderModulus => "color_wavefolder.modulus",
            Self::LensStrength => "lens_distortion.strength",
            Self::LensRadialK2 => "lens_distortion.radial_k2",
            Self::LensRadialK3 => "lens_distortion.radial_k3",
            Self::LensCenterX => "lens_distortion.center.x",
            Self::LensCenterY => "lens_distortion.center.y",
            Self::LensScaleX => "lens_distortion.scale.x",
            Self::LensScaleY => "lens_distortion.scale.y",
            Self::LensTangentialX => "lens_distortion.tangential.x",
            Self::LensTangentialY => "lens_distortion.tangential.y",
            Self::LensZoom => "lens_distortion.zoom",
            Self::LensChromaticAberration => "lens_distortion.chromatic_aberration",
            Self::GaussianBlurSigma => "gaussian_blur.sigma",
            Self::GaussianBlurRadius => "gaussian_blur.radius_pixels",
            Self::BloomThreshold => "bloom.threshold",
            Self::BloomIntensity => "bloom.intensity",
            Self::BloomRadius => "bloom.radius_pixels",
            Self::EdgeStrength => "edge_detection.strength",
            Self::EdgeThreshold => "edge_detection.threshold",
            Self::EdgeMix => "edge_detection.mix",
            Self::EdgeColorR => "edge_detection.color.r",
            Self::EdgeColorG => "edge_detection.color.g",
            Self::EdgeColorB => "edge_detection.color.b",
        }
    }

    /// Length in characters of the stable identifier.
    pub open spec fn stable_id_length(self) -> nat {
        match self {
            Self::WavefolderGain => 21,
            Self::WavefolderModulus | Self::LensStrength | Self::LensCenterX | Self::LensCenterY | Self::EdgeThreshold => 24,
            Self::LensRadialK2 | Self::LensRadialK3 => 25,
            Self::LensScaleX | Self::LensScaleY | Self::EdgeStrength => 23,
            Self::LensTangentialX | Self::LensTangentialY => 28,
            Self::LensZoom => 20,
            Self::LensChromaticAberration => 36,
            Self::GaussianBlurSigma | Self::BloomRadius => 19,
            Self::GaussianBlurRadius => 27,
            Self::BloomThreshold | Self::BloomIntensity => 15,
            Self::EdgeMix => 18,
            Self::EdgeColorR | Self::EdgeColorG | Self::EdgeColorB => 22,
        }
    }

    /// The parameter whose stable identifier is `stable_id`, if any.
    pub open spec fn spec_from_stable_id(stable_id: Seq<char>) -> Option<EffectNumericParameter> {
        if exists|parameter: EffectNumericParameter| parameter.spec_stable_id()@ == stable_id {
            Some(choose|parameter: EffectNumericParameter| parameter.spec_stable_id()@ == stable_id)
        } else {
            None
        }
    }

    /// The parameter whose stable identifier is `stable_id`, if any.
    pub fn from_stable_id(stable_id: &str) -> (found: Option<EffectNumericParameter>)
        ensures
            found == Self::spec_from_stable_id(stable_id@),
    {
        let all = Self::all();
        let mut i: usize = 0;
        while i < all.len()
            invariant
                all@ == Self::spec_all(),
                i <= all@.len(),
                forall|j: int| 0 <= j < i ==> all@[j].spec_stable_id()@ != stable_id@,
            decreases all@.len() - i,
        {
            if crate::text::str_equal(all[i].stable_id(), stable_id) {
                proof {
                    let chosen = choose|parameter: EffectNumericParameter| parameter.spec_stable_id()@ == stable_id@;
                    stable_ids_are_distinct(chosen, all@[i as int]);
                }
                return Some(all[i]);
            }
            i += 1;
        }
        proof {
            assert forall|parameter: EffectNumericParameter| parameter.spec_stable_id()@ != stable_id@ by {
                lemma_listed(parameter);
            }
        }
        None
    }

    /// The long label of the parameter: its stable identifier.
    pub fn label(self) -> (text: &'static str)
        ensures
            text == self.spec_stable_id(),
    {
        self.stable_id()
    }

    /// Short label shown in the control-page columns.
    pub open spec fn spec_short_label(self) -> &'static str {
        match self {
            Self::WavefolderGain => "gain",
            Self::WavefolderModulus => "mod",
            Self::LensStrength | Self::EdgeStrength => "strength",
            Self::LensRadialK2 => "k2",
            Self::LensRadialK3 => "k3",
            Self::LensCenterX => "center.x",
            Self::LensCenterY => "center.y",
            Self::LensScaleX => "scale.x",
            Self::LensScaleY => "scale.y",
            Self::LensTangentialX => "tan.x",
            Self::LensTangentialY => "tan.y",
            Self::LensZoom => "zoom",
            Self::LensChromaticAberration => "ca",
            Self::GaussianBlurSigma => "sigma",
            Self::GaussianBlurRadius | Self::BloomRadius => "radius",
            Self::BloomThreshold | Self::EdgeThreshold => "threshold",
            Self::BloomIntensity => "intensity",
            Self::EdgeMix => "mix",
            Self::EdgeColorR => "color.r",
            Self::EdgeColorG => "color.g",
            Self::EdgeColorB => "color.b",
        }
    }

    /// Short label shown in the control-page columns.
    pub fn short_label(self) -> (value: &'static str)
        ensures
            value == self.spec_short_label(),
    {
        match self {
            Self::WavefolderGain => "gain",
            Self::WavefolderModulus => "mod",
            Self::LensStrength | Self::EdgeStrength => "strength",
            Self::LensRadialK2 => "k2",
            Self::LensRadialK3 => "k3",
            Self::LensCenterX => "center.x",
            Self::LensCenterY => "center.y",
            Self::LensScaleX => "scale.x",
            Self::LensScaleY => "scale.y",
            Self::LensTangentialX => "tan.x",
            Self::LensTangentialY => "tan.y",
            Self::LensZoom => "zoom",
            Self::LensChromaticAberration => "ca",
            Self::GaussianBlurSigma => "sigma",
            Self::GaussianBlurRadius | Self::BloomRadius => "radius",
            Self::BloomThreshold | Self::EdgeThreshold => "threshold",
            Self::BloomIntensity => "intensity",
            Self::EdgeMix => "mix",
            Self::EdgeColorR => "color.r",
            Self::EdgeColorG => "color.g",
            Self::EdgeColorB => "color.b",
        }
    }

    /// The effect the parameter belongs to.
    pub open spec fn spec_effect_group(self) -> EffectGroup {
        match self {
            Self::WavefolderGain | Self::WavefolderModulus => EffectGroup::ColorWavefolder,
            Self::LensStrength | Self::LensRadialK2 | Self::LensRadialK3 | Self::LensCenterX | Self::LensCenterY | Self::LensScaleX | Self::LensScaleY | Self::LensTangentialX | Self::LensTangentialY | Self::LensZoom | Self::LensChromaticAberration => EffectGroup::LensDistortion,
            Self::GaussianBlurSigma | Self::GaussianBlurRadius => EffectGroup::GaussianBlur,
            Self::BloomThreshold | Self::BloomIntensity | Self::BloomRadius => EffectGroup::Bloom,
            Self::EdgeStrength | Self::EdgeThreshold | Self::EdgeMix | Self::EdgeColorR | Self::EdgeColorG | Self::EdgeColorB => EffectGroup::EdgeDetection,
        }
    }

    /// The effect the parameter belongs to.
    pub fn effect_group(self) -> (value: EffectGroup)
        ensures
            value == self.spec_effect_group(),
    {
        match self {
            Self::WavefolderGain | Self::WavefolderModulus => EffectGroup::ColorWavefolder,
            Self::LensStrength | Self::LensRadialK2 | Self::LensRadialK3 | Self::LensCenterX | Self::LensCenterY | Self::LensScaleX | Self::LensScaleY | Self::LensTangentialX | Self::LensTangentialY | Self::LensZoom | Self::LensChromaticAberration => EffectGroup::LensDistortion,
            Self::GaussianBlurSigma | Self::GaussianBlurRadius => EffectGroup::GaussianBlur,
            Self::BloomThreshold | Self::BloomIntensity | Self::BloomRadius => EffectGroup::Bloom,
            Self::EdgeStrength | Self::EdgeThreshold | Self::EdgeMix | Self::EdgeColorR | Self::EdgeColorG | Self::EdgeColorB => EffectGroup::EdgeDetection,
        }
    }

    /// Whether the parameter only takes whole numbers.
    pub open spec fn spec_is_integer(self) -> bool {
        match self {
            Self::WavefolderGain | Self::WavefolderModulus | Self::LensStrength | Self::LensRadialK2 | Self::LensRadialK3 | Self::LensCenterX | Self::LensCenterY | Self::LensScaleX | Self::LensScaleY | Self::LensTangentialX | Self::LensTangentialY | Self::LensZoom | Self::LensChromaticAberration | Self::GaussianBlurSigma | Self::BloomThreshold | Self::BloomIntensity | Self::EdgeStrength | Self::EdgeThreshold | Self::EdgeMix | Self::EdgeColorR | Self::EdgeColorG | Self::EdgeColorB => false,
            Self::GaussianBlurRadius | Self::BloomRadius => true,
        }
    }

    /// Whether the parameter only takes whole numbers.
    pub fn is_integer(self) -> (value: bool)
        ensures
            value == self.spec_is_integer(),
    {
        match self {
            Self::WavefolderGain | Self::WavefolderModulus | Self::LensStrength | Self::LensRadialK2 | Self::LensRadialK3 | Self::LensCenterX | Self::LensCenterY | Self::LensScaleX | Self::LensScaleY | Self::LensTangentialX | Self::LensTangentialY | Self::LensZoom | Self::LensChromaticAberration | Self::GaussianBlurSigma | Self::BloomThreshold | Self::BloomIntensity | Self::EdgeStrength | Self::EdgeThreshold | Self::EdgeMix | Self::EdgeColorR | Self::EdgeColorG | Self::EdgeColorB => false,
            Self::GaussianBlurRadius | Self::BloomRadius => true,
        }
    }

}

/// Every effect parameter appears in the control-page list.
pub proof fn lemma_listed(parameter: EffectNumericParameter)
    ensures
        EffectNumericParameter::spec_all().contains(parameter),
{
    match parameter {
        EffectNumericParameter::WavefolderGain => assert(EffectNumericParameter::spec_all()[0] == parameter),
        EffectNumericParameter::WavefolderModulus => assert(EffectNumericParameter::spec_all()[1] == parameter),
        EffectNumericParameter::LensStrength => assert(EffectNumericParameter::spec_all()[2] == parameter),
        EffectNumericParameter::LensRadialK2 => assert(EffectNumericParameter::spec_all()[3] == parameter),
        EffectNumericParameter::LensRadialK3 => assert(EffectNumericParameter::spec_all()[4] == parameter),
        EffectNumericParameter::LensCenterX => assert(EffectNumericParameter::spec_all()[5] == parameter),
        EffectNumericParameter::LensCenterY => assert(EffectNumericParameter::spec_all()[6] == parameter),
        EffectNumericParameter::LensScaleX => assert(EffectNumericParameter::spec_all()[7] == parameter),
        EffectNumericParameter::LensScaleY => assert(EffectNumericParameter::spec_all()[8] == parameter),
        EffectNumericParameter::LensTangentialX => assert(EffectNumericParameter::spec_all()[9] == parameter),
        EffectNumericParameter::LensTangentialY => assert(EffectNumericParameter::spec_all()[10] == parameter),
        EffectNumericParameter::LensZoom => assert(EffectNumericParameter::spec_all()[11] == parameter),
        EffectNumericParameter::LensChromaticAberration => assert(EffectNumericParameter::spec_all()[12] == parameter),
        EffectNumericParameter::GaussianBlurSigma => assert(EffectNumericParameter::spec_all()[13] == parameter),
        EffectNumericParameter::GaussianBlurRadius => assert(EffectNumericParameter::spec_all()[14] == parameter),
        EffectNumericParameter::BloomThreshold => assert(EffectNumericParameter::spec_all()[15] == parameter),
        EffectNumericParameter::BloomIntensity => assert(EffectNumericParameter::spec_all()[16] == parameter),
        EffectNumericParameter::BloomRadius => assert(EffectNumericParameter::spec_all()[17] == parameter),
        EffectNumericParameter::EdgeStrength => assert(EffectNumericParameter::spec_all()[18] == parameter),
        EffectNumericParameter::EdgeThreshold => assert(EffectNumericParameter::spec_all()[19] == parameter),
        EffectNumericParameter::EdgeMix => assert(EffectNumericParameter::spec_all()[20] == parameter),
        EffectNumericParameter::EdgeColorR => assert(EffectNumericParameter::spec_all()[21] == parameter),
        EffectNumericParameter::EdgeColorG => assert(EffectNumericParameter::spec_all()[22] == parameter),
        EffectNumericParameter::EdgeColorB => assert(EffectNumericParameter::spec_all()[23] == parameter),
    }
}

proof fn lemma_stable_id_length(parameter: EffectNumericParameter)
    ensures
        parameter.spec_stable_id()@.len() == parameter.stable_id_length(),
{
    broadcast use vstd::string::group_string_axioms;
    match parameter {
        EffectNumericParameter::WavefolderGain => reveal_strlit("color_wavefolder.gain"),
        EffectNumericParameter::WavefolderModulus => reveal_strlit("color_wavefolder.modulus"),
        EffectNumericParameter::LensStrength => reveal_strlit("lens_distortion.strength"),
        EffectNumericParameter::LensRadialK2 => reveal_strlit("lens_distortion.radial_k2"),
        EffectNumericParameter::LensRadialK3 => reveal_strlit("lens_distortion.radial_k3"),
        EffectNumericParameter::LensCenterX => reveal_strlit("lens_distortion.center.x"),
        EffectNumericParameter::LensCenterY => reveal_strlit("lens_distortion.center.y"),
        EffectNumericParameter::LensScaleX => reveal_strlit("lens_distortion.scale.x"),
        EffectNumericParameter::LensScaleY => reveal_strlit("lens_distortion.scale.y"),
        EffectNumericParameter::LensTangentialX => reveal_strlit("lens_distortion.tangential.x"),
        EffectNumericParameter::LensTangentialY => reveal_strlit("lens_distortion.tangential.y"),
        EffectNumericParameter::LensZoom => reveal_strlit("lens_distortion.zoom"),
        EffectNumericParameter::LensChromaticAberration => reveal_strlit("lens_distortion.chromatic_aberration"),
        EffectNumericParameter::GaussianBlurSigma => reveal_strlit("gaussian_blur.sigma"),
        EffectNumericParameter::GaussianBlurRadius => reveal_strlit("gaussian_blur.radius_pixels"),
        EffectNumericParameter::BloomThreshold => reveal_strlit("bloom.threshold"),
        EffectNumericParameter::BloomIntensity => reveal_strlit("bloom.intensity"),
        EffectNumericParameter::BloomRadius => reveal_strlit("bloom.radius_pixels"),
        EffectNumericParameter::EdgeStrength => reveal_strlit("edge_detection.strength"),
        EffectNumericParameter::EdgeThreshold => reveal_strlit("edge_detection.threshold"),
        EffectNumericParameter::EdgeMix => reveal_strlit("edge_detection.mix"),
        EffectNumericParameter::EdgeColorR => reveal_strlit("edge_detection.color.r"),
        EffectNumericParameter::EdgeColorG => reveal_strlit("edge_detection.color.g"),
        EffectNumericParameter::EdgeColorB => reveal_strlit("edge_detection.color.b"),
    }
}

/// Distinct effect parameters have distinct stable identifiers, so a stored
/// identifier names exactly one parameter.
pub proof fn stable_ids_are_distinct(a: EffectNumericParameter, b: EffectNumericParameter)
    requires
        a.spec_stable_id()@ == b.spec_stable_id()@,
    ensures
        a == b,
{
    broadcast use vstd::string::group_string_axioms;
    lemma_stable_id_length(a);
    lemma_stable_id_length(b);
    match a {
        EffectNumericParameter::WavefolderGain => {},
        EffectNumericParameter::WavefolderModulus => {
            reveal_strlit("color_wavefolder.modulus");
            match b {
                EffectNumericParameter::LensStrength => {
                    reveal_strlit("lens_distortion.strength");
                    assert("color_wavefolder.modulus"@[0] != "lens_distortion.strength"@[0]);
                },
                EffectNumericParameter::LensCenterX => {
                    reveal_strlit("lens_distortion.center.x");
                    assert("color_wavefolder.modulus"@[0] != "lens_distortion.center.x"@[0]);
                },
                EffectNumericParameter::LensCenterY => {
                    reveal_strlit("lens_distortion.center.y");
                    assert("color_wavefolder.modulus"@[0] != "lens_distortion.center.y"@[0]);
                },
                EffectNumericParameter::EdgeThreshold => {
                    reveal_strlit("edge_detection.threshold");
                    assert("color_wavefolder.modulus"@[0] != "edge_detection.threshold"@[0]);
                },
                _ => {},
            }
        },
        EffectNumericParameter::LensStrength => {
            reveal_strlit("lens_distortion.strength");
            match b {
                EffectNumericParameter::WavefolderModulus => {
                    reveal_strlit("color_wavefolder.modulus");
                    assert("lens_distortion.strength"@[0] != "color_wavefolder.modulus"@[0]);
                },
                EffectNumericParameter::LensCenterX => {
                    reveal_strlit("lens_distortion.center.x");
                    assert("lens_distortion.strength"@[16] != "lens_distortion.center.x"@[16]);
                },
                EffectNumericParameter::LensCenterY => {
                    reveal_strlit("lens_distortion.center.y");
                    assert("lens_distortion.strength"@[16] != "lens_distortion.center.y"@[16]);
                },
                EffectNumericParameter::EdgeThreshold => {
                    reveal_strlit("edge_detection.threshold");
                    assert("lens_distortion.strength"@[0] != "edge_detection.threshold"@[0]);
                },
                _ => {},
            }
        },
        EffectNumericParameter::LensRadialK2 => {
            reveal_strlit("lens_distortion.radial_k2");
            match b {
                EffectNumericParameter::LensRadialK3 => {
                    reveal_strlit("lens_distortion.radial_k3");
                    assert("lens_distortion.radial_k2"@[24] != "lens_distortion.radial_k3"@[24]);
                },
                _ => {},
            }
        },
        EffectNumericParameter::LensRadialK3 => {
            reveal_strlit("lens_distortion.radial_k3");
            match b {
                EffectNumericParameter::LensRadialK2 => {
                    reveal_strlit("lens_distortion.radial_k2");
                    assert("lens_distortion.radial_k3"@[24] != "lens_distortion.radial_k2"@[24]);
                },
                _ => {},
            }
        },
        EffectNumericParameter::LensCenterX => {
            reveal_strlit("lens_distortion.center.x");
            match b {
                EffectNumericParameter::WavefolderModulus => {
                    reveal_strlit("color_wavefolder.modulus");
                    assert("lens_distortion.center.x"@[0] != "color_wavefolder.modulus"@[0]);
                },
                EffectNumericParameter::LensStrength => {
                    reveal_strlit("lens_distortion.strength");
                    assert("lens_distortion.center.x"@[16] != "lens_distortion.strength"@[16]);
                },
                EffectNumericParameter::LensCenterY => {
                    reveal_strlit("lens_distortion.center.y");
                    assert("lens_distortion.center.x"@[23] != "lens_distortion.center.y"@[23]);
                },
                EffectNumericParameter::EdgeThreshold => {
                    reveal_strlit("edge_detection.threshold");
                    assert("lens_distortion.center.x"@[0] != "edge_detection.threshold"@[0]);
                },
                _ => {},
            }
        },
        EffectNumericParameter::LensCenterY => {
            reveal_strlit("lens_distortion.center.y");
            match b {
                EffectNumericParameter::WavefolderModulus => {
                    reveal_strlit("color_wavefolder.modulus");
                    assert("lens_distortion.center.y"@[0] != "color_wavefolder.modulus"@[0]);
                },
                EffectNumericParameter::LensStrength => {
                    reveal_strlit("lens_distortion.strength");
                    assert("lens_distortion.center.y"@[16] != "lens_distortion.strength"@[16]);
                },
                EffectNumericParameter::LensCenterX => {
                    reveal_strlit("lens_distortion.center.x");
                    assert("lens_distortion.center.y"@[23] != "lens_distortion.center.x"@[23]);
                },
                EffectNumericParameter::EdgeThreshold => {
                    reveal_strlit("edge_detection.threshold");
                    assert("lens_distortion.center.y"@[0] != "edge_detection.threshold"@[0]);
                },
                _ => {},
            }
        },
        EffectNumericParameter::LensScaleX => {
            reveal_strlit("lens_distortion.scale.x");
            match b {
                EffectNumericParameter::LensScaleY => {
                    reveal_strlit("lens_distortion.scale.y");
                    assert("lens_distortion.scale.x"@[22] != "lens_distortion.scale.y"@[22]);
                },
                EffectNumericParameter::EdgeStrength => {
                    reveal_strlit("edge_detection.strength");
                    assert("lens_distortion.scale.x"@[0] != "edge_detection.strength"@[0]);
                },
                _ => {},
            }
        },
        EffectNumericParameter::LensScaleY => {
            reveal_strlit("lens_distortion.scale.y");
            match b {
                EffectNumericParameter::LensScaleX => {
                    reveal_strlit("lens_distortion.scale.x");
                    assert("lens_distortion.scale.y"@[22] != "lens_distortion.scale.x"@[22]);
                },
                EffectNumericParameter::EdgeStrength => {
                    reveal_strlit("edge_detection.strength");
                    assert("lens_distortion.scale.y"@[0] != "edge_detection.strength"@[0]);
                },
                _ => {},
            }
        },
        EffectNumericParameter::LensTangentialX => {
            reveal_strlit("lens_distortion.tangential.x");
            match b {
                EffectNumericParameter::LensTangentialY => {
                    reveal_strlit("lens_distortion.tangential.y");
                    assert("lens_distortion.tangential.x"@[27] != "lens_distortion.tangential.y"@[27]);
                },
                _ => {},
            }
        },
        EffectNumericParameter::LensTangentialY => {
            reveal_strlit("lens_distortion.tangential.y");
            match b {
                EffectNumericParameter::LensTangentialX => {
                    reveal_strlit("lens_distortion.tangential.x");
                    assert("lens_distortion.tangential.y"@[27] != "lens_distortion.tangential.x"@[27]);
                },
                _ => {},
            }
        },
        EffectNumericParameter::LensZoom => {},
        EffectNumericParameter::LensChromaticAberration => {},
        EffectNumericParameter::GaussianBlurSigma => {
            reveal_strlit("gaussian_blur.sigma");
            match b {
                EffectNumericParameter::BloomRadius => {
                    reveal_strlit("bloom.radius_pixels");
                    assert("gaussian_blur.sigma"@[0] != "bloom.radius_pixels"@[0]);
                },
                _ => {},
            }
        },
        EffectNumericParameter::GaussianBlurRadius => {},
        EffectNumericParameter::BloomThreshold => {
            reveal_strlit("bloom.threshold");
            match b {
                EffectNumericParameter::BloomIntensity => {
                    reveal_strlit("bloom.intensity");
                    assert("bloom.threshold"@[6] != "bloom.intensity"@[6]);
                },
                _ => {},
            }
        },
        EffectNumericParameter::BloomIntensity => {
            reveal_strlit("bloom.intensity");
            match b {
                EffectNumericParameter::BloomThreshold => {
                    reveal_strlit("bloom.threshold");
                    assert("bloom.intensity"@[6] != "bloom.threshold"@[6]);
                },
                _ => {},
            }
        },
        EffectNumericParameter::BloomRadius => {
            reveal_strlit("bloom.radius_pixels");
            match b {
                EffectNumericParameter::GaussianBlurSigma => {
                    reveal_strlit("gaussian_blur.sigma");
                    assert("bloom.radius_pixels"@[0] != "gaussian_blur.sigma"@[0]);
                },
                _ => {},
            }
        },
        EffectNumericParameter::EdgeStrength => {
            reveal_strlit("edge_detection.strength");
            match b {
                EffectNumericParameter::LensScaleX => {
                    reveal_strlit("lens_distortion.scale.x");
                    assert("edge_detection.strength"@[0] != "lens_distortion.scale.x"@[0]);
                },
                EffectNumericParameter::LensScaleY => {
                    reveal_strlit("lens_distortion.scale.y");
                    assert("edge_detection.strength"@[0] != "lens_distortion.scale.y"@[0]);
                },
                _ => {},
            }
        },
        EffectNumericParameter::EdgeThreshold => {
            reveal_strlit("edge_detection.threshold");
            match b {
                EffectNumericParameter::WavefolderModulus => {
                    reveal_strlit("color_wavefolder.modulus");
                    assert("edge_detection.threshold"@[0] != "color_wavefolder.modulus"@[0]);
                },
                EffectNumericParameter::LensStrength => {
                    reveal_strlit("lens_distortion.strength");
                    assert("edge_detection.threshold"@[0] != "lens_distortion.strength"@[0]);
                },
                EffectNumericParameter::LensCenterX => {
                    reveal_strlit("lens_distortion.center.x");
                    assert("edge_detection.threshold"@[0] != "lens_distortion.center.x"@[0]);
                },
                EffectNumericParameter::LensCenterY => {
                    reveal_strlit("lens_distortion.center.y");
                    assert("edge_detection.threshold"@[0] != "lens_distortion.center.y"@[0]);
                },
                _ => {},
            }
        },
        EffectNumericParameter::EdgeMix => {},
        EffectNumericParameter::EdgeColorR => {
            reveal_strlit("edge_detection.color.r");
            match b {
                EffectNumericParameter::EdgeColorG => {
                    reveal_strlit("edge_detection.color.g");
                    assert("edge_detection.color.r"@[21] != "edge_detection.color.g"@[21]);
                },
                EffectNumericParameter::EdgeColorB => {
                    reveal_strlit("edge_detection.color.b");
                    assert("edge_detection.color.r"@[21] != "edge_detection.color.b"@[21]);
                },
                _ => {},
            }
        },
        EffectNumericParameter::EdgeColorG => {
            reveal_strlit("edge_detection.color.g");
            match b {
                EffectNumericParameter::EdgeColorR => {
                    reveal_strlit("edge_detection.color.r");
                    assert("edge_detection.color.g"@[21] != "edge_detection.color.r"@[21]);
                },
                EffectNumericParameter::EdgeColorB => {
                    reveal_strlit("edge_detection.color.b");
                    assert("edge_detection.color.g"@[21] != "edge_detection.color.b"@[21]);
                },
                _ => {},
            }
        },
        EffectNumericParameter::EdgeColorB => {
            reveal_strlit("edge_detection.color.b");
            match b {
                EffectNumericParameter::EdgeColorR => {
                    reveal_strlit("edge_detection.color.r");
                    assert("edge_detection.color.b"@[21] != "edge_detection.color.r"@[21]);
                },
                EffectNumericParameter::EdgeColorG => {
                    reveal_strlit("edge_detection.color.g");
                    assert("edge_detection.color.b"@[21] != "edge_detection.color.g"@[21]);
                },
                _ => {},
            }
        },
    }
}

/// Looking up the stable identifier of an effect parameter gives the parameter back.
pub proof fn stable_id_round_trip(parameter: EffectNumericParameter)
    ensures
        EffectNumericParameter::spec_from_stable_id(parameter.spec_stable_id()@) == Some(parameter),
{
    let chosen = choose|p: EffectNumericParameter| p.spec_stable_id()@ == parameter.spec_stable_id()@;
    stable_ids_are_distinct(chosen, parameter);
}

/// The effect parameter list names each parameter once.
pub proof fn lemma_all_distinct()
    ensures
        forall|i: int, j: int|
            0 <= i < j < EffectNumericParameter::spec_all().len()
                ==> EffectNumericParameter::spec_all()[i] != EffectNumericParameter::spec_all()[j],
{
}

/// Every effect parameter's stable identifier starts with the label of its effect
/// followed by a dot, so identifiers are grouped by effect.
pub proof fn stable_id_begins_with_effect_label(parameter: EffectNumericParameter)
    ensures
        ({
            let id = parameter.spec_stable_id()@;
            let label = parameter.spec_effect_group().spec_label()@;
            &&& label.len() < id.len()
            &&& id.subrange(0, label.len() as int) == label
            &&& id[label.len() as int] == '.'
        }),
{
    broadcast use vstd::string::group_string_axioms;
    match parameter {
        EffectNumericParameter::WavefolderGain => {
            reveal_strlit("color_wavefolder.gain");
            reveal_strlit("color_wavefolder");
            assert(parameter.spec_stable_id()@.subrange(0, 16) =~= "color_wavefolder"@);
        },
        EffectNumericParameter::WavefolderModulus => {
            reveal_strlit("color_wavefolder.modulus");
            reveal_strlit("color_wavefolder");
            assert(parameter.spec_stable_id()@.subrange(0, 16) =~= "color_wavefolder"@);
        },
        EffectNumericParameter::LensStrength => {
            reveal_strlit("lens_distortion.strength");
            reveal_strlit("lens_distortion");
            assert(parameter.spec_stable_id()@.subrange(0, 15) =~= "lens_distortion"@);
        },
        EffectNumericParameter::LensRadialK2 => {
            reveal_strlit("lens_distortion.radial_k2");
            reveal_strlit("lens_distortion");
            assert(parameter.spec_stable_id()@.subrange(0, 15) =~= "lens_distortion"@);
        },
        EffectNumericParameter::LensRadialK3 => {
            reveal_strlit("lens_distortion.radial_k3");
            reveal_strlit("lens_distortion");
            assert(parameter.spec_stable_id()@.subrange(0, 15) =~= "lens_distortion"@);
        },
        EffectNumericParameter::LensCenterX => {
            reveal_strlit("lens_distortion.center.x");
            reveal_strlit("lens_distortion");
            assert(parameter.spec_stable_id()@.subrange(0, 15) =~= "lens_distortion"@);
        },
        EffectNumericParameter::LensCenterY => {
            reveal_strlit("lens_distortion.center.y");
            reveal_strlit("lens_distortion");
            assert(parameter.spec_stable_id()@.subrange(0, 15) =~= "lens_distortion"@);
        },
        EffectNumericParameter::LensScaleX => {
            reveal_strlit("lens_distortion.scale.x");
            reveal_strlit("lens_distortion");
            assert(parameter.spec_stable_id()@.subrange(0, 15) =~= "lens_distortion"@);
        },
        EffectNumericParameter::LensScaleY => {
            reveal_strlit("lens_distortion.scale.y");
            reveal_strlit("lens_distortion");
            assert(parameter.spec_stable_id()@.subrange(0, 15) =~= "lens_distortion"@);
        },
        EffectNumericParameter::LensTangentialX => {
            reveal_strlit("lens_distortion.tangential.x");
            reveal_strlit("lens_distortion");
            assert(parameter.spec_stable_id()@.subrange(0, 15) =~= "lens_distortion"@);
        },
        EffectNumericParameter::LensTangentialY => {
            reveal_strlit("lens_distortion.tangential.y");
            reveal_strlit("lens_distortion");
            assert(parameter.spec_stable_id()@.subrange(0, 15) =~= "lens_distortion"@);
        },
        EffectNumericParameter::LensZoom => {
            reveal_strlit("lens_distortion.zoom");
            reveal_strlit("lens_distortion");
            assert(parameter.spec_stable_id()@.subrange(0, 15) =~= "lens_distortion"@);
        },
        EffectNumericParameter::LensChromaticAberration => {
            reveal_strlit("lens_distortion.chromatic_aberration");
            reveal_strlit("lens_distortion");
            assert(parameter.spec_stable_id()@.subrange(0, 15) =~= "lens_distortion"@);
        },
        EffectNumericParameter::GaussianBlurSigma => {
            reveal_strlit("gaussian_blur.sigma");
            reveal_strlit("gaussian_blur");
            assert(parameter.spec_stable_id()@.subrange(0, 13) =~= "gaussian_blur"@);
        },
        EffectNumericParameter::GaussianBlurRadius => {
            reveal_strlit("gaussian_blur.radius_pixels");
            reveal_strlit("gaussian_blur");
            assert(parameter.spec_stable_id()@.subrange(0, 13) =~= "gaussian_blur"@);
        },
        EffectNumericParameter::BloomThreshold => {
            reveal_strlit("bloom.threshold");
            reveal_strlit("bloom");
            assert(parameter.spec_stable_id()@.subrange(0, 5) =~= "bloom"@);
        },
        EffectNumericParameter::BloomIntensity => {
            reveal_strlit("bloom.intensity");
            reveal_strlit("bloom");
            assert(parameter.spec_stable_id()@.subrange(0, 5) =~= "bloom"@);
        },
        EffectNumericParameter::BloomRadius => {
            reveal_strlit("bloom.radius_pixels");
            reveal_strlit("bloom");
            assert(parameter.spec_stable_id()@.subrange(0, 5) =~= "bloom"@);
        },
        EffectNumericParameter::EdgeStrength => {
            reveal_strlit("edge_detection.strength");
            reveal_strlit("edge_detection");
            assert(parameter.spec_stable_id()@.subrange(0, 14) =~= "edge_detection"@);
        },
        EffectNumericParameter::EdgeThreshold => {
            reveal_strlit("edge_detection.threshold");
            reveal_strlit("edge_detection");
            assert(parameter.spec_stable_id()@.subrange(0, 14) =~= "edge_detection"@);
        },
        EffectNumericParameter::EdgeMix => {
            reveal_strlit("edge_detection.mix");
            reveal_strlit("edge_detection");
            assert(parameter.spec_stable_id()@.subrange(0, 14) =~= "edge_detection"@);
        },
        EffectNumericParameter::EdgeColorR => {
            reveal_strlit("edge_detection.color.r");
            reveal_strlit("edge_detection");
            assert(parameter.spec_stable_id()@.subrange(0, 14) =~= "edge_detection"@);
        },
        EffectNumericParameter::EdgeColorG => {
            reveal_strlit("edge_detection.color.g");
            reveal_strlit("edge_detection");
            assert(parameter.spec_stable_id()@.subrange(0, 14) =~= "edge_detection"@);
        },
        EffectNumericParameter::EdgeColorB => {
            reveal_strlit("edge_detection.color.b");
            reveal_strlit("edge_detection");
            assert(parameter.spec_stable_id()@.subrange(0, 14) =~= "edge_detection"@);
        },
    }
}

} // verus!
