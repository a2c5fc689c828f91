//! The combined list of parameters on the live control page and the layout of
//! their LFO slots: every effect parameter first, then every LFO-capable scene
//! parameter.
use vstd::prelude::*;
use crate::effect_catalog::{EffectGroup, EffectNumericParameter};
use crate::scene_catalog::{EffectTunerSceneParameter, SceneChangeTarget};

verus! {

/// A parameter on the live control page: an effect parameter or a scene parameter.
#[derive(Clone, Copy, Debug, PartialEq, Eq, Structural)]
pub enum EffectTunerParameter {
    Effect(EffectNumericParameter),
    Scene(EffectTunerSceneParameter),
}


/// Which parts of the scene an LFO pass changed.
#[derive(Clone, Copy, Debug, PartialEq, Eq, Structural)]
pub struct SceneLfoApplicationResult {
    pub generation_changed: bool,
    pub materials_changed: bool,
    pub rendering_changed: bool,
    pub stage_changed: bool,
    pub lighting_changed: bool,
    pub camera_changed: bool,
}

impl SceneLfoApplicationResult {
    /// `self` with the flag of `target` raised.
    pub open spec fn with_change(self, target: SceneChangeTarget) -> SceneLfoApplicationResult {
        match target {
            SceneChangeTarget::Nothing => self,
            SceneChangeTarget::Generation => SceneLfoApplicationResult { generation_changed: true, ..self },
            SceneChangeTarget::Materials => SceneLfoApplicationResult { materials_changed: true, ..self },
            SceneChangeTarget::Stage => SceneLfoApplicationResult { stage_changed: true, ..self },
            SceneChangeTarget::Rendering => SceneLfoApplicationResult { rendering_changed: true, ..self },
            SceneChangeTarget::Lighting => SceneLfoApplicationResult { lighting_changed: true, ..self },
            SceneChangeTarget::Camera => SceneLfoApplicationResult { camera_changed: true, ..self },
        }
    }
}

impl Default for SceneLfoApplicationResult {
    fn default() -> (result: SceneLfoApplicationResult)
        ensures
            !result.generation_changed && !result.materials_changed && !result.rendering_changed
                && !result.stage_changed && !result.lighting_changed && !result.camera_changed,
    {
        SceneLfoApplicationResult {
            generation_changed: false,
            materials_changed: false,
            rendering_changed: false,
            stage_changed: false,
            lighting_changed: false,
            camera_changed: false,
        }
    }
}

/// The part of the scene that an LFO moving `parameter` refreshes: the change target of
/// numeric parameters; nothing for choices and switches, which LFOs never move.
pub open spec fn lfo_change_target(parameter: EffectTunerSceneParameter) -> SceneChangeTarget {
    if parameter.spec_is_numeric() {
        parameter.spec_change_target()
    } else {
        SceneChangeTarget::Nothing
    }
}

/// Records in `result` that an LFO moved `parameter`.
pub fn mark_scene_lfo_change(result: &mut SceneLfoApplicationResult, parameter: EffectTunerSceneParameter)
    ensures
        *final(result) == old(result).with_change(lfo_change_target(parameter)),
{
    if parameter.is_numeric() {
        match parameter.change_target() {
            SceneChangeTarget::Nothing => {},
            SceneChangeTarget::Generation => result.generation_changed = true,
            SceneChangeTarget::Materials => result.materials_changed = true,
            SceneChangeTarget::Stage => result.stage_changed = true,
            SceneChangeTarget::Rendering => result.rendering_changed = true,
            SceneChangeTarget::Lighting => result.lighting_changed = true,
            SceneChangeTarget::Camera => result.camera_changed = true,
        }
    }
}

impl EffectTunerParameter {
    /// Every control-page parameter, in selection order: the effect parameters,
    /// then the scene parameters.
    pub open spec fn spec_all() -> Seq<EffectTunerParameter> {
        EffectNumericParameter::spec_all().map_values(|parameter: EffectNumericParameter| EffectTunerParameter::Effect(parameter))
            + EffectTunerSceneParameter::spec_all().map_values(|parameter: EffectTunerSceneParameter| EffectTunerParameter::Scene(parameter))
    }

    /// Every control-page parameter, in selection order.
    pub fn all() -> (parameters: Vec<EffectTunerParameter>)
        ensures
            parameters@ == Self::spec_all(),
    {
        let mut parameters: Vec<EffectTunerParameter> = Vec::new();
        let effects = EffectNumericParameter::all();
        let mut i: usize = 0;
        while i < effects.len()
            invariant
                effects@ == EffectNumericParameter::spec_all(),
                i <= effects@.len(),
                parameters@ == effects@.subrange(0, i as int).map_values(|parameter: EffectNumericParameter| EffectTunerParameter::Effect(parameter)),
            decreases effects@.len() - i,
        {
            parameters.push(EffectTunerParameter::Effect(effects[i]));
            proof {
                assert(effects@.subrange(0, i + 1) == effects@.subrange(0, i as int).push(effects@[i as int]));
            }
            i += 1;
        }
        assert(effects@.subrange(0, effects@.len() as int) == effects@);
        let ghost effect_part = parameters@;
        let scenes = EffectTunerSceneParameter::all();
        let mut k: usize = 0;
        while k < scenes.len()
            invariant
                scenes@ == EffectTunerSceneParameter::spec_all(),
                k <= scenes@.len(),
                parameters@ == effect_part + scenes@.subrange(0, k as int).map_values(|parameter: EffectTunerSceneParameter| EffectTunerParameter::Scene(parameter)),
            decreases scenes@.len() - k,
        {
            parameters.push(EffectTunerParameter::Scene(scenes[k]));
            proof {
                assert(scenes@.subrange(0, k + 1) == scenes@.subrange(0, k as int).push(scenes@[k as int]));
            }
            k += 1;
        }
        assert(scenes@.subrange(0, scenes@.len() as int) == scenes@);
        parameters
    }

    /// The identifier under which the parameter is stored in presets.
    pub open spec fn spec_stable_id(self) -> &'static str {
        match self {
            EffectTunerParameter::Effect(parameter) => parameter.spec_stable_id(),
            EffectTunerParameter::Scene(parameter) => parameter.spec_stable_id(),
        }
    }

    /// The identifier under which the parameter is stored in presets.
    pub fn stable_id(self) -> (id: &'static str)
        ensures
            id == self.spec_stable_id(),
    {
        match self {
            EffectTunerParameter::Effect(parameter) => parameter.stable_id(),
            EffectTunerParameter::Scene(parameter) => parameter.stable_id(),
        }
    }

    /// The parameter stored under `stable_id`: an effect parameter if one has this
    /// identifier, otherwise a scene parameter.
    pub open spec fn spec_from_stable_id(stable_id: Seq<char>) -> Option<EffectTunerParameter> {
        match EffectNumericParameter::spec_from_stable_id(stable_id) {
            Some(parameter) => Some(EffectTunerParameter::Effect(parameter)),
            None => match EffectTunerSceneParameter::spec_from_stable_id(stable_id) {
                Some(parameter) => Some(EffectTunerParameter::Scene(parameter)),
                None => None,
            },
        }
    }

    /// The parameter stored under `stable_id`, if any.
    pub fn from_stable_id(stable_id: &str) -> (found: Option<EffectTunerParameter>)
        ensures
            found == Self::spec_from_stable_id(stable_id@),
    {
        match EffectNumericParameter::from_stable_id(stable_id) {
            Some(parameter) => Some(EffectTunerParameter::Effect(parameter)),
            None => match EffectTunerSceneParameter::from_stable_id(stable_id) {
                Some(parameter) => Some(EffectTunerParameter::Scene(parameter)),
                None => None,
            },
        }
    }

    /// Long label of the parameter.
    pub fn label(self) -> (text: &'static str)
        ensures
            text == self.spec_stable_id(),
    {
        match self {
            EffectTunerParameter::Effect(parameter) => parameter.label(),
            EffectTunerParameter::Scene(parameter) => parameter.label(),
        }
    }

    /// Short label of the parameter.
    pub open spec fn spec_short_label(self) -> &'static str {
        match self {
            EffectTunerParameter::Effect(parameter) => parameter.spec_short_label(),
            EffectTunerParameter::Scene(parameter) => parameter.spec_short_label(),
        }
    }

    /// Short label of the parameter.
    pub fn short_label(self) -> (text: &'static str)
        ensures
            text == self.spec_short_label(),
    {
        match self {
            EffectTunerParameter::Effect(parameter) => parameter.short_label(),
            EffectTunerParameter::Scene(parameter) => parameter.short_label(),
        }
    }

    /// Group column label: the compact effect name, or the scene group.
    pub open spec fn spec_group_label(self) -> &'static str {
        match self {
            EffectTunerParameter::Effect(parameter) => parameter.spec_effect_group().spec_compact_label(),
            EffectTunerParameter::Scene(parameter) => parameter.spec_group_label(),
        }
    }

    /// Group column label: the compact effect name, or the scene group.
    pub fn group_label(self) -> (text: &'static str)
        ensures
            text == self.spec_group_label(),
    {
        match self {
            EffectTunerParameter::Effect(parameter) => parameter.effect_group().compact_label(),
            EffectTunerParameter::Scene(parameter) => parameter.group_label(),
        }
    }

    /// The effect an effect parameter belongs to; none for scene parameters.
    pub fn effect_group(self) -> (group: Option<EffectGroup>)
        ensures
            group == match self {
                EffectTunerParameter::Effect(parameter) => Some(parameter.spec_effect_group()),
                EffectTunerParameter::Scene(_) => None,
            },
    {
        match self {
            EffectTunerParameter::Effect(parameter) => Some(parameter.effect_group()),
            EffectTunerParameter::Scene(_) => None,
        }
    }

    /// Whether the parameter owns an LFO slot.
    pub open spec fn spec_supports_lfo(self) -> bool {
        match self {
            EffectTunerParameter::Effect(_) => true,
            EffectTunerParameter::Scene(parameter) => EffectTunerSceneParameter::spec_lfo_capable().contains(parameter),
        }
    }

    /// Whether the parameter owns an LFO slot.
    pub fn supports_lfo(self) -> (supported: bool)
        ensures
            supported == self.spec_supports_lfo(),
    {
        match self {
            EffectTunerParameter::Effect(_) => true,
            EffectTunerParameter::Scene(parameter) => parameter.supports_lfo(),
        }
    }

    /// Whether typed digits can set the parameter's value.
    pub open spec fn spec_value_accepts_numeric_input(self) -> bool {
        match self {
            EffectTunerParameter::Effect(_) => true,
            EffectTunerParameter::Scene(parameter) => parameter.spec_is_numeric(),
        }
    }

    /// Whether typed digits can set the parameter's value.
    pub fn value_accepts_numeric_input(self) -> (accepts: bool)
        ensures
            accepts == self.spec_value_accepts_numeric_input(),
    {
        match self {
            EffectTunerParameter::Effect(_) => true,
            EffectTunerParameter::Scene(parameter) => parameter.is_numeric(),
        }
    }
}

/// The parameters that own LFO slots, in slot order: every effect parameter, then
/// every LFO-capable scene parameter.
pub open spec fn spec_lfo_parameters() -> Seq<EffectTunerParameter> {
    EffectNumericParameter::spec_all().map_values(|parameter: EffectNumericParameter| EffectTunerParameter::Effect(parameter))
        + EffectTunerSceneParameter::spec_lfo_capable().map_values(|parameter: EffectTunerSceneParameter| EffectTunerParameter::Scene(parameter))
}

/// The parameters that own LFO slots, in slot order.
pub fn lfo_parameters() -> (parameters: Vec<EffectTunerParameter>)
    ensures
        parameters@ == spec_lfo_parameters(),
{
    let mut parameters: Vec<EffectTunerParameter> = Vec::new();
    let effects = EffectNumericParameter::all();
    let mut i: usize = 0;
    while i < effects.len()
        invariant
            effects@ == EffectNumericParameter::spec_all(),
            i <= effects@.len(),
            parameters@ == effects@.subrange(0, i as int).map_values(|parameter: EffectNumericParameter| EffectTunerParameter::Effect(parameter)),
        decreases effects@.len() - i,
    {
        parameters.push(EffectTunerParameter::Effect(effects[i]));
        proof {
            assert(effects@.subrange(0, i + 1) == effects@.subrange(0, i as int).push(effects@[i as int]));
        }
        i += 1;
    }
    assert(effects@.subrange(0, effects@.len() as int) == effects@);
    let ghost effect_part = parameters@;
    let scenes = EffectTunerSceneParameter::lfo_capable();
    let mut k: usize = 0;
    while k < scenes.len()
        invariant
            scenes@ == EffectTunerSceneParameter::spec_lfo_capable(),
            k <= scenes@.len(),
            parameters@ == effect_part + scenes@.subrange(0, k as int).map_values(|parameter: EffectTunerSceneParameter| EffectTunerParameter::Scene(parameter)),
        decreases scenes@.len() - k,
    {
        parameters.push(EffectTunerParameter::Scene(scenes[k]));
        proof {
            assert(scenes@.subrange(0, k + 1) == scenes@.subrange(0, k as int).push(scenes@[k as int]));
        }
        k += 1;
    }
    assert(scenes@.subrange(0, scenes@.len() as int) == scenes@);
    parameters
}

/// Index of an effect parameter in the effect list.
pub fn effect_parameter_index(parameter: EffectNumericParameter) -> (index: Option<usize>)
    ensures
        match index {
            Some(i) => i < EffectNumericParameter::spec_all().len() && EffectNumericParameter::spec_all()[i as int] == parameter
                && forall|j: int| 0 <= j < i ==> EffectNumericParameter::spec_all()[j] != parameter,
            None => false,
        },
{
    let effects = EffectNumericParameter::all();
    let mut i: usize = 0;
    while i < effects.len()
        invariant
            effects@ == EffectNumericParameter::spec_all(),
            i <= effects@.len(),
            forall|j: int| 0 <= j < i ==> effects@[j] != parameter,
        decreases effects@.len() - i,
    {
        if effects[i] == parameter {
            return Some(i);
        }
        i += 1;
    }
    proof {
        crate::effect_catalog::lemma_listed(parameter);
    }
    None
}

/// Index of the parameter's LFO slot, if it has one.
pub fn lfo_index_for_parameter(parameter: EffectTunerParameter) -> (index: Option<usize>)
    ensures
        match index {
            Some(i) => i < spec_lfo_parameters().len() && spec_lfo_parameters()[i as int] == parameter,
            None => !spec_lfo_parameters().contains(parameter),
        },
        index.is_some() == parameter.spec_supports_lfo(),
{
    let effect_count = EffectNumericParameter::all().len();
    match parameter {
        EffectTunerParameter::Effect(effect) => effect_parameter_index(effect),
        EffectTunerParameter::Scene(scene) => match scene.lfo_scene_index() {
            Some(i) => Some(effect_count + i),
            None => {
                proof {
                    if spec_lfo_parameters().contains(parameter) {
                        let j = choose|j: int| 0 <= j < spec_lfo_parameters().len() && spec_lfo_parameters()[j] == parameter;
                        if j >= 24 {
                            assert(EffectTunerSceneParameter::spec_lfo_capable()[j - 24] == scene);
                        }
                    }
                }
                None
            },
        },
    }
}

/// Seed of the pseudo-random LFO shapes of the slot at `index`.
pub fn lfo_seed_for_index(index: usize) -> (seed: u32)
    requires
        (index as u32) < u32::MAX,
    ensures
        seed == (index as u32) + 1,
{
    index as u32 + 1
}

/// Effect identifiers open with the name of their effect.
proof fn lemma_effect_id_head(parameter: EffectNumericParameter)
    ensures
        parameter.spec_stable_id()@.len() >= 2,
        (parameter.spec_stable_id()@[0] == 'b' && parameter.spec_stable_id()@[1] == 'l') || (parameter.spec_stable_id()@[0] == 'c' && parameter.spec_stable_id()@[1] == 'o') || (parameter.spec_stable_id()@[0] == 'e' && parameter.spec_stable_id()@[1] == 'd') || (parameter.spec_stable_id()@[0] == 'g' && parameter.spec_stable_id()@[1] == 'a') || (parameter.spec_stable_id()@[0] == 'l' && parameter.spec_stable_id()@[1] == 'e'),
{
    broadcast use vstd::string::group_string_axioms;
    match parameter {
        EffectNumericParameter::WavefolderGain => reveal_strlit("color_wavefolder.gain"),
        EffectNumericParameter::WavefolderModulus => reveal_strlit("color_wavefolder.modulus"),
        EffectNumericParameter::LensStrength => reveal_strlit("lens_distortion.strength"),
        EffectNumericParameter::LensRadialK2 => reveal_strlit("lens_distortion.radial_k2"),
        EffectNumericParameter::LensRadialK3 => reveal_strlit("lens_distortion.radial_k3"),
        EffectNumericParameter::LensCenterX => reveal_strlit("lens_distortion.center.x"),
        EffectNumericParameter::LensCenterY => reveal_strlit("lens_distortion.center.y"),
        EffectNumericParameter::LensScaleX => reveal_strlit("lens_distortion.scale.x"),
        EffectNumericParameter::LensScaleY => reveal_strlit("lens_distortion.scale.y"),
        EffectNumericParameter::LensTangentialX => reveal_strlit("lens_distortion.tangential.x"),
        EffectNumericParameter::LensTangentialY => reveal_strlit("lens_distortion.tangential.y"),
        EffectNumericParameter::LensZoom => reveal_strlit("lens_distortion.zoom"),
        EffectNumericParameter::LensChromaticAberration => reveal_strlit("lens_distortion.chromatic_aberration"),
        EffectNumericParameter::GaussianBlurSigma => reveal_strlit("gaussian_blur.sigma"),
        EffectNumericParameter::GaussianBlurRadius => reveal_strlit("gaussian_blur.radius_pixels"),
        EffectNumericParameter::BloomThreshold => reveal_strlit("bloom.threshold"),
        EffectNumericParameter::BloomIntensity => reveal_strlit("bloom.intensity"),
        EffectNumericParameter::BloomRadius => reveal_strlit("bloom.radius_pixels"),
        EffectNumericParameter::EdgeStrength => reveal_strlit("edge_detection.strength"),
        EffectNumericParameter::EdgeThreshold => reveal_strlit("edge_detection.threshold"),
        EffectNumericParameter::EdgeMix => reveal_strlit("edge_detection.mix"),
        EffectNumericParameter::EdgeColorR => reveal_strlit("edge_detection.color.r"),
        EffectNumericParameter::EdgeColorG => reveal_strlit("edge_detection.color.g"),
        EffectNumericParameter::EdgeColorB => reveal_strlit("edge_detection.color.b"),
    }
}

/// Scene identifiers open with the name of their scene section.
proof fn lemma_scene_id_head(parameter: EffectTunerSceneParameter)
    ensures
        parameter.spec_stable_id()@.len() >= 2,
        (parameter.spec_stable_id()@[0] == 'c' && parameter.spec_stable_id()@[1] == 'a') || (parameter.spec_stable_id()@[0] == 'g' && parameter.spec_stable_id()@[1] == 'e') || (parameter.spec_stable_id()@[0] == 'l' && parameter.spec_stable_id()@[1] == 'i') || (parameter.spec_stable_id()@[0] == 'm' && parameter.spec_stable_id()@[1] == 'a') || (parameter.spec_stable_id()@[0] == 'r' && parameter.spec_stable_id()@[1] == 'e') || (parameter.spec_stable_id()@[0] == 's' && parameter.spec_stable_id()@[1] == 't'),
{
    broadcast use vstd::string::group_string_axioms;
    match parameter {
        EffectTunerSceneParameter::ChildKind => reveal_strlit("generation.child_kind"),
        EffectTunerSceneParameter::SpawnPlacementMode => reveal_strlit("generation.spawn_placement_mode"),
        EffectTunerSceneParameter::SpawnAddMode => reveal_strlit("generation.spawn_add_mode"),
        EffectTunerSceneParameter::ChildScaleRatio => reveal_strlit("generation.child_scale_ratio"),
        EffectTunerSceneParameter::ChildAxisScaleX => reveal_strlit("generation.child_axis_scale.x"),
        EffectTunerSceneParameter::ChildAxisScaleY => reveal_strlit("generation.child_axis_scale.y"),
        EffectTunerSceneParameter::ChildAxisScaleZ => reveal_strlit("generation.child_axis_scale.z"),
        EffectTunerSceneParameter::ChildTwistPerVertexRadians => reveal_strlit("generation.child_twist_per_vertex_radians"),
        EffectTunerSceneParameter::ChildOutwardOffsetRatio => reveal_strlit("generation.child_outward_offset_ratio"),
        EffectTunerSceneParameter::ChildSpawnExclusionProbability => reveal_strlit("generation.child_spawn_exclusion_probability"),
        EffectTunerSceneParameter::StageEnabled => reveal_strlit("stage.enabled"),
        EffectTunerSceneParameter::StageFloorEnabled => reveal_strlit("stage.floor.enabled"),
        EffectTunerSceneParameter::StageBackdropEnabled => reveal_strlit("stage.backdrop.enabled"),
        EffectTunerSceneParameter::GlobalOpacity => reveal_strlit("materials.opacity"),
        EffectTunerSceneParameter::MaterialHueStepPerLevel => reveal_strlit("materials.hue_step_per_level"),
        EffectTunerSceneParameter::MaterialSaturation => reveal_strlit("materials.saturation"),
        EffectTunerSceneParameter::MaterialLightness => reveal_strlit("materials.lightness"),
        EffectTunerSceneParameter::MaterialMetallic => reveal_strlit("materials.metallic"),
        EffectTunerSceneParameter::MaterialPerceptualRoughness => reveal_strlit("materials.perceptual_roughness"),
        EffectTunerSceneParameter::MaterialReflectance => reveal_strlit("materials.reflectance"),
        EffectTunerSceneParameter::MaterialCubeHueBias => reveal_strlit("materials.cube_hue_bias"),
        EffectTunerSceneParameter::MaterialTetrahedronHueBias => reveal_strlit("materials.tetrahedron_hue_bias"),
        EffectTunerSceneParameter::MaterialOctahedronHueBias => reveal_strlit("materials.octahedron_hue_bias"),
        EffectTunerSceneParameter::MaterialDodecahedronHueBias => reveal_strlit("materials.dodecahedron_hue_bias"),
        EffectTunerSceneParameter::MaterialSurfaceMode => reveal_strlit("materials.surface_mode"),
        EffectTunerSceneParameter::MaterialBaseSurface => reveal_strlit("materials.base_surface"),
        EffectTunerSceneParameter::MaterialRootSurface => reveal_strlit("materials.root_surface"),
        EffectTunerSceneParameter::MaterialAccentSurface => reveal_strlit("materials.accent_surface"),
        EffectTunerSceneParameter::MaterialAccentEveryNLevels => reveal_strlit("materials.accent_every_n_levels"),
        EffectTunerSceneParameter::MaterialLevelLightnessShift => reveal_strlit("materials.level_lightness_shift"),
        EffectTunerSceneParameter::MaterialLevelSaturationShift => reveal_strlit("materials.level_saturation_shift"),
        EffectTunerSceneParameter::MaterialLevelMetallicShift => reveal_strlit("materials.level_metallic_shift"),
        EffectTunerSceneParameter::MaterialLevelRoughnessShift => reveal_strlit("materials.level_roughness_shift"),
        EffectTunerSceneParameter::MaterialLevelReflectanceShift => reveal_strlit("materials.level_reflectance_shift"),
        EffectTunerSceneParameter::CameraDistance => reveal_strlit("camera.distance"),
        EffectTunerSceneParameter::CameraAngularVelocityX => reveal_strlit("camera.angular_velocity.x"),
        EffectTunerSceneParameter::CameraAngularVelocityY => reveal_strlit("camera.angular_velocity.y"),
        EffectTunerSceneParameter::CameraAngularVelocityZ => reveal_strlit("camera.angular_velocity.z"),
        EffectTunerSceneParameter::CameraZoomVelocity => reveal_strlit("camera.zoom_velocity"),
        EffectTunerSceneParameter::RenderingClearColorR => reveal_strlit("rendering.clear_color.r"),
        EffectTunerSceneParameter::RenderingClearColorG => reveal_strlit("rendering.clear_color.g"),
        EffectTunerSceneParameter::RenderingClearColorB => reveal_strlit("rendering.clear_color.b"),
        EffectTunerSceneParameter::RenderingAmbientColorR => reveal_strlit("rendering.ambient_light_color.r"),
        EffectTunerSceneParameter::RenderingAmbientColorG => reveal_strlit("rendering.ambient_light_color.g"),
        EffectTunerSceneParameter::RenderingAmbientColorB => reveal_strlit("rendering.ambient_light_color.b"),
        EffectTunerSceneParameter::RenderingAmbientBrightness => reveal_strlit("rendering.ambient_light_brightness"),
        EffectTunerSceneParameter::StageFloorColorR => reveal_strlit("stage.floor.color.r"),
        EffectTunerSceneParameter::StageFloorColorG => reveal_strlit("stage.floor.color.g"),
        EffectTunerSceneParameter::StageFloorColorB => reveal_strlit("stage.floor.color.b"),
        EffectTunerSceneParameter::StageFloorTranslationX => reveal_strlit("stage.floor.translation.x"),
        EffectTunerSceneParameter::StageFloorTranslationY => reveal_strlit("stage.floor.translation.y"),
        EffectTunerSceneParameter::StageFloorTranslationZ => reveal_strlit("stage.floor.translation.z"),
        EffectTunerSceneParameter::StageFloorRotationX => reveal_strlit("stage.floor.rotation_degrees.x"),
        EffectTunerSceneParameter::StageFloorRotationY => reveal_strlit("stage.floor.rotation_degrees.y"),
        EffectTunerSceneParameter::StageFloorRotationZ => reveal_strlit("stage.floor.rotation_degrees.z"),
        EffectTunerSceneParameter::StageFloorSizeX => reveal_strlit("stage.floor.size.x"),
        EffectTunerSceneParameter::StageFloorSizeY => reveal_strlit("stage.floor.size.y"),
        EffectTunerSceneParameter::StageFloorThickness => reveal_strlit("stage.floor.thickness"),
        EffectTunerSceneParameter::StageFloorMetallic => reveal_strlit("stage.floor.metallic"),
        EffectTunerSceneParameter::StageFloorPerceptualRoughness => reveal_strlit("stage.floor.perceptual_roughness"),
        EffectTunerSceneParameter::StageFloorReflectance => reveal_strlit("stage.floor.reflectance"),
        EffectTunerSceneParameter::StageBackdropColorR => reveal_strlit("stage.backdrop.color.r"),
        EffectTunerSceneParameter::StageBackdropColorG => reveal_strlit("stage.backdrop.color.g"),
        EffectTunerSceneParameter::StageBackdropColorB => reveal_strlit("stage.backdrop.color.b"),
        EffectTunerSceneParameter::StageBackdropTranslationX => reveal_strlit("stage.backdrop.translation.x"),
        EffectTunerSceneParameter::StageBackdropTranslationY => reveal_strlit("stage.backdrop.translation.y"),
        EffectTunerSceneParameter::StageBackdropTranslationZ => reveal_strlit("stage.backdrop.translation.z"),
        EffectTunerSceneParameter::StageBackdropRotationX => reveal_strlit("stage.backdrop.rotation_degrees.x"),
        EffectTunerSceneParameter::StageBackdropRotationY => reveal_strlit("stage.backdrop.rotation_degrees.y"),
        EffectTunerSceneParameter::StageBackdropRotationZ => reveal_strlit("stage.backdrop.rotation_degrees.z"),
        EffectTunerSceneParameter::StageBackdropSizeX => reveal_strlit("stage.backdrop.size.x"),
        EffectTunerSceneParameter::StageBackdropSizeY => reveal_strlit("stage.backdrop.size.y"),
        EffectTunerSceneParameter::StageBackdropThickness => reveal_strlit("stage.backdrop.thickness"),
        EffectTunerSceneParameter::StageBackdropMetallic => reveal_strlit("stage.backdrop.metallic"),
        EffectTunerSceneParameter::StageBackdropPerceptualRoughness => reveal_strlit("stage.backdrop.perceptual_roughness"),
        EffectTunerSceneParameter::StageBackdropReflectance => reveal_strlit("stage.backdrop.reflectance"),
        EffectTunerSceneParameter::LightingDirectionalColorR => reveal_strlit("lighting.directional.color.r"),
        EffectTunerSceneParameter::LightingDirectionalColorG => reveal_strlit("lighting.directional.color.g"),
        EffectTunerSceneParameter::LightingDirectionalColorB => reveal_strlit("lighting.directional.color.b"),
        EffectTunerSceneParameter::LightingDirectionalIlluminance => reveal_strlit("lighting.directional.illuminance"),
        EffectTunerSceneParameter::LightingDirectionalTranslationX => reveal_strlit("lighting.directional.translation.x"),
        EffectTunerSceneParameter::LightingDirectionalTranslationY => reveal_strlit("lighting.directional.translation.y"),
        EffectTunerSceneParameter::LightingDirectionalTranslationZ => reveal_strlit("lighting.directional.translation.z"),
        EffectTunerSceneParameter::LightingDirectionalLookAtX => reveal_strlit("lighting.directional.look_at.x"),
        EffectTunerSceneParameter::LightingDirectionalLookAtY => reveal_strlit("lighting.directional.look_at.y"),
        EffectTunerSceneParameter::LightingDirectionalLookAtZ => reveal_strlit("lighting.directional.look_at.z"),
        EffectTunerSceneParameter::LightingPointColorR => reveal_strlit("lighting.point.color.r"),
        EffectTunerSceneParameter::LightingPointColorG => reveal_strlit("lighting.point.color.g"),
        EffectTunerSceneParameter::LightingPointColorB => reveal_strlit("lighting.point.color.b"),
        EffectTunerSceneParameter::LightingPointIntensity => reveal_strlit("lighting.point.intensity"),
        EffectTunerSceneParameter::LightingPointRange => reveal_strlit("lighting.point.range"),
        EffectTunerSceneParameter::LightingPointTranslationX => reveal_strlit("lighting.point.translation.x"),
        EffectTunerSceneParameter::LightingPointTranslationY => reveal_strlit("lighting.point.translation.y"),
        EffectTunerSceneParameter::LightingPointTranslationZ => reveal_strlit("lighting.point.translation.z"),
        EffectTunerSceneParameter::LightingAccentColorR => reveal_strlit("lighting.accent.color.r"),
        EffectTunerSceneParameter::LightingAccentColorG => reveal_strlit("lighting.accent.color.g"),
        EffectTunerSceneParameter::LightingAccentColorB => reveal_strlit("lighting.accent.color.b"),
        EffectTunerSceneParameter::LightingAccentIntensity => reveal_strlit("lighting.accent.intensity"),
        EffectTunerSceneParameter::LightingAccentRange => reveal_strlit("lighting.accent.range"),
        EffectTunerSceneParameter::LightingAccentTranslationX => reveal_strlit("lighting.accent.translation.x"),
        EffectTunerSceneParameter::LightingAccentTranslationY => reveal_strlit("lighting.accent.translation.y"),
        EffectTunerSceneParameter::LightingAccentTranslationZ => reveal_strlit("lighting.accent.translation.z"),
    }
}

/// Distinct control-page parameters have distinct stable identifiers.
pub proof fn stable_ids_are_distinct(a: EffectTunerParameter, b: EffectTunerParameter)
    requires
        a.spec_stable_id()@ == b.spec_stable_id()@,
    ensures
        a == b,
{
    match (a, b) {
        (EffectTunerParameter::Effect(x), EffectTunerParameter::Effect(y)) => crate::effect_catalog::stable_ids_are_distinct(x, y),
        (EffectTunerParameter::Scene(x), EffectTunerParameter::Scene(y)) => crate::scene_catalog::stable_ids_are_distinct(x, y),
        (EffectTunerParameter::Effect(x), EffectTunerParameter::Scene(y)) => {
            lemma_effect_id_head(x);
            lemma_scene_id_head(y);
        },
        (EffectTunerParameter::Scene(x), EffectTunerParameter::Effect(y)) => {
            lemma_effect_id_head(y);
            lemma_scene_id_head(x);
        },
    }
}

/// Looking up the stable identifier of any control-page parameter gives the
/// parameter back, so a keyed LFO slot is restored to the parameter that stored it.
pub proof fn stable_id_round_trip(parameter: EffectTunerParameter)
    ensures
        EffectTunerParameter::spec_from_stable_id(parameter.spec_stable_id()@) == Some(parameter),
{
    match parameter {
        EffectTunerParameter::Effect(x) => crate::effect_catalog::stable_id_round_trip(x),
        EffectTunerParameter::Scene(y) => {
            crate::scene_catalog::stable_id_round_trip(y);
            assert forall|x: EffectNumericParameter| x.spec_stable_id()@ != y.spec_stable_id()@ by {
                lemma_effect_id_head(x);
                lemma_scene_id_head(y);
            }
        },
    }
}

/// The control-page list names each parameter once.
pub proof fn lemma_all_distinct(i: int, j: int)
    requires
        0 <= i < EffectTunerParameter::spec_all().len(),
        0 <= j < EffectTunerParameter::spec_all().len(),
        EffectTunerParameter::spec_all()[i] == EffectTunerParameter::spec_all()[j],
    ensures
        i == j,
{
    crate::effect_catalog::lemma_all_distinct();
    crate::scene_catalog::lemma_all_distinct();
    let effects = EffectNumericParameter::spec_all();
    let scenes = EffectTunerSceneParameter::spec_all();
    let n = effects.len() as int;
    if i < n && j < n {
        assert(EffectTunerParameter::spec_all()[i] == EffectTunerParameter::Effect(effects[i]));
        assert(EffectTunerParameter::spec_all()[j] == EffectTunerParameter::Effect(effects[j]));
    } else if i >= n && j >= n {
        assert(EffectTunerParameter::spec_all()[i] == EffectTunerParameter::Scene(scenes[i - n]));
        assert(EffectTunerParameter::spec_all()[j] == EffectTunerParameter::Scene(scenes[j - n]));
    } else if i < n {
        assert(EffectTunerParameter::spec_all()[i] == EffectTunerParameter::Effect(effects[i]));
        assert(EffectTunerParameter::spec_all()[j] == EffectTunerParameter::Scene(scenes[j - n]));
    } else {
        assert(EffectTunerParameter::spec_all()[i] == EffectTunerParameter::Scene(scenes[i - n]));
        assert(EffectTunerParameter::spec_all()[j] == EffectTunerParameter::Effect(effects[j]));
    }
}

/// Each parameter with an LFO slot has exactly one slot: the slot list holds no
/// parameter twice.
pub proof fn lfo_slots_are_distinct(i: int, j: int)
    requires
        0 <= i < spec_lfo_parameters().len(),
        0 <= j < spec_lfo_parameters().len(),
        spec_lfo_parameters()[i] == spec_lfo_parameters()[j],
    ensures
        i == j,
{
    crate::scene_catalog::lemma_lfo_capable_distinct();
    crate::effect_catalog::lemma_all_distinct();
}

/// The LFO slot stored under `stable_id`: the slot of the parameter with that
/// identifier, or `None` when no parameter with an LFO slot has it.
pub fn lfo_slot_for_stable_id(stable_id: &str) -> (slot: Option<usize>)
    ensures
        match slot {
            Some(i) => i < spec_lfo_parameters().len()
                && EffectTunerParameter::spec_from_stable_id(stable_id@) == Some(spec_lfo_parameters()[i as int]),
            None => match EffectTunerParameter::spec_from_stable_id(stable_id@) {
                Some(parameter) => !parameter.spec_supports_lfo(),
                None => true,
            },
        },
{
    match EffectTunerParameter::from_stable_id(stable_id) {
        Some(parameter) => lfo_index_for_parameter(parameter),
        None => None,
    }
}

/// Keyed LFO slots survive storing and loading in any order: the identifier of the
/// parameter in slot `i` names a parameter with an LFO slot, and any slot it leads
/// to is slot `i`.
pub proof fn keyed_lfo_slot_round_trip(i: int, slot: int)
    requires
        0 <= i < spec_lfo_parameters().len(),
    ensures
        EffectTunerParameter::spec_from_stable_id(spec_lfo_parameters()[i].spec_stable_id()@) == Some(spec_lfo_parameters()[i]),
        spec_lfo_parameters()[i].spec_supports_lfo(),
        0 <= slot < spec_lfo_parameters().len()
            && EffectTunerParameter::spec_from_stable_id(spec_lfo_parameters()[i].spec_stable_id()@) == Some(spec_lfo_parameters()[slot])
            ==> slot == i,
{
    stable_id_round_trip(spec_lfo_parameters()[i]);
    let effects = EffectNumericParameter::spec_all().len() as int;
    if i >= effects {
        let scene = EffectTunerSceneParameter::spec_lfo_capable()[i - effects];
        assert(spec_lfo_parameters()[i] == EffectTunerParameter::Scene(scene));
        assert(EffectTunerSceneParameter::spec_lfo_capable().contains(scene));
    }
    if 0 <= slot < spec_lfo_parameters().len() && spec_lfo_parameters()[slot] == spec_lfo_parameters()[i] {
        lfo_slots_are_distinct(i, slot);
    }
}

} // verus!
