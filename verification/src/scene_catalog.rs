//! Scene-side parameters that the live control page can edit: their stable
//! identifiers, labels, grouping, and which of them carry an LFO slot.
use vstd::prelude::*;

verus! {

/// A scene parameter shown on the live control page.
#[derive(Clone, Copy, Debug, PartialEq, Eq, Structural)]
pub enum EffectTunerSceneParameter {
    ChildKind,
    SpawnPlacementMode,
    SpawnAddMode,
    ChildScaleRatio,
    ChildAxisScaleX,
    ChildAxisScaleY,
    ChildAxisScaleZ,
    ChildTwistPerVertexRadians,
    ChildOutwardOffsetRatio,
    ChildSpawnExclusionProbability,
    StageEnabled,
    StageFloorEnabled,
    StageBackdropEnabled,
    GlobalOpacity,
    MaterialHueStepPerLevel,
    MaterialSaturation,
    MaterialLightness,
    MaterialMetallic,
    MaterialPerceptualRoughness,
    MaterialReflectance,
    MaterialCubeHueBias,
    MaterialTetrahedronHueBias,
    MaterialOctahedronHueBias,
    MaterialDodecahedronHueBias,
    MaterialSurfaceMode,
    MaterialBaseSurface,
    MaterialRootSurface,
    MaterialAccentSurface,
    MaterialAccentEveryNLevels,
    MaterialLevelLightnessShift,
    MaterialLevelSaturationShift,
    MaterialLevelMetallicShift,
    MaterialLevelRoughnessShift,
    MaterialLevelReflectanceShift,
    CameraDistance,
    CameraAngularVelocityX,
    CameraAngularVelocityY,
    CameraAngularVelocityZ,
    CameraZoomVelocity,
    RenderingClearColorR,
    RenderingClearColorG,
    RenderingClearColorB,
    RenderingAmbientColorR,
    RenderingAmbientColorG,
    RenderingAmbientColorB,
    RenderingAmbientBrightness,
    StageFloorColorR,
    StageFloorColorG,
    StageFloorColorB,
    StageFloorTranslationX,
    StageFloorTranslationY,
    StageFloorTranslationZ,
    StageFloorRotationX,
    StageFloorRotationY,
    StageFloorRotationZ,
    StageFloorSizeX,
    StageFloorSizeY,
    StageFloorThickness,
    StageFloorMetallic,
    StageFloorPerceptualRoughness,
    StageFloorReflectance,
    StageBackdropColorR,
    StageBackdropColorG,
    StageBackdropColorB,
    StageBackdropTranslationX,
    StageBackdropTranslationY,
    StageBackdropTranslationZ,
    StageBackdropRotationX,
    StageBackdropRotationY,
    StageBackdropRotationZ,
    StageBackdropSizeX,
    StageBackdropSizeY,
    StageBackdropThickness,
    StageBackdropMetallic,
    StageBackdropPerceptualRoughness,
    StageBackdropReflectance,
    LightingDirectionalColorR,
    LightingDirectionalColorG,
    LightingDirectionalColorB,
    LightingDirectionalIlluminance,
    LightingDirectionalTranslationX,
    LightingDirectionalTranslationY,
    LightingDirectionalTranslationZ,
    LightingDirectionalLookAtX,
    LightingDirectionalLookAtY,
    LightingDirectionalLookAtZ,
    LightingPointColorR,
    LightingPointColorG,
    LightingPointColorB,
    LightingPointIntensity,
    LightingPointRange,
    LightingPointTranslationX,
    LightingPointTranslationY,
    LightingPointTranslationZ,
    LightingAccentColorR,
    LightingAccentColorG,
    LightingAccentColorB,
    LightingAccentIntensity,
    LightingAccentRange,
    LightingAccentTranslationX,
    LightingAccentTranslationY,
    LightingAccentTranslationZ,
}

/// The part of the runtime scene that must be refreshed after a parameter changes.
#[derive(Clone, Copy, Debug, PartialEq, Eq, Structural)]
pub enum SceneChangeTarget {
    Nothing,
    Generation,
    Materials,
    Stage,
    Rendering,
    Lighting,
    Camera,
}

/// A generation parameter with its own hold-to-repeat state.
#[derive(Clone, Copy, Debug, PartialEq, Eq, Structural)]
pub enum GenerationParameter {
    ChildScaleRatio,
    ChildAxisScaleX,
    ChildAxisScaleY,
    ChildAxisScaleZ,
    ChildTwistPerVertexRadians,
    ChildOutwardOffsetRatio,
    ChildSpawnExclusionProbability,
}

/// scene parameters.
pub const SCENE_PARAMETERS: [EffectTunerSceneParameter; 102] = [
    EffectTunerSceneParameter::ChildKind,
    EffectTunerSceneParameter::SpawnPlacementMode,
    EffectTunerSceneParameter::SpawnAddMode,
    EffectTunerSceneParameter::ChildScaleRatio,
    EffectTunerSceneParameter::ChildAxisScaleX,
    EffectTunerSceneParameter::ChildAxisScaleY,
    EffectTunerSceneParameter::ChildAxisScaleZ,
    EffectTunerSceneParameter::ChildTwistPerVertexRadians,
    EffectTunerSceneParameter::ChildOutwardOffsetRatio,
    EffectTunerSceneParameter::ChildSpawnExclusionProbability,
    EffectTunerSceneParameter::StageEnabled,
    EffectTunerSceneParameter::StageFloorEnabled,
    EffectTunerSceneParameter::StageBackdropEnabled,
    EffectTunerSceneParameter::GlobalOpacity,
    EffectTunerSceneParameter::MaterialHueStepPerLevel,
    EffectTunerSceneParameter::MaterialSaturation,
    EffectTunerSceneParameter::MaterialLightness,
    EffectTunerSceneParameter::MaterialMetallic,
    EffectTunerSceneParameter::MaterialPerceptualRoughness,
    EffectTunerSceneParameter::MaterialReflectance,
    EffectTunerSceneParameter::MaterialCubeHueBias,
    EffectTunerSceneParameter::MaterialTetrahedronHueBias,
    EffectTunerSceneParameter::MaterialOctahedronHueBias,
    EffectTunerSceneParameter::MaterialDodecahedronHueBias,
    EffectTunerSceneParameter::MaterialSurfaceMode,
    EffectTunerSceneParameter::MaterialBaseSurface,
    EffectTunerSceneParameter::MaterialRootSurface,
    EffectTunerSceneParameter::MaterialAccentSurface,
    EffectTunerSceneParameter::MaterialAccentEveryNLevels,
    EffectTunerSceneParameter::MaterialLevelLightnessShift,
    EffectTunerSceneParameter::MaterialLevelSaturationShift,
    EffectTunerSceneParameter::MaterialLevelMetallicShift,
    EffectTunerSceneParameter::MaterialLevelRoughnessShift,
    EffectTunerSceneParameter::MaterialLevelReflectanceShift,
    EffectTunerSceneParameter::CameraDistance,
    EffectTunerSceneParameter::CameraAngularVelocityX,
    EffectTunerSceneParameter::CameraAngularVelocityY,
    EffectTunerSceneParameter::CameraAngularVelocityZ,
    EffectTunerSceneParameter::CameraZoomVelocity,
    EffectTunerSceneParameter::RenderingClearColorR,
    EffectTunerSceneParameter::RenderingClearColorG,
    EffectTunerSceneParameter::RenderingClearColorB,
    EffectTunerSceneParameter::RenderingAmbientColorR,
    EffectTunerSceneParameter::RenderingAmbientColorG,
    EffectTunerSceneParameter::RenderingAmbientColorB,
    EffectTunerSceneParameter::RenderingAmbientBrightness,
    EffectTunerSceneParameter::StageFloorColorR,
    EffectTunerSceneParameter::StageFloorColorG,
    EffectTunerSceneParameter::StageFloorColorB,
    EffectTunerSceneParameter::StageFloorTranslationX,
    EffectTunerSceneParameter::StageFloorTranslationY,
    EffectTunerSceneParameter::StageFloorTranslationZ,
    EffectTunerSceneParameter::StageFloorRotationX,
    EffectTunerSceneParameter::StageFloorRotationY,
    EffectTunerSceneParameter::StageFloorRotationZ,
    EffectTunerSceneParameter::StageFloorSizeX,
    EffectTunerSceneParameter::StageFloorSizeY,
    EffectTunerSceneParameter::StageFloorThickness,
    EffectTunerSceneParameter::StageFloorMetallic,
    EffectTunerSceneParameter::StageFloorPerceptualRoughness,
    EffectTunerSceneParameter::StageFloorReflectance,
    EffectTunerSceneParameter::StageBackdropColorR,
    EffectTunerSceneParameter::StageBackdropColorG,
    EffectTunerSceneParameter::StageBackdropColorB,
    EffectTunerSceneParameter::StageBackdropTranslationX,
    EffectTunerSceneParameter::StageBackdropTranslationY,
    EffectTunerSceneParameter::StageBackdropTranslationZ,
    EffectTunerSceneParameter::StageBackdropRotationX,
    EffectTunerSceneParameter::StageBackdropRotationY,
    EffectTunerSceneParameter::StageBackdropRotationZ,
    EffectTunerSceneParameter::StageBackdropSizeX,
    EffectTunerSceneParameter::StageBackdropSizeY,
    EffectTunerSceneParameter::StageBackdropThickness,
    EffectTunerSceneParameter::StageBackdropMetallic,
    EffectTunerSceneParameter::StageBackdropPerceptualRoughness,
    EffectTunerSceneParameter::StageBackdropReflectance,
    EffectTunerSceneParameter::LightingDirectionalColorR,
    EffectTunerSceneParameter::LightingDirectionalColorG,
    EffectTunerSceneParameter::LightingDirectionalColorB,
    EffectTunerSceneParameter::LightingDirectionalIlluminance,
    EffectTunerSceneParameter::LightingDirectionalTranslationX,
    EffectTunerSceneParameter::LightingDirectionalTranslationY,
    EffectTunerSceneParameter::LightingDirectionalTranslationZ,
    EffectTunerSceneParameter::LightingDirectionalLookAtX,
    EffectTunerSceneParameter::LightingDirectionalLookAtY,
    EffectTunerSceneParameter::LightingDirectionalLookAtZ,
    EffectTunerSceneParameter::LightingPointColorR,
    EffectTunerSceneParameter::LightingPointColorG,
    EffectTunerSceneParameter::LightingPointColorB,
    EffectTunerSceneParameter::LightingPointIntensity,
    EffectTunerSceneParameter::LightingPointRange,
    EffectTunerSceneParameter::LightingPointTranslationX,
    EffectTunerSceneParameter::LightingPointTranslationY,
    EffectTunerSceneParameter::LightingPointTranslationZ,
    EffectTunerSceneParameter::LightingAccentColorR,
    EffectTunerSceneParameter::LightingAccentColorG,
    EffectTunerSceneParameter::LightingAccentColorB,
    EffectTunerSceneParameter::LightingAccentIntensity,
    EffectTunerSceneParameter::LightingAccentRange,
    EffectTunerSceneParameter::LightingAccentTranslationX,
    EffectTunerSceneParameter::LightingAccentTranslationY,
    EffectTunerSceneParameter::LightingAccentTranslationZ,
];

/// lfo capable scene parameters.
pub const LFO_CAPABLE_SCENE_PARAMETERS: [EffectTunerSceneParameter; 92] = [
    EffectTunerSceneParameter::ChildTwistPerVertexRadians,
    EffectTunerSceneParameter::ChildOutwardOffsetRatio,
    EffectTunerSceneParameter::GlobalOpacity,
    EffectTunerSceneParameter::MaterialHueStepPerLevel,
    EffectTunerSceneParameter::MaterialSaturation,
    EffectTunerSceneParameter::MaterialLightness,
    EffectTunerSceneParameter::MaterialMetallic,
    EffectTunerSceneParameter::MaterialPerceptualRoughness,
    EffectTunerSceneParameter::MaterialReflectance,
    EffectTunerSceneParameter::MaterialCubeHueBias,
    EffectTunerSceneParameter::MaterialTetrahedronHueBias,
    EffectTunerSceneParameter::MaterialOctahedronHueBias,
    EffectTunerSceneParameter::MaterialDodecahedronHueBias,
    EffectTunerSceneParameter::MaterialAccentEveryNLevels,
    EffectTunerSceneParameter::MaterialLevelLightnessShift,
    EffectTunerSceneParameter::MaterialLevelSaturationShift,
    EffectTunerSceneParameter::MaterialLevelMetallicShift,
    EffectTunerSceneParameter::MaterialLevelRoughnessShift,
    EffectTunerSceneParameter::MaterialLevelReflectanceShift,
    EffectTunerSceneParameter::CameraDistance,
    EffectTunerSceneParameter::CameraAngularVelocityX,
    EffectTunerSceneParameter::CameraAngularVelocityY,
    EffectTunerSceneParameter::CameraAngularVelocityZ,
    EffectTunerSceneParameter::CameraZoomVelocity,
    EffectTunerSceneParameter::RenderingClearColorR,
    EffectTunerSceneParameter::RenderingClearColorG,
    EffectTunerSceneParameter::RenderingClearColorB,
    EffectTunerSceneParameter::RenderingAmbientColorR,
    EffectTunerSceneParameter::RenderingAmbientColorG,
    EffectTunerSceneParameter::RenderingAmbientColorB,
    EffectTunerSceneParameter::RenderingAmbientBrightness,
    EffectTunerSceneParameter::StageFloorColorR,
    EffectTunerSceneParameter::StageFloorColorG,
    EffectTunerSceneParameter::StageFloorColorB,
    EffectTunerSceneParameter::StageFloorTranslationX,
    EffectTunerSceneParameter::StageFloorTranslationY,
    EffectTunerSceneParameter::StageFloorTranslationZ,
    EffectTunerSceneParameter::StageFloorRotationX,
    EffectTunerSceneParameter::StageFloorRotationY,
    EffectTunerSceneParameter::StageFloorRotationZ,
    EffectTunerSceneParameter::StageFloorSizeX,
    EffectTunerSceneParameter::StageFloorSizeY,
    EffectTunerSceneParameter::StageFloorThickness,
    EffectTunerSceneParameter::StageFloorMetallic,
    EffectTunerSceneParameter::StageFloorPerceptualRoughness,
    EffectTunerSceneParameter::StageFloorReflectance,
    EffectTunerSceneParameter::StageBackdropColorR,
    EffectTunerSceneParameter::StageBackdropColorG,
    EffectTunerSceneParameter::StageBackdropColorB,
    EffectTunerSceneParameter::StageBackdropTranslationX,
    EffectTunerSceneParameter::StageBackdropTranslationY,
    EffectTunerSceneParameter::StageBackdropTranslationZ,
    EffectTunerSceneParameter::StageBackdropRotationX,
    EffectTunerSceneParameter::StageBackdropRotationY,
    EffectTunerSceneParameter::StageBackdropRotationZ,
    EffectTunerSceneParameter::StageBackdropSizeX,
    EffectTunerSceneParameter::StageBackdropSizeY,
    EffectTunerSceneParameter::StageBackdropThickness,
    EffectTunerSceneParameter::StageBackdropMetallic,
    EffectTunerSceneParameter::StageBackdropPerceptualRoughness,
    EffectTunerSceneParameter::StageBackdropReflectance,
    EffectTunerSceneParameter::LightingDirectionalColorR,
    EffectTunerSceneParameter::LightingDirectionalColorG,
    EffectTunerSceneParameter::LightingDirectionalColorB,
    EffectTunerSceneParameter::LightingDirectionalIlluminance,
    EffectTunerSceneParameter::LightingDirectionalTranslationX,
    EffectTunerSceneParameter::LightingDirectionalTranslationY,
    EffectTunerSceneParameter::LightingDirectionalTranslationZ,
    EffectTunerSceneParameter::LightingDirectionalLookAtX,
    EffectTunerSceneParameter::LightingDirectionalLookAtY,
    EffectTunerSceneParameter::LightingDirectionalLookAtZ,
    EffectTunerSceneParameter::LightingPointColorR,
    EffectTunerSceneParameter::LightingPointColorG,
    EffectTunerSceneParameter::LightingPointColorB,
    EffectTunerSceneParameter::LightingPointIntensity,
    EffectTunerSceneParameter::LightingPointRange,
    EffectTunerSceneParameter::LightingPointTranslationX,
    EffectTunerSceneParameter::LightingPointTranslationY,
    EffectTunerSceneParameter::LightingPointTranslationZ,
    EffectTunerSceneParameter::LightingAccentColorR,
    EffectTunerSceneParameter::LightingAccentColorG,
    EffectTunerSceneParameter::LightingAccentColorB,
    EffectTunerSceneParameter::LightingAccentIntensity,
    EffectTunerSceneParameter::LightingAccentRange,
    EffectTunerSceneParameter::LightingAccentTranslationX,
    EffectTunerSceneParameter::LightingAccentTranslationY,
    EffectTunerSceneParameter::LightingAccentTranslationZ,
    EffectTunerSceneParameter::ChildScaleRatio,
    EffectTunerSceneParameter::ChildAxisScaleX,
    EffectTunerSceneParameter::ChildAxisScaleY,
    EffectTunerSceneParameter::ChildAxisScaleZ,
    EffectTunerSceneParameter::ChildSpawnExclusionProbability,
];

/// generation lfo capable scene parameters.
pub const GENERATION_LFO_CAPABLE_SCENE_PARAMETERS: [EffectTunerSceneParameter; 7] = [
    EffectTunerSceneParameter::ChildScaleRatio,
    EffectTunerSceneParameter::ChildAxisScaleX,
    EffectTunerSceneParameter::ChildAxisScaleY,
    EffectTunerSceneParameter::ChildAxisScaleZ,
    EffectTunerSceneParameter::ChildTwistPerVertexRadians,
    EffectTunerSceneParameter::ChildOutwardOffsetRatio,
    EffectTunerSceneParameter::ChildSpawnExclusionProbability,
];

/// material lfo capable scene parameters.
pub const MATERIAL_LFO_CAPABLE_SCENE_PARAMETERS: [EffectTunerSceneParameter; 17] = [
    EffectTunerSceneParameter::GlobalOpacity,
    EffectTunerSceneParameter::MaterialHueStepPerLevel,
    EffectTunerSceneParameter::MaterialSaturation,
    EffectTunerSceneParameter::MaterialLightness,
    EffectTunerSceneParameter::MaterialMetallic,
    EffectTunerSceneParameter::MaterialPerceptualRoughness,
    EffectTunerSceneParameter::MaterialReflectance,
    EffectTunerSceneParameter::MaterialCubeHueBias,
    EffectTunerSceneParameter::MaterialTetrahedronHueBias,
    EffectTunerSceneParameter::MaterialOctahedronHueBias,
    EffectTunerSceneParameter::MaterialDodecahedronHueBias,
    EffectTunerSceneParameter::MaterialAccentEveryNLevels,
    EffectTunerSceneParameter::MaterialLevelLightnessShift,
    EffectTunerSceneParameter::MaterialLevelSaturationShift,
    EffectTunerSceneParameter::MaterialLevelMetallicShift,
    EffectTunerSceneParameter::MaterialLevelRoughnessShift,
    EffectTunerSceneParameter::MaterialLevelReflectanceShift,
];

impl EffectTunerSceneParameter {
    /// Every scene parameter, in control-page order.
    pub open spec fn spec_all() -> Seq<EffectTunerSceneParameter> {
        seq![
            EffectTunerSceneParameter::ChildKind,
            EffectTunerSceneParameter::SpawnPlacementMode,
            EffectTunerSceneParameter::SpawnAddMode,
            EffectTunerSceneParameter::ChildScaleRatio,
            EffectTunerSceneParameter::ChildAxisScaleX,
            EffectTunerSceneParameter::ChildAxisScaleY,
            EffectTunerSceneParameter::ChildAxisScaleZ,
            EffectTunerSceneParameter::ChildTwistPerVertexRadians,
            EffectTunerSceneParameter::ChildOutwardOffsetRatio,
            EffectTunerSceneParameter::ChildSpawnExclusionProbability,
            EffectTunerSceneParameter::StageEnabled,
            EffectTunerSceneParameter::StageFloorEnabled,
            EffectTunerSceneParameter::StageBackdropEnabled,
            EffectTunerSceneParameter::GlobalOpacity,
            EffectTunerSceneParameter::MaterialHueStepPerLevel,
            EffectTunerSceneParameter::MaterialSaturation,
            EffectTunerSceneParameter::MaterialLightness,
            EffectTunerSceneParameter::MaterialMetallic,
            EffectTunerSceneParameter::MaterialPerceptualRoughness,
            EffectTunerSceneParameter::MaterialReflectance,
            EffectTunerSceneParameter::MaterialCubeHueBias,
            EffectTunerSceneParameter::MaterialTetrahedronHueBias,
            EffectTunerSceneParameter::MaterialOctahedronHueBias,
            EffectTunerSceneParameter::MaterialDodecahedronHueBias,
            EffectTunerSceneParameter::MaterialSurfaceMode,
            EffectTunerSceneParameter::MaterialBaseSurface,
            EffectTunerSceneParameter::MaterialRootSurface,
            EffectTunerSceneParameter::MaterialAccentSurface,
            EffectTunerSceneParameter::MaterialAccentEveryNLevels,
            EffectTunerSceneParameter::MaterialLevelLightnessShift,
            EffectTunerSceneParameter::MaterialLevelSaturationShift,
            EffectTunerSceneParameter::MaterialLevelMetallicShift,
            EffectTunerSceneParameter::MaterialLevelRoughnessShift,
            EffectTunerSceneParameter::MaterialLevelReflectanceShift,
            EffectTunerSceneParameter::CameraDistance,
            EffectTunerSceneParameter::CameraAngularVelocityX,
            EffectTunerSceneParameter::CameraAngularVelocityY,
            EffectTunerSceneParameter::CameraAngularVelocityZ,
            EffectTunerSceneParameter::CameraZoomVelocity,
            EffectTunerSceneParameter::RenderingClearColorR,
            EffectTunerSceneParameter::RenderingClearColorG,
            EffectTunerSceneParameter::RenderingClearColorB,
            EffectTunerSceneParameter::RenderingAmbientColorR,
            EffectTunerSceneParameter::RenderingAmbientColorG,
            EffectTunerSceneParameter::RenderingAmbientColorB,
            EffectTunerSceneParameter::RenderingAmbientBrightness,
            EffectTunerSceneParameter::StageFloorColorR,
            EffectTunerSceneParameter::StageFloorColorG,
            EffectTunerSceneParameter::StageFloorColorB,
            EffectTunerSceneParameter::StageFloorTranslationX,
            EffectTunerSceneParameter::StageFloorTranslationY,
            EffectTunerSceneParameter::StageFloorTranslationZ,
            EffectTunerSceneParameter::StageFloorRotationX,
            EffectTunerSceneParameter::StageFloorRotationY,
            EffectTunerSceneParameter::StageFloorRotationZ,
            EffectTunerSceneParameter::StageFloorSizeX,
            EffectTunerSceneParameter::StageFloorSizeY,
            EffectTunerSceneParameter::StageFloorThickness,
            EffectTunerSceneParameter::StageFloorMetallic,
            EffectTunerSceneParameter::StageFloorPerceptualRoughness,
            EffectTunerSceneParameter::StageFloorReflectance,
            EffectTunerSceneParameter::StageBackdropColorR,
            EffectTunerSceneParameter::StageBackdropColorG,
            EffectTunerSceneParameter::StageBackdropColorB,
            EffectTunerSceneParameter::StageBackdropTranslationX,
            EffectTunerSceneParameter::StageBackdropTranslationY,
            EffectTunerSceneParameter::StageBackdropTranslationZ,
            EffectTunerSceneParameter::StageBackdropRotationX,
            EffectTunerSceneParameter::StageBackdropRotationY,
            EffectTunerSceneParameter::StageBackdropRotationZ,
            EffectTunerSceneParameter::StageBackdropSizeX,
            EffectTunerSceneParameter::StageBackdropSizeY,
            EffectTunerSceneParameter::StageBackdropThickness,
            EffectTunerSceneParameter::StageBackdropMetallic,
            EffectTunerSceneParameter::StageBackdropPerceptualRoughness,
            EffectTunerSceneParameter::StageBackdropReflectance,
            EffectTunerSceneParameter::LightingDirectionalColorR,
            EffectTunerSceneParameter::LightingDirectionalColorG,
            EffectTunerSceneParameter::LightingDirectionalColorB,
            EffectTunerSceneParameter::LightingDirectionalIlluminance,
            EffectTunerSceneParameter::LightingDirectionalTranslationX,
            EffectTunerSceneParameter::LightingDirectionalTranslationY,
            EffectTunerSceneParameter::LightingDirectionalTranslationZ,
            EffectTunerSceneParameter::LightingDirectionalLookAtX,
            EffectTunerSceneParameter::LightingDirectionalLookAtY,
            EffectTunerSceneParameter::LightingDirectionalLookAtZ,
            EffectTunerSceneParameter::LightingPointColorR,
            EffectTunerSceneParameter::LightingPointColorG,
            EffectTunerSceneParameter::LightingPointColorB,
            EffectTunerSceneParameter::LightingPointIntensity,
            EffectTunerSceneParameter::LightingPointRange,
            EffectTunerSceneParameter::LightingPointTranslationX,
            EffectTunerSceneParameter::LightingPointTranslationY,
            EffectTunerSceneParameter::LightingPointTranslationZ,
            EffectTunerSceneParameter::LightingAccentColorR,
            EffectTunerSceneParameter::LightingAccentColorG,
            EffectTunerSceneParameter::LightingAccentColorB,
            EffectTunerSceneParameter::LightingAccentIntensity,
            EffectTunerSceneParameter::LightingAccentRange,
            EffectTunerSceneParameter::LightingAccentTranslationX,
            EffectTunerSceneParameter::LightingAccentTranslationY,
            EffectTunerSceneParameter::LightingAccentTranslationZ,
        ]
    }

    /// The scene parameters that own an LFO slot, in slot order.
    pub open spec fn spec_lfo_capable() -> Seq<EffectTunerSceneParameter> {
        seq![
            EffectTunerSceneParameter::ChildTwistPerVertexRadians,
            EffectTunerSceneParameter::ChildOutwardOffsetRatio,
            EffectTunerSceneParameter::GlobalOpacity,
            EffectTunerSceneParameter::MaterialHueStepPerLevel,
            EffectTunerSceneParameter::MaterialSaturation,
            EffectTunerSceneParameter::MaterialLightness,
            EffectTunerSceneParameter::MaterialMetallic,
            EffectTunerSceneParameter::MaterialPerceptualRoughness,
            EffectTunerSceneParameter::MaterialReflectance,
            EffectTunerSceneParameter::MaterialCubeHueBias,
            EffectTunerSceneParameter::MaterialTetrahedronHueBias,
            EffectTunerSceneParameter::MaterialOctahedronHueBias,
            EffectTunerSceneParameter::MaterialDodecahedronHueBias,
            EffectTunerSceneParameter::MaterialAccentEveryNLevels,
            EffectTunerSceneParameter::MaterialLevelLightnessShift,
            EffectTunerSceneParameter::MaterialLevelSaturationShift,
            EffectTunerSceneParameter::MaterialLevelMetallicShift,
            EffectTunerSceneParameter::MaterialLevelRoughnessShift,
            EffectTunerSceneParameter::MaterialLevelReflectanceShift,
            EffectTunerSceneParameter::CameraDistance,
            EffectTunerSceneParameter::CameraAngularVelocityX,
            EffectTunerSceneParameter::CameraAngularVelocityY,
            EffectTunerSceneParameter::CameraAngularVelocityZ,
            EffectTunerSceneParameter::CameraZoomVelocity,
            EffectTunerSceneParameter::RenderingClearColorR,
            EffectTunerSceneParameter::RenderingClearColorG,
            EffectTunerSceneParameter::RenderingClearColorB,
            EffectTunerSceneParameter::RenderingAmbientColorR,
            EffectTunerSceneParameter::RenderingAmbientColorG,
            EffectTunerSceneParameter::RenderingAmbientColorB,
            EffectTunerSceneParameter::RenderingAmbientBrightness,
            EffectTunerSceneParameter::StageFloorColorR,
            EffectTunerSceneParameter::StageFloorColorG,
            EffectTunerSceneParameter::StageFloorColorB,
            EffectTunerSceneParameter::StageFloorTranslationX,
            EffectTunerSceneParameter::StageFloorTranslationY,
            EffectTunerSceneParameter::StageFloorTranslationZ,
            EffectTunerSceneParameter::StageFloorRotationX,
            EffectTunerSceneParameter::StageFloorRotationY,
            EffectTunerSceneParameter::StageFloorRotationZ,
            EffectTunerSceneParameter::StageFloorSizeX,
            EffectTunerSceneParameter::StageFloorSizeY,
            EffectTunerSceneParameter::StageFloorThickness,
            EffectTunerSceneParameter::StageFloorMetallic,
            EffectTunerSceneParameter::StageFloorPerceptualRoughness,
            EffectTunerSceneParameter::StageFloorReflectance,
            EffectTunerSceneParameter::StageBackdropColorR,
            EffectTunerSceneParameter::StageBackdropColorG,
            EffectTunerSceneParameter::StageBackdropColorB,
            EffectTunerSceneParameter::StageBackdropTranslationX,
            EffectTunerSceneParameter::StageBackdropTranslationY,
            EffectTunerSceneParameter::StageBackdropTranslationZ,
            EffectTunerSceneParameter::StageBackdropRotationX,
            EffectTunerSceneParameter::StageBackdropRotationY,
            EffectTunerSceneParameter::StageBackdropRotationZ,
            EffectTunerSceneParameter::StageBackdropSizeX,
            EffectTunerSceneParameter::StageBackdropSizeY,
            EffectTunerSceneParameter::StageBackdropThickness,
            EffectTunerSceneParameter::StageBackdropMetallic,
            EffectTunerSceneParameter::StageBackdropPerceptualRoughness,
            EffectTunerSceneParameter::StageBackdropReflectance,
            EffectTunerSceneParameter::LightingDirectionalColorR,
            EffectTunerSceneParameter::LightingDirectionalColorG,
            EffectTunerSceneParameter::LightingDirectionalColorB,
            EffectTunerSceneParameter::LightingDirectionalIlluminance,
            EffectTunerSceneParameter::LightingDirectionalTranslationX,
            EffectTunerSceneParameter::LightingDirectionalTranslationY,
            EffectTunerSceneParameter::LightingDirectionalTranslationZ,
            EffectTunerSceneParameter::LightingDirectionalLookAtX,
            EffectTunerSceneParameter::LightingDirectionalLookAtY,
            EffectTunerSceneParameter::LightingDirectionalLookAtZ,
            EffectTunerSceneParameter::LightingPointColorR,
            EffectTunerSceneParameter::LightingPointColorG,
            EffectTunerSceneParameter::LightingPointColorB,
            EffectTunerSceneParameter::LightingPointIntensity,
            EffectTunerSceneParameter::LightingPointRange,
            EffectTunerSceneParameter::LightingPointTranslationX,
            EffectTunerSceneParameter::LightingPointTranslationY,
            EffectTunerSceneParameter::LightingPointTranslationZ,
            EffectTunerSceneParameter::LightingAccentColorR,
            EffectTunerSceneParameter::LightingAccentColorG,
            EffectTunerSceneParameter::LightingAccentColorB,
            EffectTunerSceneParameter::LightingAccentIntensity,
            EffectTunerSceneParameter::LightingAccentRange,
            EffectTunerSceneParameter::LightingAccentTranslationX,
            EffectTunerSceneParameter::LightingAccentTranslationY,
            EffectTunerSceneParameter::LightingAccentTranslationZ,
            EffectTunerSceneParameter::ChildScaleRatio,
            EffectTunerSceneParameter::ChildAxisScaleX,
            EffectTunerSceneParameter::ChildAxisScaleY,
            EffectTunerSceneParameter::ChildAxisScaleZ,
            EffectTunerSceneParameter::ChildSpawnExclusionProbability,
        ]
    }

    /// The generation parameters among the LFO-capable ones.
    pub open spec fn spec_generation_lfo_capable() -> Seq<EffectTunerSceneParameter> {
        seq![
            EffectTunerSceneParameter::ChildScaleRatio,
            EffectTunerSceneParameter::ChildAxisScaleX,
            EffectTunerSceneParameter::ChildAxisScaleY,
            EffectTunerSceneParameter::ChildAxisScaleZ,
            EffectTunerSceneParameter::ChildTwistPerVertexRadians,
            EffectTunerSceneParameter::ChildOutwardOffsetRatio,
            EffectTunerSceneParameter::ChildSpawnExclusionProbability,
        ]
    }

    /// The material parameters among the LFO-capable ones.
    pub open spec fn spec_material_lfo_capable() -> Seq<EffectTunerSceneParameter> {
        seq![
            EffectTunerSceneParameter::GlobalOpacity,
            EffectTunerSceneParameter::MaterialHueStepPerLevel,
            EffectTunerSceneParameter::MaterialSaturation,
            EffectTunerSceneParameter::MaterialLightness,
            EffectTunerSceneParameter::MaterialMetallic,
            EffectTunerSceneParameter::MaterialPerceptualRoughness,
            EffectTunerSceneParameter::MaterialReflectance,
            EffectTunerSceneParameter::MaterialCubeHueBias,
            EffectTunerSceneParameter::MaterialTetrahedronHueBias,
            EffectTunerSceneParameter::MaterialOctahedronHueBias,
            EffectTunerSceneParameter::MaterialDodecahedronHueBias,
            EffectTunerSceneParameter::MaterialAccentEveryNLevels,
            EffectTunerSceneParameter::MaterialLevelLightnessShift,
            EffectTunerSceneParameter::MaterialLevelSaturationShift,
            EffectTunerSceneParameter::MaterialLevelMetallicShift,
            EffectTunerSceneParameter::MaterialLevelRoughnessShift,
            EffectTunerSceneParameter::MaterialLevelReflectanceShift,
        ]
    }

    /// Every scene parameter, in control-page order.
    pub fn all() -> (parameters: &'static [EffectTunerSceneParameter])
        ensures
            parameters@ == Self::spec_all(),
    {
        &SCENE_PARAMETERS
    }

    /// The scene parameters that own an LFO slot, in slot order.
    pub fn lfo_capable() -> (parameters: &'static [EffectTunerSceneParameter])
        ensures
            parameters@ == Self::spec_lfo_capable(),
    {
        &LFO_CAPABLE_SCENE_PARAMETERS
    }

    /// The generation parameters that own an LFO slot.
    pub fn generation_lfo_capable() -> (parameters: &'static [EffectTunerSceneParameter])
        ensures
            parameters@ == Self::spec_generation_lfo_capable(),
    {
        &GENERATION_LFO_CAPABLE_SCENE_PARAMETERS
    }

    /// The material parameters that own an LFO slot.
    pub fn material_lfo_capable() -> (parameters: &'static [EffectTunerSceneParameter])
        ensures
            parameters@ == Self::spec_material_lfo_capable(),
    {
        &MATERIAL_LFO_CAPABLE_SCENE_PARAMETERS
    }

    /// Position of the first occurrence of `target` in `items`.
    fn position_in(items: &[EffectTunerSceneParameter], target: EffectTunerSceneParameter) -> (found: Option<usize>)
        ensures
            match found {
                Some(i) => i < items@.len() && items@[i as int] == target
                    && forall|j: int| 0 <= j < i ==> items@[j] != target,
                None => !items@.contains(target),
            },
    {
        let mut i: usize = 0;
        while i < items.len()
            invariant
                i <= items@.len(),
                forall|j: int| 0 <= j < i ==> items@[j] != target,
            decreases items@.len() - i,
        {
            if items[i] == target {
                return Some(i);
            }
            i += 1;
        }
        None
    }

    /// Whether the parameter owns an LFO slot.
    pub fn supports_lfo(self) -> (supported: bool)
        ensures
            supported == Self::spec_lfo_capable().contains(self),
    {
        Self::position_in(Self::lfo_capable(), self).is_some()
    }

    /// Whether the parameter is a generation parameter with an LFO slot.
    pub fn is_generation_lfo_parameter(self) -> (generation: bool)
        ensures
            generation == Self::spec_generation_lfo_capable().contains(self),
    {
        Self::position_in(Self::generation_lfo_capable(), self).is_some()
    }

    /// Index of the parameter's LFO slot among the scene LFO slots.
    pub fn lfo_scene_index(self) -> (index: Option<usize>)
        ensures
            match index {
                Some(i) => i < Self::spec_lfo_capable().len() && Self::spec_lfo_capable()[i as int] == self
                    && forall|j: int| 0 <= j < i ==> Self::spec_lfo_capable()[j] != self,
                None => !Self::spec_lfo_capable().contains(self),
            },
    {
        Self::position_in(Self::lfo_capable(), self)
    }

    /// The identifier under which the parameter is stored in presets.
    pub open spec fn spec_stable_id(self) -> &'static str {
        match self {
            Self::ChildKind => "generation.child_kind",
            Self::SpawnPlacementMode => "generation.spawn_placement_mode",
            Self::SpawnAddMode => "generation.spawn_add_mode",
            Self::ChildScaleRatio => "generation.child_scale_ratio",
            Self::ChildAxisScaleX => "generation.child_axis_scale.x",
            Self::ChildAxisScaleY => "generation.child_axis_scale.y",
            Self::ChildAxisScaleZ => "generation.child_axis_scale.z",
            Self::ChildTwistPerVertexRadians => "generation.child_twist_per_vertex_radians",
            Self::ChildOutwardOffsetRatio => "generation.child_outward_offset_ratio",
            Self::ChildSpawnExclusionProbability => "generation.child_spawn_exclusion_probability",
            Self::StageEnabled => "stage.enabled",
            Self::StageFloorEnabled => "stage.floor.enabled",
            Self::StageBackdropEnabled => "stage.backdrop.enabled",
            Self::GlobalOpacity => "materials.opacity",
            Self::MaterialHueStepPerLevel => "materials.hue_step_per_level",
            Self::MaterialSaturation => "materials.saturation",
            Self::MaterialLightness => "materials.lightness",
            Self::MaterialMetallic => "materials.metallic",
            Self::MaterialPerceptualRoughness => "materials.perceptual_roughness",
            Self::MaterialReflectance => "materials.reflectance",
            Self::MaterialCubeHueBias => "materials.cube_hue_bias",
            Self::MaterialTetrahedronHueBias => "materials.tetrahedron_hue_bias",
            Self::MaterialOctahedronHueBias => "materials.octahedron_hue_bias",
            Self::MaterialDodecahedronHueBias => "materials.dodecahedron_hue_bias",
            Self::MaterialSurfaceMode => "materials.surface_mode",
            Self::MaterialBaseSurface => "materials.base_surface",
            Self::MaterialRootSurface => "materials.root_surface",
            Self::MaterialAccentSurface => "materials.accent_surface",
            Self::MaterialAccentEveryNLevels => "materials.accent_every_n_levels",
            Self::MaterialLevelLightnessShift => "materials.level_lightness_shift",
            Self::MaterialLevelSaturationShift => "materials.level_saturation_shift",
            Self::MaterialLevelMetallicShift => "materials.level_metallic_shift",
            Self::MaterialLevelRoughnessShift => "materials.level_roughness_shift",
            Self::MaterialLevelReflectanceShift => "materials.level_reflectance_shift",
            Self::CameraDistance => "camera.distance",
            Self::CameraAngularVelocityX => "camera.angular_velocity.x",
            Self::CameraAngularVelocityY => "camera.angular_velocity.y",
            Self::CameraAngularVelocityZ => "camera.angular_velocity.z",
            Self::CameraZoomVelocity => "camera.zoom_velocity",
            Self::RenderingClearColorR => "rendering.clear_color.r",
            Self::RenderingClearColorG => "rendering.clear_color.g",
            Self::RenderingClearColorB => "rendering.clear_color.b",
            Self::RenderingAmbientColorR => "rendering.ambient_light_color.r",
            Self::RenderingAmbientColorG => "rendering.ambient_light_color.g",
            Self::RenderingAmbientColorB => "rendering.ambient_light_color.b",
            Self::RenderingAmbientBrightness => "rendering.ambient_light_brightness",
            Self::StageFloorColorR => "stage.floor.color.r",
            Self::StageFloorColorG => "stage.floor.color.g",
            Self::StageFloorColorB => "stage.floor.color.b",
            Self::StageFloorTranslationX => "stage.floor.translation.x",
            Self::StageFloorTranslationY => "stage.floor.translation.y",
            Self::StageFloorTranslationZ => "stage.floor.translation.z",
            Self::StageFloorRotationX => "stage.floor.rotation_degrees.x",
            Self::StageFloorRotationY => "stage.floor.rotation_degrees.y",
            Self::StageFloorRotationZ => "stage.floor.rotation_degrees.z",
            Self::StageFloorSizeX => "stage.floor.size.x",
            Self::StageFloorSizeY => "stage.floor.size.y",
            Self::StageFloorThickness => "stage.floor.thickness",
            Self::StageFloorMetallic => "stage.floor.metallic",
            Self::StageFloorPerceptualRoughness => "stage.floor.perceptual_roughness",
            Self::StageFloorReflectance => "stage.floor.reflectance",
            Self::StageBackdropColorR => "stage.backdrop.color.r",
            Self::StageBackdropColorG => "stage.backdrop.color.g",
            Self::StageBackdropColorB => "stage.backdrop.color.b",
            Self::StageBackdropTranslationX => "stage.backdrop.translation.x",
            Self::StageBackdropTranslationY => "stage.backdrop.translation.y",
            Self::StageBackdropTranslationZ => "stage.backdrop.translation.z",
            Self::StageBackdropRotationX => "stage.backdrop.rotation_degrees.x",
            Self::StageBackdropRotationY => "stage.backdrop.rotation_degrees.y",
            Self::StageBackdropRotationZ => "stage.backdrop.rotation_degrees.z",
            Self::StageBackdropSizeX => "stage.backdrop.size.x",
            Self::StageBackdropSizeY => "stage.backdrop.size.y",
            Self::StageBackdropThickness => "stage.backdrop.thickness",
            Self::StageBackdropMetallic => "stage.backdrop.metallic",
            Self::StageBackdropPerceptualRoughness => "stage.backdrop.perceptual_roughness",
            Self::StageBackdropReflectance => "stage.backdrop.reflectance",
            Self::LightingDirectionalColorR => "lighting.directional.color.r",
            Self::LightingDirectionalColorG => "lighting.directional.color.g",
            Self::LightingDirectionalColorB => "lighting.directional.color.b",
            Self::LightingDirectionalIlluminance => "lighting.directional.illuminance",
            Self::LightingDirectionalTranslationX => "lighting.directional.translation.x",
            Self::LightingDirectionalTranslationY => "lighting.directional.translation.y",
            Self::LightingDirectionalTranslationZ => "lighting.directional.translation.z",
            Self::LightingDirectionalLookAtX => "lighting.directional.look_at.x",
            Self::LightingDirectionalLookAtY => "lighting.directional.look_at.y",
            Self::LightingDirectionalLookAtZ => "lighting.directional.look_at.z",
            Self::LightingPointColorR => "lighting.point.color.r",
            Self::LightingPointColorG => "lighting.point.color.g",
            Self::LightingPointColorB => "lighting.point.color.b",
            Self::LightingPointIntensity => "lighting.point.intensity",
            Self::LightingPointRange => "lighting.point.range",
            Self::LightingPointTranslationX => "lighting.point.translation.x",
            Self::LightingPointTranslationY => "lighting.point.translation.y",
            Self::LightingPointTranslationZ => "lighting.point.translation.z",
            Self::LightingAccentColorR => "lighting.accent.color.r",
            Self::LightingAccentColorG => "lighting.accent.color.g",
            Self::LightingAccentColorB => "lighting.accent.color.b",
            Self::LightingAccentIntensity => "lighting.accent.intensity",
            Self::LightingAccentRange => "lighting.accent.range",
            Self::LightingAccentTranslationX => "lighting.accent.translation.x",
            Self::LightingAccentTranslationY => "lighting.accent.translation.y",
            Self::LightingAccentTranslationZ => "lighting.accent.translation.z",
        }
    }

    /// The identifier under which the parameter is stored in presets.
    pub fn stable_id(self) -> (value: &'static str)
        ensures
            value == self.spec_stable_id(),
    {
        match self {
            Self::ChildKind => "generation.child_kind",
            Self::SpawnPlacementMode => "generation.spawn_placement_mode",
            Self::SpawnAddMode => "generation.spawn_add_mode",
            Self::ChildScaleRatio => "generation.child_scale_ratio",
            Self::ChildAxisScaleX => "generation.child_axis_scale.x",
            Self::ChildAxisScaleY => "generation.child_axis_scale.y",
            Self::ChildAxisScaleZ => "generation.child_axis_scale.z",
            Self::ChildTwistPerVertexRadians => "generation.child_twist_per_vertex_radians",
            Self::ChildOutwardOffsetRatio => "generation.child_outward_offset_ratio",
            Self::ChildSpawnExclusionProbability => "generation.child_spawn_exclusion_probability",
            Self::StageEnabled => "stage.enabled",
            Self::StageFloorEnabled => "stage.floor.enabled",
            Self::StageBackdropEnabled => "stage.backdrop.enabled",
            Self::GlobalOpacity => "materials.opacity",
            Self::MaterialHueStepPerLevel => "materials.hue_step_per_level",
            Self::MaterialSaturation => "materials.saturation",
            Self::MaterialLightness => "materials.lightness",
            Self::MaterialMetallic => "materials.metallic",
            Self::MaterialPerceptualRoughness => "materials.perceptual_roughness",
            Self::MaterialReflectance => "materials.reflectance",
            Self::MaterialCubeHueBias => "materials.cube_hue_bias",
            Self::MaterialTetrahedronHueBias => "materials.tetrahedron_hue_bias",
            Self::MaterialOctahedronHueBias => "materials.octahedron_hue_bias",
            Self::MaterialDodecahedronHueBias => "materials.dodecahedron_hue_bias",
            Self::MaterialSurfaceMode => "materials.surface_mode",
            Self::MaterialBaseSurface => "materials.base_surface",
            Self::MaterialRootSurface => "materials.root_surface",
            Self::MaterialAccentSurface => "materials.accent_surface",
            Self::MaterialAccentEveryNLevels => "materials.accent_every_n_levels",
            Self::MaterialLevelLightnessShift => "materials.level_lightness_shift",
            Self::MaterialLevelSaturationShift => "materials.level_saturation_shift",
            Self::MaterialLevelMetallicShift => "materials.level_metallic_shift",
            Self::MaterialLevelRoughnessShift => "materials.level_roughness_shift",
            Self::MaterialLevelReflectanceShift => "materials.level_reflectance_shift",
            Self::CameraDistance => "camera.distance",
            Self::CameraAngularVelocityX => "camera.angular_velocity.x",
            Self::CameraAngularVelocityY => "camera.angular_velocity.y",
            Self::CameraAngularVelocityZ => "camera.angular_velocity.z",
            Self::CameraZoomVelocity => "camera.zoom_velocity",
            Self::RenderingClearColorR => "rendering.clear_color.r",
            Self::RenderingClearColorG => "rendering.clear_color.g",
            Self::RenderingClearColorB => "rendering.clear_color.b",
            Self::RenderingAmbientColorR => "rendering.ambient_light_color.r",
            Self::RenderingAmbientColorG => "rendering.ambient_light_color.g",
            Self::RenderingAmbientColorB => "rendering.ambient_light_color.b",
            Self::RenderingAmbientBrightness => "rendering.ambient_light_brightness",
            Self::StageFloorColorR => "stage.floor.color.r",
            Self::StageFloorColorG => "stage.floor.color.g",
            Self::StageFloorColorB => "stage.floor.color.b",
            Self::StageFloorTranslationX => "stage.floor.translation.x",
            Self::StageFloorTranslationY => "stage.floor.translation.y",
            Self::StageFloorTranslationZ => "stage.floor.translation.z",
            Self::StageFloorRotationX => "stage.floor.rotation_degrees.x",
            Self::StageFloorRotationY => "stage.floor.rotation_degrees.y",
            Self::StageFloorRotationZ => "stage.floor.rotation_degrees.z",
            Self::StageFloorSizeX => "stage.floor.size.x",
            Self::StageFloorSizeY => "stage.floor.size.y",
            Self::StageFloorThickness => "stage.floor.thickness",
            Self::StageFloorMetallic => "stage.floor.metallic",
            Self::StageFloorPerceptualRoughness => "stage.floor.perceptual_roughness",
            Self::StageFloorReflectance => "stage.floor.reflectance",
            Self::StageBackdropColorR => "stage.backdrop.color.r",
            Self::StageBackdropColorG => "stage.backdrop.color.g",
            Self::StageBackdropColorB => "stage.backdrop.color.b",
            Self::StageBackdropTranslationX => "stage.backdrop.translation.x",
            Self::StageBackdropTranslationY => "stage.backdrop.translation.y",
            Self::StageBackdropTranslationZ => "stage.backdrop.translation.z",
            Self::StageBackdropRotationX => "stage.backdrop.rotation_degrees.x",
            Self::StageBackdropRotationY => "stage.backdrop.rotation_degrees.y",
            Self::StageBackdropRotationZ => "stage.backdrop.rotation_degrees.z",
            Self::StageBackdropSizeX => "stage.backdrop.size.x",
            Self::StageBackdropSizeY => "stage.backdrop.size.y",
            Self::StageBackdropThickness => "stage.backdrop.thickness",
            Self::StageBackdropMetallic => "stage.backdrop.metallic",
            Self::StageBackdropPerceptualRoughness => "stage.backdrop.perceptual_roughness",
            Self::StageBackdropReflectance => "stage.backdrop.reflectance",
            Self::LightingDirectionalColorR => "lighting.directional.color.r",
            Self::LightingDirectionalColorG => "lighting.directional.color.g",
            Self::LightingDirectionalColorB => "lighting.directional.color.b",
            Self::LightingDirectionalIlluminance => "lighting.directional.illuminance",
            Self::LightingDirectionalTranslationX => "lighting.directional.translation.x",
            Self::LightingDirectionalTranslationY => "lighting.directional.translation.y",
            Self::LightingDirectionalTranslationZ => "lighting.directional.translation.z",
            Self::LightingDirectionalLookAtX => "lighting.directional.look_at.x",
            Self::LightingDirectionalLookAtY => "lighting.directional.look_at.y",
            Self::LightingDirectionalLookAtZ => "lighting.directional.look_at.z",
            Self::LightingPointColorR => "lighting.point.color.r",
            Self::LightingPointColorG => "lighting.point.color.g",
            Self::LightingPointColorB => "lighting.point.color.b",
            Self::LightingPointIntensity => "lighting.point.intensity",
            Self::LightingPointRange => "lighting.point.range",
            Self::LightingPointTranslationX => "lighting.point.translation.x",
            Self::LightingPointTranslationY => "lighting.point.translation.y",
            Self::LightingPointTranslationZ => "lighting.point.translation.z",
            Self::LightingAccentColorR => "lighting.accent.color.r",
            Self::LightingAccentColorG => "lighting.accent.color.g",
            Self::LightingAccentColorB => "lighting.accent.color.b",
            Self::LightingAccentIntensity => "lighting.accent.intensity",
            Self::LightingAccentRange => "lighting.accent.range",
            Self::LightingAccentTranslationX => "lighting.accent.translation.x",
            Self::LightingAccentTranslationY => "lighting.accent.translation.y",
            Self::LightingAccentTranslationZ => "lighting.accent.translation.z",
        }
    }

    /// Length in characters of the stable identifier.
    pub open spec fn stable_id_length(self) -> nat {
        match self {
            Self::ChildKind | Self::MaterialReflectance | Self::StageFloorThickness | Self::StageBackdropSizeX | Self::StageBackdropSizeY | Self::LightingAccentRange => 21,
            Self::SpawnPlacementMode | Self::MaterialDodecahedronHueBias | Self::MaterialAccentEveryNLevels | Self::MaterialLevelLightnessShift | Self::MaterialLevelRoughnessShift | Self::RenderingAmbientColorR | Self::RenderingAmbientColorG | Self::RenderingAmbientColorB => 31,
            Self::SpawnAddMode | Self::CameraAngularVelocityX | Self::CameraAngularVelocityY | Self::CameraAngularVelocityZ | Self::StageFloorTranslationX | Self::StageFloorTranslationY | Self::StageFloorTranslationZ | Self::LightingAccentIntensity => 25,
            Self::ChildScaleRatio | Self::MaterialHueStepPerLevel | Self::StageBackdropTranslationX | Self::StageBackdropTranslationY | Self::StageBackdropTranslationZ | Self::LightingDirectionalColorR | Self::LightingDirectionalColorG | Self::LightingDirectionalColorB | Self::LightingPointTranslationX | Self::LightingPointTranslationY | Self::LightingPointTranslationZ => 28,
            Self::ChildAxisScaleX | Self::ChildAxisScaleY | Self::ChildAxisScaleZ | Self::MaterialOctahedronHueBias | Self::LightingAccentTranslationX | Self::LightingAccentTranslationY | Self::LightingAccentTranslationZ => 29,
            Self::ChildTwistPerVertexRadians => 41,
            Self::ChildOutwardOffsetRatio => 37,
            Self::ChildSpawnExclusionProbability => 44,
            Self::StageEnabled => 13,
            Self::StageFloorEnabled | Self::MaterialLightness | Self::StageFloorColorR | Self::StageFloorColorG | Self::StageFloorColorB => 19,
            Self::StageBackdropEnabled | Self::MaterialSurfaceMode | Self::MaterialBaseSurface | Self::MaterialRootSurface | Self::StageBackdropColorR | Self::StageBackdropColorG | Self::StageBackdropColorB | Self::LightingPointColorR | Self::LightingPointColorG | Self::LightingPointColorB => 22,
            Self::GlobalOpacity => 17,
            Self::MaterialSaturation | Self::CameraZoomVelocity | Self::StageFloorMetallic | Self::LightingPointRange => 20,
            Self::MaterialMetallic | Self::StageFloorSizeX | Self::StageFloorSizeY => 18,
            Self::MaterialPerceptualRoughness | Self::MaterialTetrahedronHueBias | Self::MaterialLevelMetallicShift | Self::StageFloorRotationX | Self::StageFloorRotationY | Self::StageFloorRotationZ | Self::LightingDirectionalLookAtX | Self::LightingDirectionalLookAtY | Self::LightingDirectionalLookAtZ => 30,
            Self::MaterialCubeHueBias | Self::RenderingClearColorR | Self::RenderingClearColorG | Self::RenderingClearColorB | Self::StageFloorReflectance | Self::StageBackdropMetallic | Self::LightingAccentColorR | Self::LightingAccentColorG | Self::LightingAccentColorB => 23,
            Self::MaterialAccentSurface | Self::StageBackdropThickness | Self::LightingPointIntensity => 24,
            Self::MaterialLevelSaturationShift | Self::StageFloorPerceptualRoughness | Self::LightingDirectionalIlluminance => 32,
            Self::MaterialLevelReflectanceShift | Self::StageBackdropRotationX | Self::StageBackdropRotationY | Self::StageBackdropRotationZ => 33,
            Self::CameraDistance => 15,
            Self::RenderingAmbientBrightness | Self::LightingDirectionalTranslationX | Self::LightingDirectionalTranslationY | Self::LightingDirectionalTranslationZ => 34,
            Self::StageBackdropPerceptualRoughness => 35,
            Self::StageBackdropReflectance => 26,
        }
    }

    /// The parameter whose stable identifier is `stable_id`, if any.
    pub open spec fn spec_from_stable_id(stable_id: Seq<char>) -> Option<EffectTunerSceneParameter> {
        if exists|parameter: EffectTunerSceneParameter| parameter.spec_stable_id()@ == stable_id {
            Some(choose|parameter: EffectTunerSceneParameter| parameter.spec_stable_id()@ == stable_id)
        } else {
            None
        }
    }

    /// The parameter whose stable identifier is `stable_id`, if any.
    pub fn from_stable_id(stable_id: &str) -> (found: Option<EffectTunerSceneParameter>)
        ensures
            found == Self::spec_from_stable_id(stable_id@),
    {
        let all = Self::all();
        let mut i: usize = 0;
        while i < all.len()
            invariant
                all@ == Self::spec_all(),
                i <= all@.len(),
                forall|j: int| 0 <= j < i ==> all@[j].spec_stable_id()@ != stable_id@,
            decreases all@.len() - i,
        {
            if crate::text::str_equal(all[i].stable_id(), stable_id) {
                proof {
                    let chosen = choose|parameter: EffectTunerSceneParameter| parameter.spec_stable_id()@ == stable_id@;
                    stable_ids_are_distinct(chosen, all@[i as int]);
                }
                return Some(all[i]);
            }
            i += 1;
        }
        proof {
            assert forall|parameter: EffectTunerSceneParameter| parameter.spec_stable_id()@ != stable_id@ by {
                lemma_listed(parameter);
            }
        }
        None
    }

    /// The long label of the parameter: its stable identifier.
    pub fn label(self) -> (text: &'static str)
        ensures
            text == self.spec_stable_id(),
    {
        self.stable_id()
    }

    /// Short label shown in the control-page columns.
    pub open spec fn spec_short_label(self) -> &'static str {
        match self {
            Self::ChildKind => "shape",
            Self::SpawnPlacementMode => "placement",
            Self::SpawnAddMode => "add mode",
            Self::ChildScaleRatio => "scale",
            Self::ChildAxisScaleX => "axis x",
            Self::ChildAxisScaleY => "axis y",
            Self::ChildAxisScaleZ => "axis z",
            Self::ChildTwistPerVertexRadians => "twist",
            Self::ChildOutwardOffsetRatio => "offset",
            Self::ChildSpawnExclusionProbability => "spawn%",
            Self::StageEnabled => "enabled",
            Self::StageFloorEnabled => "floor",
            Self::StageBackdropEnabled => "backdrop",
            Self::GlobalOpacity => "opacity",
            Self::MaterialHueStepPerLevel => "hue step",
            Self::MaterialSaturation => "sat",
            Self::MaterialLightness => "light",
            Self::MaterialMetallic => "metallic",
            Self::MaterialPerceptualRoughness => "roughness",
            Self::MaterialReflectance => "reflect",
            Self::MaterialCubeHueBias => "cube hue",
            Self::MaterialTetrahedronHueBias => "tetra hue",
            Self::MaterialOctahedronHueBias => "octa hue",
            Self::MaterialDodecahedronHueBias => "dodec hue",
            Self::MaterialSurfaceMode => "surface",
            Self::MaterialBaseSurface => "base surf",
            Self::MaterialRootSurface => "root surf",
            Self::MaterialAccentSurface => "accent srf",
            Self::MaterialAccentEveryNLevels => "accent nth",
            Self::MaterialLevelLightnessShift => "lvl light",
            Self::MaterialLevelSaturationShift => "lvl sat",
            Self::MaterialLevelMetallicShift => "lvl metal",
            Self::MaterialLevelRoughnessShift => "lvl rough",
            Self::MaterialLevelReflectanceShift => "lvl refl",
            Self::CameraDistance => "distance",
            Self::CameraAngularVelocityX => "ang x",
            Self::CameraAngularVelocityY => "ang y",
            Self::CameraAngularVelocityZ => "ang z",
            Self::CameraZoomVelocity => "zoom vel",
            Self::RenderingClearColorR => "clear r",
            Self::RenderingClearColorG => "clear g",
            Self::RenderingClearColorB => "clear b",
            Self::RenderingAmbientColorR => "amb r",
            Self::RenderingAmbientColorG => "amb g",
            Self::RenderingAmbientColorB => "amb b",
            Self::RenderingAmbientBrightness => "amb brt",
            Self::StageFloorColorR | Self::StageBackdropColorR | Self::LightingDirectionalColorR | Self::LightingPointColorR | Self::LightingAccentColorR => "color r",
            Self::StageFloorColorG | Self::StageBackdropColorG | Self::LightingDirectionalColorG | Self::LightingPointColorG | Self::LightingAccentColorG => "color g",
            Self::StageFloorColorB | Self::StageBackdropColorB | Self::LightingDirectionalColorB | Self::LightingPointColorB | Self::LightingAccentColorB => "color b",
            Self::StageFloorTranslationX | Self::StageBackdropTranslationX | Self::LightingDirectionalTranslationX | Self::LightingPointTranslationX | Self::LightingAccentTranslationX => "pos x",
            Self::StageFloorTranslationY | Self::StageBackdropTranslationY | Self::LightingDirectionalTranslationY | Self::LightingPointTranslationY | Self::LightingAccentTranslationY => "pos y",
            Self::StageFloorTranslationZ | Self::StageBackdropTranslationZ | Self::LightingDirectionalTranslationZ | Self::LightingPointTranslationZ | Self::LightingAccentTranslationZ => "pos z",
            Self::StageFloorRotationX | Self::StageBackdropRotationX => "rot x",
            Self::StageFloorRotationY | Self::StageBackdropRotationY => "rot y",
            Self::StageFloorRotationZ | Self::StageBackdropRotationZ => "rot z",
            Self::StageFloorSizeX | Self::StageBackdropSizeX => "size x",
            Self::StageFloorSizeY | Self::StageBackdropSizeY => "size y",
            Self::StageFloorThickness | Self::StageBackdropThickness => "thick",
            Self::StageFloorMetallic | Self::StageBackdropMetallic => "metal",
            Self::StageFloorPerceptualRoughness | Self::StageBackdropPerceptualRoughness => "rough",
            Self::StageFloorReflectance | Self::StageBackdropReflectance => "refl",
            Self::LightingDirectionalIlluminance => "illum",
            Self::LightingDirectionalLookAtX => "look x",
            Self::LightingDirectionalLookAtY => "look y",
            Self::LightingDirectionalLookAtZ => "look z",
            Self::LightingPointIntensity | Self::LightingAccentIntensity => "intensity",
            Self::LightingPointRange | Self::LightingAccentRange => "range",
        }
    }

    /// Short label shown in the control-page columns.
    pub fn short_label(self) -> (value: &'static str)
        ensures
            value == self.spec_short_label(),
    {
        match self {
            Self::ChildKind => "shape",
            Self::SpawnPlacementMode => "placement",
            Self::SpawnAddMode => "add mode",
            Self::ChildScaleRatio => "scale",
            Self::ChildAxisScaleX => "axis x",
            Self::ChildAxisScaleY => "axis y",
            Self::ChildAxisScaleZ => "axis z",
            Self::ChildTwistPerVertexRadians => "twist",
            Self::ChildOutwardOffsetRatio => "offset",
            Self::ChildSpawnExclusionProbability => "spawn%",
            Self::StageEnabled => "enabled",
            Self::StageFloorEnabled => "floor",
            Self::StageBackdropEnabled => "backdrop",
            Self::GlobalOpacity => "opacity",
            Self::MaterialHueStepPerLevel => "hue step",
            Self::MaterialSaturation => "sat",
            Self::MaterialLightness => "light",
            Self::MaterialMetallic => "metallic",
            Self::MaterialPerceptualRoughness => "roughness",
            Self::MaterialReflectance => "reflect",
            Self::MaterialCubeHueBias => "cube hue",
            Self::MaterialTetrahedronHueBias => "tetra hue",
            Self::MaterialOctahedronHueBias => "octa hue",
            Self::MaterialDodecahedronHueBias => "dodec hue",
            Self::MaterialSurfaceMode => "surface",
            Self::MaterialBaseSurface => "base surf",
            Self::MaterialRootSurface => "root surf",
            Self::MaterialAccentSurface => "accent srf",
            Self::MaterialAccentEveryNLevels => "accent nth",
            Self::MaterialLevelLightnessShift => "lvl light",
            Self::MaterialLevelSaturationShift => "lvl sat",
            Self::MaterialLevelMetallicShift => "lvl metal",
            Self::MaterialLevelRoughnessShift => "lvl rough",
            Self::MaterialLevelReflectanceShift => "lvl refl",
            Self::CameraDistance => "distance",
            Self::CameraAngularVelocityX => "ang x",
            Self::CameraAngularVelocityY => "ang y",
            Self::CameraAngularVelocityZ => "ang z",
            Self::CameraZoomVelocity => "zoom vel",
            Self::RenderingClearColorR => "clear r",
            Self::RenderingClearColorG => "clear g",
            Self::RenderingClearColorB => "clear b",
            Self::RenderingAmbientColorR => "amb r",
            Self::RenderingAmbientColorG => "amb g",
            Self::RenderingAmbientColorB => "amb b",
            Self::RenderingAmbientBrightness => "amb brt",
            Self::StageFloorColorR | Self::StageBackdropColorR | Self::LightingDirectionalColorR | Self::LightingPointColorR | Self::LightingAccentColorR => "color r",
            Self::StageFloorColorG | Self::StageBackdropColorG | Self::LightingDirectionalColorG | Self::LightingPointColorG | Self::LightingAccentColorG => "color g",
            Self::StageFloorColorB | Self::StageBackdropColorB | Self::LightingDirectionalColorB | Self::LightingPointColorB | Self::LightingAccentColorB => "color b",
            Self::StageFloorTranslationX | Self::StageBackdropTranslationX | Self::LightingDirectionalTranslationX | Self::LightingPointTranslationX | Self::LightingAccentTranslationX => "pos x",
            Self::StageFloorTranslationY | Self::StageBackdropTranslationY | Self::LightingDirectionalTranslationY | Self::LightingPointTranslationY | Self::LightingAccentTranslationY => "pos y",
            Self::StageFloorTranslationZ | Self::StageBackdropTranslationZ | Self::LightingDirectionalTranslationZ | Self::LightingPointTranslationZ | Self::LightingAccentTranslationZ => "pos z",
            Self::StageFloorRotationX | Self::StageBackdropRotationX => "rot x",
            Self::StageFloorRotationY | Self::StageBackdropRotationY => "rot y",
            Self::StageFloorRotationZ | Self::StageBackdropRotationZ => "rot z",
            Self::StageFloorSizeX | Self::StageBackdropSizeX => "size x",
            Self::StageFloorSizeY | Self::StageBackdropSizeY => "size y",
            Self::StageFloorThickness | Self::StageBackdropThickness => "thick",
            Self::StageFloorMetallic | Self::StageBackdropMetallic => "metal",
            Self::StageFloorPerceptualRoughness | Self::StageBackdropPerceptualRoughness => "rough",
            Self::StageFloorReflectance | Self::StageBackdropReflectance => "refl",
            Self::LightingDirectionalIlluminance => "illum",
            Self::LightingDirectionalLookAtX => "look x",
            Self::LightingDirectionalLookAtY => "look y",
            Self::LightingDirectionalLookAtZ => "look z",
            Self::LightingPointIntensity | Self::LightingAccentIntensity => "intensity",
            Self::LightingPointRange | Self::LightingAccentRange => "range",
        }
    }

    /// Group column label of the parameter.
    pub open spec fn spec_group_label(self) -> &'static str {
        match self {
            Self::ChildKind | Self::SpawnPlacementMode | Self::SpawnAddMode | Self::ChildScaleRatio | Self::ChildAxisScaleX | Self::ChildAxisScaleY | Self::ChildAxisScaleZ | Self::ChildTwistPerVertexRadians | Self::ChildOutwardOffsetRatio | Self::ChildSpawnExclusionProbability => "scene",
            Self::StageEnabled | Self::StageFloorEnabled | Self::StageBackdropEnabled => "stage",
            Self::GlobalOpacity | Self::MaterialHueStepPerLevel | Self::MaterialSaturation | Self::MaterialLightness | Self::MaterialMetallic | Self::MaterialPerceptualRoughness | Self::MaterialReflectance | Self::MaterialCubeHueBias | Self::MaterialTetrahedronHueBias | Self::MaterialOctahedronHueBias | Self::MaterialDodecahedronHueBias | Self::MaterialSurfaceMode | Self::MaterialBaseSurface | Self::MaterialRootSurface | Self::MaterialAccentSurface | Self::MaterialAccentEveryNLevels | Self::MaterialLevelLightnessShift | Self::MaterialLevelSaturationShift | Self::MaterialLevelMetallicShift | Self::MaterialLevelRoughnessShift | Self::MaterialLevelReflectanceShift => "mat",
            Self::CameraDistance | Self::CameraAngularVelocityX | Self::CameraAngularVelocityY | Self::CameraAngularVelocityZ | Self::CameraZoomVelocity => "camera",
            Self::RenderingClearColorR | Self::RenderingClearColorG | Self::RenderingClearColorB | Self::RenderingAmbientColorR | Self::RenderingAmbientColorG | Self::RenderingAmbientColorB | Self::RenderingAmbientBrightness => "render",
            Self::StageFloorColorR | Self::StageFloorColorG | Self::StageFloorColorB | Self::StageFloorTranslationX | Self::StageFloorTranslationY | Self::StageFloorTranslationZ | Self::StageFloorRotationX | Self::StageFloorRotationY | Self::StageFloorRotationZ | Self::StageFloorSizeX | Self::StageFloorSizeY | Self::StageFloorThickness | Self::StageFloorMetallic | Self::StageFloorPerceptualRoughness | Self::StageFloorReflectance => "floor",
            Self::StageBackdropColorR | Self::StageBackdropColorG | Self::StageBackdropColorB | Self::StageBackdropTranslationX | Self::StageBackdropTranslationY | Self::StageBackdropTranslationZ | Self::StageBackdropRotationX | Self::StageBackdropRotationY | Self::StageBackdropRotationZ | Self::StageBackdropSizeX | Self::StageBackdropSizeY | Self::StageBackdropThickness | Self::StageBackdropMetallic | Self::StageBackdropPerceptualRoughness | Self::StageBackdropReflectance => "backdrop",
            Self::LightingDirectionalColorR | Self::LightingDirectionalColorG | Self::LightingDirectionalColorB | Self::LightingDirectionalIlluminance | Self::LightingDirectionalTranslationX | Self::LightingDirectionalTranslationY | Self::LightingDirectionalTranslationZ | Self::LightingDirectionalLookAtX | Self::LightingDirectionalLookAtY | Self::LightingDirectionalLookAtZ => "dir",
            Self::LightingPointColorR | Self::LightingPointColorG | Self::LightingPointColorB | Self::LightingPointIntensity | Self::LightingPointRange | Self::LightingPointTranslationX | Self::LightingPointTranslationY | Self::LightingPointTranslationZ => "point",
            Self::LightingAccentColorR | Self::LightingAccentColorG | Self::LightingAccentColorB | Self::LightingAccentIntensity | Self::LightingAccentRange | Self::LightingAccentTranslationX | Self::LightingAccentTranslationY | Self::LightingAccentTranslationZ => "accent",
        }
    }

    /// Group column label of the parameter.
    pub fn group_label(self) -> (value: &'static str)
        ensures
            value == self.spec_group_label(),
    {
        match self {
            Self::ChildKind | Self::SpawnPlacementMode | Self::SpawnAddMode | Self::ChildScaleRatio | Self::ChildAxisScaleX | Self::ChildAxisScaleY | Self::ChildAxisScaleZ | Self::ChildTwistPerVertexRadians | Self::ChildOutwardOffsetRatio | Self::ChildSpawnExclusionProbability => "scene",
            Self::StageEnabled | Self::StageFloorEnabled | Self::StageBackdropEnabled => "stage",
            Self::GlobalOpacity | Self::MaterialHueStepPerLevel | Self::MaterialSaturation | Self::MaterialLightness | Self::MaterialMetallic | Self::MaterialPerceptualRoughness | Self::MaterialReflectance | Self::MaterialCubeHueBias | Self::MaterialTetrahedronHueBias | Self::MaterialOctahedronHueBias | Self::MaterialDodecahedronHueBias | Self::MaterialSurfaceMode | Self::MaterialBaseSurface | Self::MaterialRootSurface | Self::MaterialAccentSurface | Self::MaterialAccentEveryNLevels | Self::MaterialLevelLightnessShift | Self::MaterialLevelSaturationShift | Self::MaterialLevelMetallicShift | Self::MaterialLevelRoughnessShift | Self::MaterialLevelReflectanceShift => "mat",
            Self::CameraDistance | Self::CameraAngularVelocityX | Self::CameraAngularVelocityY | Self::CameraAngularVelocityZ | Self::CameraZoomVelocity => "camera",
            Self::RenderingClearColorR | Self::RenderingClearColorG | Self::RenderingClearColorB | Self::RenderingAmbientColorR | Self::RenderingAmbientColorG | Self::RenderingAmbientColorB | Self::RenderingAmbientBrightness => "render",
            Self::StageFloorColorR | Self::StageFloorColorG | Self::StageFloorColorB | Self::StageFloorTranslationX | Self::StageFloorTranslationY | Self::StageFloorTranslationZ | Self::StageFloorRotationX | Self::StageFloorRotationY | Self::StageFloorRotationZ | Self::StageFloorSizeX | Self::StageFloorSizeY | Self::StageFloorThickness | Self::StageFloorMetallic | Self::StageFloorPerceptualRoughness | Self::StageFloorReflectance => "floor",
            Self::StageBackdropColorR | Self::StageBackdropColorG | Self::StageBackdropColorB | Self::StageBackdropTranslationX | Self::StageBackdropTranslationY | Self::StageBackdropTranslationZ | Self::StageBackdropRotationX | Self::StageBackdropRotationY | Self::StageBackdropRotationZ | Self::StageBackdropSizeX | Self::StageBackdropSizeY | Self::StageBackdropThickness | Self::StageBackdropMetallic | Self::StageBackdropPerceptualRoughness | Self::StageBackdropReflectance => "backdrop",
            Self::LightingDirectionalColorR | Self::LightingDirectionalColorG | Self::LightingDirectionalColorB | Self::LightingDirectionalIlluminance | Self::LightingDirectionalTranslationX | Self::LightingDirectionalTranslationY | Self::LightingDirectionalTranslationZ | Self::LightingDirectionalLookAtX | Self::LightingDirectionalLookAtY | Self::LightingDirectionalLookAtZ => "dir",
            Self::LightingPointColorR | Self::LightingPointColorG | Self::LightingPointColorB | Self::LightingPointIntensity | Self::LightingPointRange | Self::LightingPointTranslationX | Self::LightingPointTranslationY | Self::LightingPointTranslationZ => "point",
            Self::LightingAccentColorR | Self::LightingAccentColorG | Self::LightingAccentColorB | Self::LightingAccentIntensity | Self::LightingAccentRange | Self::LightingAccentTranslationX | Self::LightingAccentTranslationY | Self::LightingAccentTranslationZ => "accent",
        }
    }

    /// The part of the scene refreshed after the parameter changes.
    pub open spec fn spec_change_target(self) -> SceneChangeTarget {
        match self {
            Self::ChildKind | Self::SpawnPlacementMode | Self::SpawnAddMode | Self::ChildScaleRatio | Self::ChildAxisScaleX | Self::ChildAxisScaleY | Self::ChildAxisScaleZ | Self::ChildSpawnExclusionProbability => SceneChangeTarget::Nothing,
            Self::ChildTwistPerVertexRadians | Self::ChildOutwardOffsetRatio => SceneChangeTarget::Generation,
            Self::StageEnabled | Self::StageFloorEnabled | Self::StageBackdropEnabled | Self::StageFloorColorR | Self::StageFloorColorG | Self::StageFloorColorB | Self::StageFloorTranslationX | Self::StageFloorTranslationY | Self::StageFloorTranslationZ | Self::StageFloorRotationX | Self::StageFloorRotationY | Self::StageFloorRotationZ | Self::StageFloorSizeX | Self::StageFloorSizeY | Self::StageFloorThickness | Self::StageFloorMetallic | Self::StageFloorPerceptualRoughness | Self::StageFloorReflectance | Self::StageBackdropColorR | Self::StageBackdropColorG | Self::StageBackdropColorB | Self::StageBackdropTranslationX | Self::StageBackdropTranslationY | Self::StageBackdropTranslationZ | Self::StageBackdropRotationX | Self::StageBackdropRotationY | Self::StageBackdropRotationZ | Self::StageBackdropSizeX | Self::StageBackdropSizeY | Self::StageBackdropThickness | Self::StageBackdropMetallic | Self::StageBackdropPerceptualRoughness | Self::StageBackdropReflectance => SceneChangeTarget::Stage,
            Self::GlobalOpacity | Self::MaterialHueStepPerLevel | Self::MaterialSaturation | Self::MaterialLightness | Self::MaterialMetallic | Self::MaterialPerceptualRoughness | Self::MaterialReflectance | Self::MaterialCubeHueBias | Self::MaterialTetrahedronHueBias | Self::MaterialOctahedronHueBias | Self::MaterialDodecahedronHueBias | Self::MaterialSurfaceMode | Self::MaterialBaseSurface | Self::MaterialRootSurface | Self::MaterialAccentSurface | Self::MaterialAccentEveryNLevels | Self::MaterialLevelLightnessShift | Self::MaterialLevelSaturationShift | Self::MaterialLevelMetallicShift | Self::MaterialLevelRoughnessShift | Self::MaterialLevelReflectanceShift => SceneChangeTarget::Materials,
            Self::CameraDistance | Self::CameraAngularVelocityX | Self::CameraAngularVelocityY | Self::CameraAngularVelocityZ | Self::CameraZoomVelocity => SceneChangeTarget::Camera,
            Self::RenderingClearColorR | Self::RenderingClearColorG | Self::RenderingClearColorB | Self::RenderingAmbientColorR | Self::RenderingAmbientColorG | Self::RenderingAmbientColorB | Self::RenderingAmbientBrightness => SceneChangeTarget::Rendering,
            Self::LightingDirectionalColorR | Self::LightingDirectionalColorG | Self::LightingDirectionalColorB | Self::LightingDirectionalIlluminance | Self::LightingDirectionalTranslationX | Self::LightingDirectionalTranslationY | Self::LightingDirectionalTranslationZ | Self::LightingDirectionalLookAtX | Self::LightingDirectionalLookAtY | Self::LightingDirectionalLookAtZ | Self::LightingPointColorR | Self::LightingPointColorG | Self::LightingPointColorB | Self::LightingPointIntensity | Self::LightingPointRange | Self::LightingPointTranslationX | Self::LightingPointTranslationY | Self::LightingPointTranslationZ | Self::LightingAccentColorR | Self::LightingAccentColorG | Self::LightingAccentColorB | Self::LightingAccentIntensity | Self::LightingAccentRange | Self::LightingAccentTranslationX | Self::LightingAccentTranslationY | Self::LightingAccentTranslationZ => SceneChangeTarget::Lighting,
        }
    }

    /// The part of the scene refreshed after the parameter changes.
    pub fn change_target(self) -> (value: SceneChangeTarget)
        ensures
            value == self.spec_change_target(),
    {
        match self {
            Self::ChildKind | Self::SpawnPlacementMode | Self::SpawnAddMode | Self::ChildScaleRatio | Self::ChildAxisScaleX | Self::ChildAxisScaleY | Self::ChildAxisScaleZ | Self::ChildSpawnExclusionProbability => SceneChangeTarget::Nothing,
            Self::ChildTwistPerVertexRadians | Self::ChildOutwardOffsetRatio => SceneChangeTarget::Generation,
            Self::StageEnabled | Self::StageFloorEnabled | Self::StageBackdropEnabled | Self::StageFloorColorR | Self::StageFloorColorG | Self::StageFloorColorB | Self::StageFloorTranslationX | Self::StageFloorTranslationY | Self::StageFloorTranslationZ | Self::StageFloorRotationX | Self::StageFloorRotationY | Self::StageFloorRotationZ | Self::StageFloorSizeX | Self::StageFloorSizeY | Self::StageFloorThickness | Self::StageFloorMetallic | Self::StageFloorPerceptualRoughness | Self::StageFloorReflectance | Self::StageBackdropColorR | Self::StageBackdropColorG | Self::StageBackdropColorB | Self::StageBackdropTranslationX | Self::StageBackdropTranslationY | Self::StageBackdropTranslationZ | Self::StageBackdropRotationX | Self::StageBackdropRotationY | Self::StageBackdropRotationZ | Self::StageBackdropSizeX | Self::StageBackdropSizeY | Self::StageBackdropThickness | Self::StageBackdropMetallic | Self::StageBackdropPerceptualRoughness | Self::StageBackdropReflectance => SceneChangeTarget::Stage,
            Self::GlobalOpacity | Self::MaterialHueStepPerLevel | Self::MaterialSaturation | Self::MaterialLightness | Self::MaterialMetallic | Self::MaterialPerceptualRoughness | Self::MaterialReflectance | Self::MaterialCubeHueBias | Self::MaterialTetrahedronHueBias | Self::MaterialOctahedronHueBias | Self::MaterialDodecahedronHueBias | Self::MaterialSurfaceMode | Self::MaterialBaseSurface | Self::MaterialRootSurface | Self::MaterialAccentSurface | Self::MaterialAccentEveryNLevels | Self::MaterialLevelLightnessShift | Self::MaterialLevelSaturationShift | Self::MaterialLevelMetallicShift | Self::MaterialLevelRoughnessShift | Self::MaterialLevelReflectanceShift => SceneChangeTarget::Materials,
            Self::CameraDistance | Self::CameraAngularVelocityX | Self::CameraAngularVelocityY | Self::CameraAngularVelocityZ | Self::CameraZoomVelocity => SceneChangeTarget::Camera,
            Self::RenderingClearColorR | Self::RenderingClearColorG | Self::RenderingClearColorB | Self::RenderingAmbientColorR | Self::RenderingAmbientColorG | Self::RenderingAmbientColorB | Self::RenderingAmbientBrightness => SceneChangeTarget::Rendering,
            Self::LightingDirectionalColorR | Self::LightingDirectionalColorG | Self::LightingDirectionalColorB | Self::LightingDirectionalIlluminance | Self::LightingDirectionalTranslationX | Self::LightingDirectionalTranslationY | Self::LightingDirectionalTranslationZ | Self::LightingDirectionalLookAtX | Self::LightingDirectionalLookAtY | Self::LightingDirectionalLookAtZ | Self::LightingPointColorR | Self::LightingPointColorG | Self::LightingPointColorB | Self::LightingPointIntensity | Self::LightingPointRange | Self::LightingPointTranslationX | Self::LightingPointTranslationY | Self::LightingPointTranslationZ | Self::LightingAccentColorR | Self::LightingAccentColorG | Self::LightingAccentColorB | Self::LightingAccentIntensity | Self::LightingAccentRange | Self::LightingAccentTranslationX | Self::LightingAccentTranslationY | Self::LightingAccentTranslationZ => SceneChangeTarget::Lighting,
        }
    }

    /// Whether the parameter holds a number (rather than a choice or a switch).
    pub open spec fn spec_is_numeric(self) -> bool {
        match self {
            Self::ChildKind | Self::SpawnPlacementMode | Self::SpawnAddMode | Self::StageEnabled | Self::StageFloorEnabled | Self::StageBackdropEnabled | Self::MaterialSurfaceMode | Self::MaterialBaseSurface | Self::MaterialRootSurface | Self::MaterialAccentSurface => false,
            Self::ChildScaleRatio | Self::ChildAxisScaleX | Self::ChildAxisScaleY | Self::ChildAxisScaleZ | Self::ChildTwistPerVertexRadians | Self::ChildOutwardOffsetRatio | Self::ChildSpawnExclusionProbability | Self::GlobalOpacity | Self::MaterialHueStepPerLevel | Self::MaterialSaturation | Self::MaterialLightness | Self::MaterialMetallic | Self::MaterialPerceptualRoughness | Self::MaterialReflectance | Self::MaterialCubeHueBias | Self::MaterialTetrahedronHueBias | Self::MaterialOctahedronHueBias | Self::MaterialDodecahedronHueBias | Self::MaterialAccentEveryNLevels | Self::MaterialLevelLightnessShift | Self::MaterialLevelSaturationShift | Self::MaterialLevelMetallicShift | Self::MaterialLevelRoughnessShift | Self::MaterialLevelReflectanceShift | Self::CameraDistance | Self::CameraAngularVelocityX | Self::CameraAngularVelocityY | Self::CameraAngularVelocityZ | Self::CameraZoomVelocity | Self::RenderingClearColorR | Self::RenderingClearColorG | Self::RenderingClearColorB | Self::RenderingAmbientColorR | Self::RenderingAmbientColorG | Self::RenderingAmbientColorB | Self::RenderingAmbientBrightness | Self::StageFloorColorR | Self::StageFloorColorG | Self::StageFloorColorB | Self::StageFloorTranslationX | Self::StageFloorTranslationY | Self::StageFloorTranslationZ | Self::StageFloorRotationX | Self::StageFloorRotationY | Self::StageFloorRotationZ | Self::StageFloorSizeX | Self::StageFloorSizeY | Self::StageFloorThickness | Self::StageFloorMetallic | Self::StageFloorPerceptualRoughness | Self::StageFloorReflectance | Self::StageBackdropColorR | Self::StageBackdropColorG | Self::StageBackdropColorB | Self::StageBackdropTranslationX | Self::StageBackdropTranslationY | Self::StageBackdropTranslationZ | Self::StageBackdropRotationX | Self::StageBackdropRotationY | Self::StageBackdropRotationZ | Self::StageBackdropSizeX | Self::StageBackdropSizeY | Self::StageBackdropThickness | Self::StageBackdropMetallic | Self::StageBackdropPerceptualRoughness | Self::StageBackdropReflectance | Self::LightingDirectionalColorR | Self::LightingDirectionalColorG | Self::LightingDirectionalColorB | Self::LightingDirectionalIlluminance | Self::LightingDirectionalTranslationX | Self::LightingDirectionalTranslationY | Self::LightingDirectionalTranslationZ | Self::LightingDirectionalLookAtX | Self::LightingDirectionalLookAtY | Self::LightingDirectionalLookAtZ | Self::LightingPointColorR | Self::LightingPointColorG | Self::LightingPointColorB | Self::LightingPointIntensity | Self::LightingPointRange | Self::LightingPointTranslationX | Self::LightingPointTranslationY | Self::LightingPointTranslationZ | Self::LightingAccentColorR | Self::LightingAccentColorG | Self::LightingAccentColorB | Self::LightingAccentIntensity | Self::LightingAccentRange | Self::LightingAccentTranslationX | Self::LightingAccentTranslationY | Self::LightingAccentTranslationZ => true,
        }
    }

    /// Whether the parameter holds a number (rather than a choice or a switch).
    pub fn is_numeric(self) -> (value: bool)
        ensures
            value == self.spec_is_numeric(),
    {
        match self {
            Self::ChildKind | Self::SpawnPlacementMode | Self::SpawnAddMode | Self::StageEnabled | Self::StageFloorEnabled | Self::StageBackdropEnabled | Self::MaterialSurfaceMode | Self::MaterialBaseSurface | Self::MaterialRootSurface | Self::MaterialAccentSurface => false,
            Self::ChildScaleRatio | Self::ChildAxisScaleX | Self::ChildAxisScaleY | Self::ChildAxisScaleZ | Self::ChildTwistPerVertexRadians | Self::ChildOutwardOffsetRatio | Self::ChildSpawnExclusionProbability | Self::GlobalOpacity | Self::MaterialHueStepPerLevel | Self::MaterialSaturation | Self::MaterialLightness | Self::MaterialMetallic | Self::MaterialPerceptualRoughness | Self::MaterialReflectance | Self::MaterialCubeHueBias | Self::MaterialTetrahedronHueBias | Self::MaterialOctahedronHueBias | Self::MaterialDodecahedronHueBias | Self::MaterialAccentEveryNLevels | Self::MaterialLevelLightnessShift | Self::MaterialLevelSaturationShift | Self::MaterialLevelMetallicShift | Self::MaterialLevelRoughnessShift | Self::MaterialLevelReflectanceShift | Self::CameraDistance | Self::CameraAngularVelocityX | Self::CameraAngularVelocityY | Self::CameraAngularVelocityZ | Self::CameraZoomVelocity | Self::RenderingClearColorR | Self::RenderingClearColorG | Self::RenderingClearColorB | Self::RenderingAmbientColorR | Self::RenderingAmbientColorG | Self::RenderingAmbientColorB | Self::RenderingAmbientBrightness | Self::StageFloorColorR | Self::StageFloorColorG | Self::StageFloorColorB | Self::StageFloorTranslationX | Self::StageFloorTranslationY | Self::StageFloorTranslationZ | Self::StageFloorRotationX | Self::StageFloorRotationY | Self::StageFloorRotationZ | Self::StageFloorSizeX | Self::StageFloorSizeY | Self::StageFloorThickness | Self::StageFloorMetallic | Self::StageFloorPerceptualRoughness | Self::StageFloorReflectance | Self::StageBackdropColorR | Self::StageBackdropColorG | Self::StageBackdropColorB | Self::StageBackdropTranslationX | Self::StageBackdropTranslationY | Self::StageBackdropTranslationZ | Self::StageBackdropRotationX | Self::StageBackdropRotationY | Self::StageBackdropRotationZ | Self::StageBackdropSizeX | Self::StageBackdropSizeY | Self::StageBackdropThickness | Self::StageBackdropMetallic | Self::StageBackdropPerceptualRoughness | Self::StageBackdropReflectance | Self::LightingDirectionalColorR | Self::LightingDirectionalColorG | Self::LightingDirectionalColorB | Self::LightingDirectionalIlluminance | Self::LightingDirectionalTranslationX | Self::LightingDirectionalTranslationY | Self::LightingDirectionalTranslationZ | Self::LightingDirectionalLookAtX | Self::LightingDirectionalLookAtY | Self::LightingDirectionalLookAtZ | Self::LightingPointColorR | Self::LightingPointColorG | Self::LightingPointColorB | Self::LightingPointIntensity | Self::LightingPointRange | Self::LightingPointTranslationX | Self::LightingPointTranslationY | Self::LightingPointTranslationZ | Self::LightingAccentColorR | Self::LightingAccentColorG | Self::LightingAccentColorB | Self::LightingAccentIntensity | Self::LightingAccentRange | Self::LightingAccentTranslationX | Self::LightingAccentTranslationY | Self::LightingAccentTranslationZ => true,
        }
    }

    /// The generation parameter behind a scene parameter, if any.
    pub open spec fn spec_generation_parameter(self) -> Option<GenerationParameter> {
        match self {
            Self::ChildKind | Self::SpawnPlacementMode | Self::SpawnAddMode | Self::StageEnabled | Self::StageFloorEnabled | Self::StageBackdropEnabled | Self::GlobalOpacity | Self::MaterialHueStepPerLevel | Self::MaterialSaturation | Self::MaterialLightness | Self::MaterialMetallic | Self::MaterialPerceptualRoughness | Self::MaterialReflectance | Self::MaterialCubeHueBias | Self::MaterialTetrahedronHueBias | Self::MaterialOctahedronHueBias | Self::MaterialDodecahedronHueBias | Self::MaterialSurfaceMode | Self::MaterialBaseSurface | Self::MaterialRootSurface | Self::MaterialAccentSurface | Self::MaterialAccentEveryNLevels | Self::MaterialLevelLightnessShift | Self::MaterialLevelSaturationShift | Self::MaterialLevelMetallicShift | Self::MaterialLevelRoughnessShift | Self::MaterialLevelReflectanceShift | Self::CameraDistance | Self::CameraAngularVelocityX | Self::CameraAngularVelocityY | Self::CameraAngularVelocityZ | Self::CameraZoomVelocity | Self::RenderingClearColorR | Self::RenderingClearColorG | Self::RenderingClearColorB | Self::RenderingAmbientColorR | Self::RenderingAmbientColorG | Self::RenderingAmbientColorB | Self::RenderingAmbientBrightness | Self::StageFloorColorR | Self::StageFloorColorG | Self::StageFloorColorB | Self::StageFloorTranslationX | Self::StageFloorTranslationY | Self::StageFloorTranslationZ | Self::StageFloorRotationX | Self::StageFloorRotationY | Self::StageFloorRotationZ | Self::StageFloorSizeX | Self::StageFloorSizeY | Self::StageFloorThickness | Self::StageFloorMetallic | Self::StageFloorPerceptualRoughness | Self::StageFloorReflectance | Self::StageBackdropColorR | Self::StageBackdropColorG | Self::StageBackdropColorB | Self::StageBackdropTranslationX | Self::StageBackdropTranslationY | Self::StageBackdropTranslationZ | Self::StageBackdropRotationX | Self::StageBackdropRotationY | Self::StageBackdropRotationZ | Self::StageBackdropSizeX | Self::StageBackdropSizeY | Self::StageBackdropThickness | Self::StageBackdropMetallic | Self::StageBackdropPerceptualRoughness | Self::StageBackdropReflectance | Self::LightingDirectionalColorR | Self::LightingDirectionalColorG | Self::LightingDirectionalColorB | Self::LightingDirectionalIlluminance | Self::LightingDirectionalTranslationX | Self::LightingDirectionalTranslationY | Self::LightingDirectionalTranslationZ | Self::LightingDirectionalLookAtX | Self::LightingDirectionalLookAtY | Self::LightingDirectionalLookAtZ | Self::LightingPointColorR | Self::LightingPointColorG | Self::LightingPointColorB | Self::LightingPointIntensity | Self::LightingPointRange | Self::LightingPointTranslationX | Self::LightingPointTranslationY | Self::LightingPointTranslationZ | Self::LightingAccentColorR | Self::LightingAccentColorG | Self::LightingAccentColorB | Self::LightingAccentIntensity | Self::LightingAccentRange | Self::LightingAccentTranslationX | Self::LightingAccentTranslationY | Self::LightingAccentTranslationZ => None,
            Self::ChildScaleRatio => Some(GenerationParameter::ChildScaleRatio),
            Self::ChildAxisScaleX => Some(GenerationParameter::ChildAxisScaleX),
            Self::ChildAxisScaleY => Some(GenerationParameter::ChildAxisScaleY),
            Self::ChildAxisScaleZ => Some(GenerationParameter::ChildAxisScaleZ),
            Self::ChildTwistPerVertexRadians => Some(GenerationParameter::ChildTwistPerVertexRadians),
            Self::ChildOutwardOffsetRatio => Some(GenerationParameter::ChildOutwardOffsetRatio),
            Self::ChildSpawnExclusionProbability => Some(GenerationParameter::ChildSpawnExclusionProbability),
        }
    }

    /// The generation parameter behind a scene parameter, if any.
    pub fn generation_parameter(self) -> (value: Option<GenerationParameter>)
        ensures
            value == self.spec_generation_parameter(),
    {
        match self {
            Self::ChildKind | Self::SpawnPlacementMode | Self::SpawnAddMode | Self::StageEnabled | Self::StageFloorEnabled | Self::StageBackdropEnabled | Self::GlobalOpacity | Self::MaterialHueStepPerLevel | Self::MaterialSaturation | Self::MaterialLightness | Self::MaterialMetallic | Self::MaterialPerceptualRoughness | Self::MaterialReflectance | Self::MaterialCubeHueBias | Self::MaterialTetrahedronHueBias | Self::MaterialOctahedronHueBias | Self::MaterialDodecahedronHueBias | Self::MaterialSurfaceMode | Self::MaterialBaseSurface | Self::MaterialRootSurface | Self::MaterialAccentSurface | Self::MaterialAccentEveryNLevels | Self::MaterialLevelLightnessShift | Self::MaterialLevelSaturationShift | Self::MaterialLevelMetallicShift | Self::MaterialLevelRoughnessShift | Self::MaterialLevelReflectanceShift | Self::CameraDistance | Self::CameraAngularVelocityX | Self::CameraAngularVelocityY | Self::CameraAngularVelocityZ | Self::CameraZoomVelocity | Self::RenderingClearColorR | Self::RenderingClearColorG | Self::RenderingClearColorB | Self::RenderingAmbientColorR | Self::RenderingAmbientColorG | Self::RenderingAmbientColorB | Self::RenderingAmbientBrightness | Self::StageFloorColorR | Self::StageFloorColorG | Self::StageFloorColorB | Self::StageFloorTranslationX | Self::StageFloorTranslationY | Self::StageFloorTranslationZ | Self::StageFloorRotationX | Self::StageFloorRotationY | Self::StageFloorRotationZ | Self::StageFloorSizeX | Self::StageFloorSizeY | Self::StageFloorThickness | Self::StageFloorMetallic | Self::StageFloorPerceptualRoughness | Self::StageFloorReflectance | Self::StageBackdropColorR | Self::StageBackdropColorG | Self::StageBackdropColorB | Self::StageBackdropTranslationX | Self::StageBackdropTranslationY | Self::StageBackdropTranslationZ | Self::StageBackdropRotationX | Self::StageBackdropRotationY | Self::StageBackdropRotationZ | Self::StageBackdropSizeX | Self::StageBackdropSizeY | Self::StageBackdropThickness | Self::StageBackdropMetallic | Self::StageBackdropPerceptualRoughness | Self::StageBackdropReflectance | Self::LightingDirectionalColorR | Self::LightingDirectionalColorG | Self::LightingDirectionalColorB | Self::LightingDirectionalIlluminance | Self::LightingDirectionalTranslationX | Self::LightingDirectionalTranslationY | Self::LightingDirectionalTranslationZ | Self::LightingDirectionalLookAtX | Self::LightingDirectionalLookAtY | Self::LightingDirectionalLookAtZ | Self::LightingPointColorR | Self::LightingPointColorG | Self::LightingPointColorB | Self::LightingPointIntensity | Self::LightingPointRange | Self::LightingPointTranslationX | Self::LightingPointTranslationY | Self::LightingPointTranslationZ | Self::LightingAccentColorR | Self::LightingAccentColorG | Self::LightingAccentColorB | Self::LightingAccentIntensity | Self::LightingAccentRange | Self::LightingAccentTranslationX | Self::LightingAccentTranslationY | Self::LightingAccentTranslationZ => None,
            Self::ChildScaleRatio => Some(GenerationParameter::ChildScaleRatio),
            Self::ChildAxisScaleX => Some(GenerationParameter::ChildAxisScaleX),
            Self::ChildAxisScaleY => Some(GenerationParameter::ChildAxisScaleY),
            Self::ChildAxisScaleZ => Some(GenerationParameter::ChildAxisScaleZ),
            Self::ChildTwistPerVertexRadians => Some(GenerationParameter::ChildTwistPerVertexRadians),
            Self::ChildOutwardOffsetRatio => Some(GenerationParameter::ChildOutwardOffsetRatio),
            Self::ChildSpawnExclusionProbability => Some(GenerationParameter::ChildSpawnExclusionProbability),
        }
    }

}

/// Every scene parameter appears in the control-page list.
pub proof fn lemma_listed(parameter: EffectTunerSceneParameter)
    ensures
        EffectTunerSceneParameter::spec_all().contains(parameter),
{
    match parameter {
        EffectTunerSceneParameter::ChildKind => assert(EffectTunerSceneParameter::spec_all()[0] == parameter),
        EffectTunerSceneParameter::SpawnPlacementMode => assert(EffectTunerSceneParameter::spec_all()[1] == parameter),
        EffectTunerSceneParameter::SpawnAddMode => assert(EffectTunerSceneParameter::spec_all()[2] == parameter),
        EffectTunerSceneParameter::ChildScaleRatio => assert(EffectTunerSceneParameter::spec_all()[3] == parameter),
        EffectTunerSceneParameter::ChildAxisScaleX => assert(EffectTunerSceneParameter::spec_all()[4] == parameter),
        EffectTunerSceneParameter::ChildAxisScaleY => assert(EffectTunerSceneParameter::spec_all()[5] == parameter),
        EffectTunerSceneParameter::ChildAxisScaleZ => assert(EffectTunerSceneParameter::spec_all()[6] == parameter),
        EffectTunerSceneParameter::ChildTwistPerVertexRadians => assert(EffectTunerSceneParameter::spec_all()[7] == parameter),
        EffectTunerSceneParameter::ChildOutwardOffsetRatio => assert(EffectTunerSceneParameter::spec_all()[8] == parameter),
        EffectTunerSceneParameter::ChildSpawnExclusionProbability => assert(EffectTunerSceneParameter::spec_all()[9] == parameter),
        EffectTunerSceneParameter::StageEnabled => assert(EffectTunerSceneParameter::spec_all()[10] == parameter),
        EffectTunerSceneParameter::StageFloorEnabled => assert(EffectTunerSceneParameter::spec_all()[11] == parameter),
        EffectTunerSceneParameter::StageBackdropEnabled => assert(EffectTunerSceneParameter::spec_all()[12] == parameter),
        EffectTunerSceneParameter::GlobalOpacity => assert(EffectTunerSceneParameter::spec_all()[13] == parameter),
        EffectTunerSceneParameter::MaterialHueStepPerLevel => assert(EffectTunerSceneParameter::spec_all()[14] == parameter),
        EffectTunerSceneParameter::MaterialSaturation => assert(EffectTunerSceneParameter::spec_all()[15] == parameter),
        EffectTunerSceneParameter::MaterialLightness => assert(EffectTunerSceneParameter::spec_all()[16] == parameter),
        EffectTunerSceneParameter::MaterialMetallic => assert(EffectTunerSceneParameter::spec_all()[17] == parameter),
        EffectTunerSceneParameter::MaterialPerceptualRoughness => assert(EffectTunerSceneParameter::spec_all()[18] == parameter),
        EffectTunerSceneParameter::MaterialReflectance => assert(EffectTunerSceneParameter::spec_all()[19] == parameter),
        EffectTunerSceneParameter::MaterialCubeHueBias => assert(EffectTunerSceneParameter::spec_all()[20] == parameter),
        EffectTunerSceneParameter::MaterialTetrahedronHueBias => assert(EffectTunerSceneParameter::spec_all()[21] == parameter),
        EffectTunerSceneParameter::MaterialOctahedronHueBias => assert(EffectTunerSceneParameter::spec_all()[22] == parameter),
        EffectTunerSceneParameter::MaterialDodecahedronHueBias => assert(EffectTunerSceneParameter::spec_all()[23] == parameter),
        EffectTunerSceneParameter::MaterialSurfaceMode => assert(EffectTunerSceneParameter::spec_all()[24] == parameter),
        EffectTunerSceneParameter::MaterialBaseSurface => assert(EffectTunerSceneParameter::spec_all()[25] == parameter),
        EffectTunerSceneParameter::MaterialRootSurface => assert(EffectTunerSceneParameter::spec_all()[26] == parameter),
        EffectTunerSceneParameter::MaterialAccentSurface => assert(EffectTunerSceneParameter::spec_all()[27] == parameter),
        EffectTunerSceneParameter::MaterialAccentEveryNLevels => assert(EffectTunerSceneParameter::spec_all()[28] == parameter),
        EffectTunerSceneParameter::MaterialLevelLightnessShift => assert(EffectTunerSceneParameter::spec_all()[29] == parameter),
        EffectTunerSceneParameter::MaterialLevelSaturationShift => assert(EffectTunerSceneParameter::spec_all()[30] == parameter),
        EffectTunerSceneParameter::MaterialLevelMetallicShift => assert(EffectTunerSceneParameter::spec_all()[31] == parameter),
        EffectTunerSceneParameter::MaterialLevelRoughnessShift => assert(EffectTunerSceneParameter::spec_all()[32] == parameter),
        EffectTunerSceneParameter::MaterialLevelReflectanceShift => assert(EffectTunerSceneParameter::spec_all()[33] == parameter),
        EffectTunerSceneParameter::CameraDistance => assert(EffectTunerSceneParameter::spec_all()[34] == parameter),
        EffectTunerSceneParameter::CameraAngularVelocityX => assert(EffectTunerSceneParameter::spec_all()[35] == parameter),
        EffectTunerSceneParameter::CameraAngularVelocityY => assert(EffectTunerSceneParameter::spec_all()[36] == parameter),
        EffectTunerSceneParameter::CameraAngularVelocityZ => assert(EffectTunerSceneParameter::spec_all()[37] == parameter),
        EffectTunerSceneParameter::CameraZoomVelocity => assert(EffectTunerSceneParameter::spec_all()[38] == parameter),
        EffectTunerSceneParameter::RenderingClearColorR => assert(EffectTunerSceneParameter::spec_all()[39] == parameter),
        EffectTunerSceneParameter::RenderingClearColorG => assert(EffectTunerSceneParameter::spec_all()[40] == parameter),
        EffectTunerSceneParameter::RenderingClearColorB => assert(EffectTunerSceneParameter::spec_all()[41] == parameter),
        EffectTunerSceneParameter::RenderingAmbientColorR => assert(EffectTunerSceneParameter::spec_all()[42] == parameter),
        EffectTunerSceneParameter::RenderingAmbientColorG => assert(EffectTunerSceneParameter::spec_all()[43] == parameter),
        EffectTunerSceneParameter::RenderingAmbientColorB => assert(EffectTunerSceneParameter::spec_all()[44] == parameter),
        EffectTunerSceneParameter::RenderingAmbientBrightness => assert(EffectTunerSceneParameter::spec_all()[45] == parameter),
        EffectTunerSceneParameter::StageFloorColorR => assert(EffectTunerSceneParameter::spec_all()[46] == parameter),
        EffectTunerSceneParameter::StageFloorColorG => assert(EffectTunerSceneParameter::spec_all()[47] == parameter),
        EffectTunerSceneParameter::StageFloorColorB => assert(EffectTunerSceneParameter::spec_all()[48] == parameter),
        EffectTunerSceneParameter::StageFloorTranslationX => assert(EffectTunerSceneParameter::spec_all()[49] == parameter),
        EffectTunerSceneParameter::StageFloorTranslationY => assert(EffectTunerSceneParameter::spec_all()[50] == parameter),
        EffectTunerSceneParameter::StageFloorTranslationZ => assert(EffectTunerSceneParameter::spec_all()[51] == parameter),
        EffectTunerSceneParameter::StageFloorRotationX => assert(EffectTunerSceneParameter::spec_all()[52] == parameter),
        EffectTunerSceneParameter::StageFloorRotationY => assert(EffectTunerSceneParameter::spec_all()[53] == parameter),
        EffectTunerSceneParameter::StageFloorRotationZ => assert(EffectTunerSceneParameter::spec_all()[54] == parameter),
        EffectTunerSceneParameter::StageFloorSizeX => assert(EffectTunerSceneParameter::spec_all()[55] == parameter),
        EffectTunerSceneParameter::StageFloorSizeY => assert(EffectTunerSceneParameter::spec_all()[56] == parameter),
        EffectTunerSceneParameter::StageFloorThickness => assert(EffectTunerSceneParameter::spec_all()[57] == parameter),
        EffectTunerSceneParameter::StageFloorMetallic => assert(EffectTunerSceneParameter::spec_all()[58] == parameter),
        EffectTunerSceneParameter::StageFloorPerceptualRoughness => assert(EffectTunerSceneParameter::spec_all()[59] == parameter),
        EffectTunerSceneParameter::StageFloorReflectance => assert(EffectTunerSceneParameter::spec_all()[60] == parameter),
        EffectTunerSceneParameter::StageBackdropColorR => assert(EffectTunerSceneParameter::spec_all()[61] == parameter),
        EffectTunerSceneParameter::StageBackdropColorG => assert(EffectTunerSceneParameter::spec_all()[62] == parameter),
        EffectTunerSceneParameter::StageBackdropColorB => assert(EffectTunerSceneParameter::spec_all()[63] == parameter),
        EffectTunerSceneParameter::StageBackdropTranslationX => assert(EffectTunerSceneParameter::spec_all()[64] == parameter),
        EffectTunerSceneParameter::StageBackdropTranslationY => assert(EffectTunerSceneParameter::spec_all()[65] == parameter),
        EffectTunerSceneParameter::StageBackdropTranslationZ => assert(EffectTunerSceneParameter::spec_all()[66] == parameter),
        EffectTunerSceneParameter::StageBackdropRotationX => assert(EffectTunerSceneParameter::spec_all()[67] == parameter),
        EffectTunerSceneParameter::StageBackdropRotationY => assert(EffectTunerSceneParameter::spec_all()[68] == parameter),
        EffectTunerSceneParameter::StageBackdropRotationZ => assert(EffectTunerSceneParameter::spec_all()[69] == parameter),
        EffectTunerSceneParameter::StageBackdropSizeX => assert(EffectTunerSceneParameter::spec_all()[70] == parameter),
        EffectTunerSceneParameter::StageBackdropSizeY => assert(EffectTunerSceneParameter::spec_all()[71] == parameter),
        EffectTunerSceneParameter::StageBackdropThickness => assert(EffectTunerSceneParameter::spec_all()[72] == parameter),
        EffectTunerSceneParameter::StageBackdropMetallic => assert(EffectTunerSceneParameter::spec_all()[73] == parameter),
        EffectTunerSceneParameter::StageBackdropPerceptualRoughness => assert(EffectTunerSceneParameter::spec_all()[74] == parameter),
        EffectTunerSceneParameter::StageBackdropReflectance => assert(EffectTunerSceneParameter::spec_all()[75] == parameter),
        EffectTunerSceneParameter::LightingDirectionalColorR => assert(EffectTunerSceneParameter::spec_all()[76] == parameter),
        EffectTunerSceneParameter::LightingDirectionalColorG => assert(EffectTunerSceneParameter::spec_all()[77] == parameter),
        EffectTunerSceneParameter::LightingDirectionalColorB => assert(EffectTunerSceneParameter::spec_all()[78] == parameter),
        EffectTunerSceneParameter::LightingDirectionalIlluminance => assert(EffectTunerSceneParameter::spec_all()[79] == parameter),
        EffectTunerSceneParameter::LightingDirectionalTranslationX => assert(EffectTunerSceneParameter::spec_all()[80] == parameter),
        EffectTunerSceneParameter::LightingDirectionalTranslationY => assert(EffectTunerSceneParameter::spec_all()[81] == parameter),
        EffectTunerSceneParameter::LightingDirectionalTranslationZ => assert(EffectTunerSceneParameter::spec_all()[82] == parameter),
        EffectTunerSceneParameter::LightingDirectionalLookAtX => assert(EffectTunerSceneParameter::spec_all()[83] == parameter),
        EffectTunerSceneParameter::LightingDirectionalLookAtY => assert(EffectTunerSceneParameter::spec_all()[84] == parameter),
        EffectTunerSceneParameter::LightingDirectionalLookAtZ => assert(EffectTunerSceneParameter::spec_all()[85] == parameter),
        EffectTunerSceneParameter::LightingPointColorR => assert(EffectTunerSceneParameter::spec_all()[86] == parameter),
        EffectTunerSceneParameter::LightingPointColorG => assert(EffectTunerSceneParameter::spec_all()[87] == parameter),
        EffectTunerSceneParameter::LightingPointColorB => assert(EffectTunerSceneParameter::spec_all()[88] == parameter),
        EffectTunerSceneParameter::LightingPointIntensity => assert(EffectTunerSceneParameter::spec_all()[89] == parameter),
        EffectTunerSceneParameter::LightingPointRange => assert(EffectTunerSceneParameter::spec_all()[90] == parameter),
        EffectTunerSceneParameter::LightingPointTranslationX => assert(EffectTunerSceneParameter::spec_all()[91] == parameter),
        EffectTunerSceneParameter::LightingPointTranslationY => assert(EffectTunerSceneParameter::spec_all()[92] == parameter),
        EffectTunerSceneParameter::LightingPointTranslationZ => assert(EffectTunerSceneParameter::spec_all()[93] == parameter),
        EffectTunerSceneParameter::LightingAccentColorR => assert(EffectTunerSceneParameter::spec_all()[94] == parameter),
        EffectTunerSceneParameter::LightingAccentColorG => assert(EffectTunerSceneParameter::spec_all()[95] == parameter),
        EffectTunerSceneParameter::LightingAccentColorB => assert(EffectTunerSceneParameter::spec_all()[96] == parameter),
        EffectTunerSceneParameter::LightingAccentIntensity => assert(EffectTunerSceneParameter::spec_all()[97] == parameter),
        EffectTunerSceneParameter::LightingAccentRange => assert(EffectTunerSceneParameter::spec_all()[98] == parameter),
        EffectTunerSceneParameter::LightingAccentTranslationX => assert(EffectTunerSceneParameter::spec_all()[99] == parameter),
        EffectTunerSceneParameter::LightingAccentTranslationY => assert(EffectTunerSceneParameter::spec_all()[100] == parameter),
        EffectTunerSceneParameter::LightingAccentTranslationZ => assert(EffectTunerSceneParameter::spec_all()[101] == parameter),
    }
}

proof fn lemma_stable_id_length(parameter: EffectTunerSceneParameter)
    ensures
        parameter.spec_stable_id()@.len() == parameter.stable_id_length(),
{
    broadcast use vstd::string::group_string_axioms;
    match parameter {
        EffectTunerSceneParameter::ChildKind => reveal_strlit("generation.child_kind"),
        EffectTunerSceneParameter::SpawnPlacementMode => reveal_strlit("generation.spawn_placement_mode"),
        EffectTunerSceneParameter::SpawnAddMode => reveal_strlit("generation.spawn_add_mode"),
        EffectTunerSceneParameter::ChildScaleRatio => reveal_strlit("generation.child_scale_ratio"),
        EffectTunerSceneParameter::ChildAxisScaleX => reveal_strlit("generation.child_axis_scale.x"),
        EffectTunerSceneParameter::ChildAxisScaleY => reveal_strlit("generation.child_axis_scale.y"),
        EffectTunerSceneParameter::ChildAxisScaleZ => reveal_strlit("generation.child_axis_scale.z"),
        EffectTunerSceneParameter::ChildTwistPerVertexRadians => reveal_strlit("generation.child_twist_per_vertex_radians"),
        EffectTunerSceneParameter::ChildOutwardOffsetRatio => reveal_strlit("generation.child_outward_offset_ratio"),
        EffectTunerSceneParameter::ChildSpawnExclusionProbability => reveal_strlit("generation.child_spawn_exclusion_probability"),
        EffectTunerSceneParameter::StageEnabled => reveal_strlit("stage.enabled"),
        EffectTunerSceneParameter::StageFloorEnabled => reveal_strlit("stage.floor.enabled"),
        EffectTunerSceneParameter::StageBackdropEnabled => reveal_strlit("stage.backdrop.enabled"),
        EffectTunerSceneParameter::GlobalOpacity => reveal_strlit("materials.opacity"),
        EffectTunerSceneParameter::MaterialHueStepPerLevel => reveal_strlit("materials.hue_step_per_level"),
        EffectTunerSceneParameter::MaterialSaturation => reveal_strlit("materials.saturation"),
        EffectTunerSceneParameter::MaterialLightness => reveal_strlit("materials.lightness"),
        EffectTunerSceneParameter::MaterialMetallic => reveal_strlit("materials.metallic"),
        EffectTunerSceneParameter::MaterialPerceptualRoughness => reveal_strlit("materials.perceptual_roughness"),
        EffectTunerSceneParameter::MaterialReflectance => reveal_strlit("materials.reflectance"),
        EffectTunerSceneParameter::MaterialCubeHueBias => reveal_strlit("materials.cube_hue_bias"),
        EffectTunerSceneParameter::MaterialTetrahedronHueBias => reveal_strlit("materials.tetrahedron_hue_bias"),
        EffectTunerSceneParameter::MaterialOctahedronHueBias => reveal_strlit("materials.octahedron_hue_bias"),
        EffectTunerSceneParameter::MaterialDodecahedronHueBias => reveal_strlit("materials.dodecahedron_hue_bias"),
        EffectTunerSceneParameter::MaterialSurfaceMode => reveal_strlit("materials.surface_mode"),
        EffectTunerSceneParameter::MaterialBaseSurface => reveal_strlit("materials.base_surface"),
        EffectTunerSceneParameter::MaterialRootSurface => reveal_strlit("materials.root_surface"),
        EffectTunerSceneParameter::MaterialAccentSurface => reveal_strlit("materials.accent_surface"),
        EffectTunerSceneParameter::MaterialAccentEveryNLevels => reveal_strlit("materials.accent_every_n_levels"),
        EffectTunerSceneParameter::MaterialLevelLightnessShift => reveal_strlit("materials.level_lightness_shift"),
        EffectTunerSceneParameter::MaterialLevelSaturationShift => reveal_strlit("materials.level_saturation_shift"),
        EffectTunerSceneParameter::MaterialLevelMetallicShift => reveal_strlit("materials.level_metallic_shift"),
        EffectTunerSceneParameter::MaterialLevelRoughnessShift => reveal_strlit("materials.level_roughness_shift"),
        EffectTunerSceneParameter::MaterialLevelReflectanceShift => reveal_strlit("materials.level_reflectance_shift"),
        EffectTunerSceneParameter::CameraDistance => reveal_strlit("camera.distance"),
        EffectTunerSceneParameter::CameraAngularVelocityX => reveal_strlit("camera.angular_velocity.x"),
        EffectTunerSceneParameter::CameraAngularVelocityY => reveal_strlit("camera.angular_velocity.y"),
        EffectTunerSceneParameter::CameraAngularVelocityZ => reveal_strlit("camera.angular_velocity.z"),
        EffectTunerSceneParameter::CameraZoomVelocity => reveal_strlit("camera.zoom_velocity"),
        EffectTunerSceneParameter::RenderingClearColorR => reveal_strlit("rendering.clear_color.r"),
        EffectTunerSceneParameter::RenderingClearColorG => reveal_strlit("rendering.clear_color.g"),
        EffectTunerSceneParameter::RenderingClearColorB => reveal_strlit("rendering.clear_color.b"),
        EffectTunerSceneParameter::RenderingAmbientColorR => reveal_strlit("rendering.ambient_light_color.r"),
        EffectTunerSceneParameter::RenderingAmbientColorG => reveal_strlit("rendering.ambient_light_color.g"),
        EffectTunerSceneParameter::RenderingAmbientColorB => reveal_strlit("rendering.ambient_light_color.b"),
        EffectTunerSceneParameter::RenderingAmbientBrightness => reveal_strlit("rendering.ambient_light_brightness"),
        EffectTunerSceneParameter::StageFloorColorR => reveal_strlit("stage.floor.color.r"),
        EffectTunerSceneParameter::StageFloorColorG => reveal_strlit("stage.floor.color.g"),
        EffectTunerSceneParameter::StageFloorColorB => reveal_strlit("stage.floor.color.b"),
        EffectTunerSceneParameter::StageFloorTranslationX => reveal_strlit("stage.floor.translation.x"),
        EffectTunerSceneParameter::StageFloorTranslationY => reveal_strlit("stage.floor.translation.y"),
        EffectTunerSceneParameter::StageFloorTranslationZ => reveal_strlit("stage.floor.translation.z"),
        EffectTunerSceneParameter::StageFloorRotationX => reveal_strlit("stage.floor.rotation_degrees.x"),
        EffectTunerSceneParameter::StageFloorRotationY => reveal_strlit("stage.floor.rotation_degrees.y"),
        EffectTunerSceneParameter::StageFloorRotationZ => reveal_strlit("stage.floor.rotation_degrees.z"),
        EffectTunerSceneParameter::StageFloorSizeX => reveal_strlit("stage.floor.size.x"),
        EffectTunerSceneParameter::StageFloorSizeY => reveal_strlit("stage.floor.size.y"),
        EffectTunerSceneParameter::StageFloorThickness => reveal_strlit("stage.floor.thickness"),
        EffectTunerSceneParameter::StageFloorMetallic => reveal_strlit("stage.floor.metallic"),
        EffectTunerSceneParameter::StageFloorPerceptualRoughness => reveal_strlit("stage.floor.perceptual_roughness"),
        EffectTunerSceneParameter::StageFloorReflectance => reveal_strlit("stage.floor.reflectance"),
        EffectTunerSceneParameter::StageBackdropColorR => reveal_strlit("stage.backdrop.color.r"),
        EffectTunerSceneParameter::StageBackdropColorG => reveal_strlit("stage.backdrop.color.g"),
        EffectTunerSceneParameter::StageBackdropColorB => reveal_strlit("stage.backdrop.color.b"),
        EffectTunerSceneParameter::StageBackdropTranslationX => reveal_strlit("stage.backdrop.translation.x"),
        EffectTunerSceneParameter::StageBackdropTranslationY => reveal_strlit("stage.backdrop.translation.y"),
        EffectTunerSceneParameter::StageBackdropTranslationZ => reveal_strlit("stage.backdrop.translation.z"),
        EffectTunerSceneParameter::StageBackdropRotationX => reveal_strlit("stage.backdrop.rotation_degrees.x"),
        EffectTunerSceneParameter::StageBackdropRotationY => reveal_strlit("stage.backdrop.rotation_degrees.y"),
        EffectTunerSceneParameter::StageBackdropRotationZ => reveal_strlit("stage.backdrop.rotation_degrees.z"),
        EffectTunerSceneParameter::StageBackdropSizeX => reveal_strlit("stage.backdrop.size.x"),
        EffectTunerSceneParameter::StageBackdropSizeY => reveal_strlit("stage.backdrop.size.y"),
        EffectTunerSceneParameter::StageBackdropThickness => reveal_strlit("stage.backdrop.thickness"),
        EffectTunerSceneParameter::StageBackdropMetallic => reveal_strlit("stage.backdrop.metallic"),
        EffectTunerSceneParameter::StageBackdropPerceptualRoughness => reveal_strlit("stage.backdrop.perceptual_roughness"),
        EffectTunerSceneParameter::StageBackdropReflectance => reveal_strlit("stage.backdrop.reflectance"),
        EffectTunerSceneParameter::LightingDirectionalColorR => reveal_strlit("lighting.directional.color.r"),
        EffectTunerSceneParameter::LightingDirectionalColorG => reveal_strlit("lighting.directional.color.g"),
        EffectTunerSceneParameter::LightingDirectionalColorB => reveal_strlit("lighting.directional.color.b"),
        EffectTunerSceneParameter::LightingDirectionalIlluminance => reveal_strlit("lighting.directional.illuminance"),
        EffectTunerSceneParameter::LightingDirectionalTranslationX => reveal_strlit("lighting.directional.translation.x"),
        EffectTunerSceneParameter::LightingDirectionalTranslationY => reveal_strlit("lighting.directional.translation.y"),
        EffectTunerSceneParameter::LightingDirectionalTranslationZ => reveal_strlit("lighting.directional.translation.z"),
        EffectTunerSceneParameter::LightingDirectionalLookAtX => reveal_strlit("lighting.directional.look_at.x"),
        EffectTunerSceneParameter::LightingDirectionalLookAtY => reveal_strlit("lighting.directional.look_at.y"),
        EffectTunerSceneParameter::LightingDirectionalLookAtZ => reveal_strlit("lighting.directional.look_at.z"),
        EffectTunerSceneParameter::LightingPointColorR => reveal_strlit("lighting.point.color.r"),
        EffectTunerSceneParameter::LightingPointColorG => reveal_strlit("lighting.point.color.g"),
        EffectTunerSceneParameter::LightingPointColorB => reveal_strlit("lighting.point.color.b"),
        EffectTunerSceneParameter::LightingPointIntensity => reveal_strlit("lighting.point.intensity"),
        EffectTunerSceneParameter::LightingPointRange => reveal_strlit("lighting.point.range"),
        EffectTunerSceneParameter::LightingPointTranslationX => reveal_strlit("lighting.point.translation.x"),
        EffectTunerSceneParameter::LightingPointTranslationY => reveal_strlit("lighting.point.translation.y"),
        EffectTunerSceneParameter::LightingPointTranslationZ => reveal_strlit("lighting.point.translation.z"),
        EffectTunerSceneParameter::LightingAccentColorR => reveal_strlit("lighting.accent.color.r"),
        EffectTunerSceneParameter::LightingAccentColorG => reveal_strlit("lighting.accent.color.g"),
        EffectTunerSceneParameter::LightingAccentColorB => reveal_strlit("lighting.accent.color.b"),
        EffectTunerSceneParameter::LightingAccentIntensity => reveal_strlit("lighting.accent.intensity"),
        EffectTunerSceneParameter::LightingAccentRange => reveal_strlit("lighting.accent.range"),
        EffectTunerSceneParameter::LightingAccentTranslationX => reveal_strlit("lighting.accent.translation.x"),
        EffectTunerSceneParameter::LightingAccentTranslationY => reveal_strlit("lighting.accent.translation.y"),
        EffectTunerSceneParameter::LightingAccentTranslationZ => reveal_strlit("lighting.accent.translation.z"),
    }
}

/// Distinct scene parameters have distinct stable identifiers, so a stored
/// identifier names exactly one parameter.
pub proof fn stable_ids_are_distinct(a: EffectTunerSceneParameter, b: EffectTunerSceneParameter)
    requires
        a.spec_stable_id()@ == b.spec_stable_id()@,
    ensures
        a == b,
{
    broadcast use vstd::string::group_string_axioms;
    lemma_stable_id_length(a);
    lemma_stable_id_length(b);
    match a {
        EffectTunerSceneParameter::ChildKind => {
            reveal_strlit("generation.child_kind");
            match b {
                EffectTunerSceneParameter::MaterialReflectance => {
                    reveal_strlit("materials.reflectance");
                    assert("generation.child_kind"@[0] != "materials.reflectance"@[0]);
                },
                EffectTunerSceneParameter::StageFloorThickness => {
                    reveal_strlit("stage.floor.thickness");
                    assert("generation.child_kind"@[0] != "stage.floor.thickness"@[0]);
                },
                EffectTunerSceneParameter::StageBackdropSizeX => {
                    reveal_strlit("stage.backdrop.size.x");
                    assert("generation.child_kind"@[0] != "stage.backdrop.size.x"@[0]);
                },
                EffectTunerSceneParameter::StageBackdropSizeY => {
                    reveal_strlit("stage.backdrop.size.y");
                    assert("generation.child_kind"@[0] != "stage.backdrop.size.y"@[0]);
                },
                EffectTunerSceneParameter::LightingAccentRange => {
                    reveal_strlit("lighting.accent.range");
                    assert("generation.child_kind"@[0] != "lighting.accent.range"@[0]);
                },
                _ => {},
            }
        },
        EffectTunerSceneParameter::SpawnPlacementMode => {
            reveal_strlit("generation.spawn_placement_mode");
            match b {
                EffectTunerSceneParameter::MaterialDodecahedronHueBias => {
                    reveal_strlit("materials.dodecahedron_hue_bias");
                    assert("generation.spawn_placement_mode"@[0] != "materials.dodecahedron_hue_bias"@[0]);
                },
                EffectTunerSceneParameter::MaterialAccentEveryNLevels => {
                    reveal_strlit("materials.accent_every_n_levels");
                    assert("generation.spawn_placement_mode"@[0] != "materials.accent_every_n_levels"@[0]);
                },
                EffectTunerSceneParameter::MaterialLevelLightnessShift => {
                    reveal_strlit("materials.level_lightness_shift");
                    assert("generation.spawn_placement_mode"@[0] != "materials.level_lightness_shift"@[0]);
                },
                EffectTunerSceneParameter::MaterialLevelRoughnessShift => {
                    reveal_strlit("materials.level_roughness_shift");
                    assert("generation.spawn_placement_mode"@[0] != "materials.level_roughness_shift"@[0]);
                },
                EffectTunerSceneParameter::RenderingAmbientColorR => {
                    reveal_strlit("rendering.ambient_light_color.r");
                    assert("generation.spawn_placement_mode"@[0] != "rendering.ambient_light_color.r"@[0]);
                },
                EffectTunerSceneParameter::RenderingAmbientColorG => {
                    reveal_strlit("rendering.ambient_light_color.g");
                    assert("generation.spawn_placement_mode"@[0] != "rendering.ambient_light_color.g"@[0]);
                },
                EffectTunerSceneParameter::RenderingAmbientColorB => {
                    reveal_strlit("rendering.ambient_light_color.b");
                    assert("generation.spawn_placement_mode"@[0] != "rendering.ambient_light_color.b"@[0]);
                },
                _ => {},
            }
        },
        EffectTunerSceneParameter::SpawnAddMode => {
            reveal_strlit("generation.spawn_add_mode");
            match b {
                EffectTunerSceneParameter::CameraAngularVelocityX => {
                    reveal_strlit("camera.angular_velocity.x");
                    assert("generation.spawn_add_mode"@[0] != "camera.angular_velocity.x"@[0]);
                },
                EffectTunerSceneParameter::CameraAngularVelocityY => {
                    reveal_strlit("camera.angular_velocity.y");
                    assert("generation.spawn_add_mode"@[0] != "camera.angular_velocity.y"@[0]);
                },
                EffectTunerSceneParameter::CameraAngularVelocityZ => {
                    reveal_strlit("camera.angular_velocity.z");
                    assert("generation.spawn_add_mode"@[0] != "camera.angular_velocity.z"@[0]);
                },
                EffectTunerSceneParameter::StageFloorTranslationX => {
                    reveal_strlit("stage.floor.translation.x");
                    assert("generation.spawn_add_mode"@[0] != "stage.floor.translation.x"@[0]);
                },
                EffectTunerSceneParameter::StageFloorTranslationY => {
                    reveal_strlit("stage.floor.translation.y");
                    assert("generation.spawn_add_mode"@[0] != "stage.floor.translation.y"@[0]);
                },
                EffectTunerSceneParameter::StageFloorTranslationZ => {
                    reveal_strlit("stage.floor.translation.z");
                    assert("generation.spawn_add_mode"@[0] != "stage.floor.translation.z"@[0]);
                },
                EffectTunerSceneParameter::LightingAccentIntensity => {
                    reveal_strlit("lighting.accent.intensity");
                    assert("generation.spawn_add_mode"@[0] != "lighting.accent.intensity"@[0]);
                },
                _ => {},
            }
        },
        EffectTunerSceneParameter::ChildScaleRatio => {
            reveal_strlit("generation.child_scale_ratio");
            match b {
                EffectTunerSceneParameter::MaterialHueStepPerLevel => {
                    reveal_strlit("materials.hue_step_per_level");
                    assert("generation.child_scale_ratio"@[0] != "materials.hue_step_per_level"@[0]);
                },
                EffectTunerSceneParameter::StageBackdropTranslationX => {
                    reveal_strlit("stage.backdrop.translation.x");
                    assert("generation.child_scale_ratio"@[0] != "stage.backdrop.translation.x"@[0]);
                },
                EffectTunerSceneParameter::StageBackdropTranslationY => {
                    reveal_strlit("stage.backdrop.translation.y");
                    assert("generation.child_scale_ratio"@[0] != "stage.backdrop.translation.y"@[0]);
                },
                EffectTunerSceneParameter::StageBackdropTranslationZ => {
                    reveal_strlit("stage.backdrop.translation.z");
                    assert("generation.child_scale_ratio"@[0] != "stage.backdrop.translation.z"@[0]);
                },
                EffectTunerSceneParameter::LightingDirectionalColorR => {
                    reveal_strlit("lighting.directional.color.r");
                    assert("generation.child_scale_ratio"@[0] != "lighting.directional.color.r"@[0]);
                },
                EffectTunerSceneParameter::LightingDirectionalColorG => {
                    reveal_strlit("lighting.directional.color.g");
                    assert("generation.child_scale_ratio"@[0] != "lighting.directional.color.g"@[0]);
                },
                EffectTunerSceneParameter::LightingDirectionalColorB => {
                    reveal_strlit("lighting.directional.color.b");
                    assert("generation.child_scale_ratio"@[0] != "lighting.directional.color.b"@[0]);
                },
                EffectTunerSceneParameter::LightingPointTranslationX => {
                    reveal_strlit("lighting.point.translation.x");
                    assert("generation.child_scale_ratio"@[0] != "lighting.point.translation.x"@[0]);
                },
                EffectTunerSceneParameter::LightingPointTranslationY => {
                    reveal_strlit("lighting.point.translation.y");
                    assert("generation.child_scale_ratio"@[0] != "lighting.point.translation.y"@[0]);
                },
                EffectTunerSceneParameter::LightingPointTranslationZ => {
                    reveal_strlit("lighting.point.translation.z");
                    assert("generation.child_scale_ratio"@[0] != "lighting.point.translation.z"@[0]);
                },
                _ => {},
            }
        },
        EffectTunerSceneParameter::ChildAxisScaleX => {
            reveal_strlit("generation.child_axis_scale.x");
            match b {
                EffectTunerSceneParameter::ChildAxisScaleY => {
                    reveal_strlit("generation.child_axis_scale.y");
                    assert("generation.child_axis_scale.x"@[28] != "generation.child_axis_scale.y"@[28]);
                },
                EffectTunerSceneParameter::ChildAxisScaleZ => {
                    reveal_strlit("generation.child_axis_scale.z");
                    assert("generation.child_axis_scale.x"@[28] != "generation.child_axis_scale.z"@[28]);
                },
                EffectTunerSceneParameter::MaterialOctahedronHueBias => {
                    reveal_strlit("materials.octahedron_hue_bias");
                    assert("generation.child_axis_scale.x"@[0] != "materials.octahedron_hue_bias"@[0]);
                },
                EffectTunerSceneParameter::LightingAccentTranslationX => {
                    reveal_strlit("lighting.accent.translation.x");
                    assert("generation.child_axis_scale.x"@[0] != "lighting.accent.translation.x"@[0]);
                },
                EffectTunerSceneParameter::LightingAccentTranslationY => {
                    reveal_strlit("lighting.accent.translation.y");
                    assert("generation.child_axis_scale.x"@[0] != "lighting.accent.translation.y"@[0]);
                },
                EffectTunerSceneParameter::LightingAccentTranslationZ => {
                    reveal_strlit("lighting.accent.translation.z");
                    assert("generation.child_axis_scale.x"@[0] != "lighting.accent.translation.z"@[0]);
                },
                _ => {},
            }
        },
        EffectTunerSceneParameter::ChildAxisScaleY => {
            reveal_strlit("generation.child_axis_scale.y");
            match b {
                EffectTunerSceneParameter::ChildAxisScaleX => {
                    reveal_strlit("generation.child_axis_scale.x");
                    assert("generation.child_axis_scale.y"@[28] != "generation.child_axis_scale.x"@[28]);
                },
                EffectTunerSceneParameter::ChildAxisScaleZ => {
                    reveal_strlit("generation.child_axis_scale.z");
                    assert("generation.child_axis_scale.y"@[28] != "generation.child_axis_scale.z"@[28]);
                },
                EffectTunerSceneParameter::MaterialOctahedronHueBias => {
                    reveal_strlit("materials.octahedron_hue_bias");
                    assert("generation.child_axis_scale.y"@[0] != "materials.octahedron_hue_bias"@[0]);
                },
                EffectTunerSceneParameter::LightingAccentTranslationX => {
                    reveal_strlit("lighting.accent.translation.x");
                    assert("generation.child_axis_scale.y"@[0] != "lighting.accent.translation.x"@[0]);
                },
                EffectTunerSceneParameter::LightingAccentTranslationY => {
                    reveal_strlit("lighting.accent.translation.y");
                    assert("generation.child_axis_scale.y"@[0] != "lighting.accent.translation.y"@[0]);
                },
                EffectTunerSceneParameter::LightingAccentTranslationZ => {
                    reveal_strlit("lighting.accent.translation.z");
                    assert("generation.child_axis_scale.y"@[0] != "lighting.accent.translation.z"@[0]);
                },
                _ => {},
            }
        },
        EffectTunerSceneParameter::ChildAxisScaleZ => {
            reveal_strlit("generation.child_axis_scale.z");
            match b {
                EffectTunerSceneParameter::ChildAxisScaleX => {
                    reveal_strlit("generation.child_axis_scale.x");
                    assert("generation.child_axis_scale.z"@[28] != "generation.child_axis_scale.x"@[28]);
                },
                EffectTunerSceneParameter::ChildAxisScaleY => {
                    reveal_strlit("generation.child_axis_scale.y");
                    assert("generation.child_axis_scale.z"@[28] != "generation.child_axis_scale.y"@[28]);
                },
                EffectTunerSceneParameter::MaterialOctahedronHueBias => {
                    reveal_strlit("materials.octahedron_hue_bias");
                    assert("generation.child_axis_scale.z"@[0] != "materials.octahedron_hue_bias"@[0]);
                },
                EffectTunerSceneParameter::LightingAccentTranslationX => {
                    reveal_strlit("lighting.accent.translation.x");
                    assert("generation.child_axis_scale.z"@[0] != "lighting.accent.translation.x"@[0]);
                },
                EffectTunerSceneParameter::LightingAccentTranslationY => {
                    reveal_strlit("lighting.accent.translation.y");
                    assert("generation.child_axis_scale.z"@[0] != "lighting.accent.translation.y"@[0]);
                },
                EffectTunerSceneParameter::LightingAccentTranslationZ => {
                    reveal_strlit("lighting.accent.translation.z");
                    assert("generation.child_axis_scale.z"@[0] != "lighting.accent.translation.z"@[0]);
                },
                _ => {},
            }
        },
        EffectTunerSceneParameter::ChildTwistPerVertexRadians => {},
        EffectTunerSceneParameter::ChildOutwardOffsetRatio => {},
        EffectTunerSceneParameter::ChildSpawnExclusionProbability => {},
        EffectTunerSceneParameter::StageEnabled => {},
        EffectTunerSceneParameter::StageFloorEnabled => {
            reveal_strlit("stage.floor.enabled");
            match b {
                EffectTunerSceneParameter::MaterialLightness => {
                    reveal_strlit("materials.lightness");
                    assert("stage.floor.enabled"@[0] != "materials.lightness"@[0]);
                },
                EffectTunerSceneParameter::StageFloorColorR => {
                    reveal_strlit("stage.floor.color.r");
                    assert("stage.floor.enabled"@[12] != "stage.floor.color.r"@[12]);
                },
                EffectTunerSceneParameter::StageFloorColorG => {
                    reveal_strlit("stage.floor.color.g");
                    assert("stage.floor.enabled"@[12] != "stage.floor.color.g"@[12]);
                },
                EffectTunerSceneParameter::StageFloorColorB => {
                    reveal_strlit("stage.floor.color.b");
                    assert("stage.floor.enabled"@[12] != "stage.floor.color.b"@[12]);
                },
                _ => {},
            }
        },
        EffectTunerSceneParameter::StageBackdropEnabled => {
            reveal_strlit("stage.backdrop.enabled");
            match b {
                EffectTunerSceneParameter::MaterialSurfaceMode => {
                    reveal_strlit("materials.surface_mode");
                    assert("stage.backdrop.enabled"@[0] != "materials.surface_mode"@[0]);
                },
                EffectTunerSceneParameter::MaterialBaseSurface => {
                    reveal_strlit("materials.base_surface");
                    assert("stage.backdrop.enabled"@[0] != "materials.base_surface"@[0]);
                },
                EffectTunerSceneParameter::MaterialRootSurface => {
                    reveal_strlit("materials.root_surface");
                    assert("stage.backdrop.enabled"@[0] != "materials.root_surface"@[0]);
                },
                EffectTunerSceneParameter::StageBackdropColorR => {
                    reveal_strlit("stage.backdrop.color.r");
                    assert("stage.backdrop.enabled"@[15] != "stage.backdrop.color.r"@[15]);
                },
                EffectTunerSceneParameter::StageBackdropColorG => {
                    reveal_strlit("stage.backdrop.color.g");
                    assert("stage.backdrop.enabled"@[15] != "stage.backdrop.color.g"@[15]);
                },
                EffectTunerSceneParameter::StageBackdropColorB => {
                    reveal_strlit("stage.backdrop.color.b");
                    assert("stage.backdrop.enabled"@[15] != "stage.backdrop.color.b"@[15]);
                },
                EffectTunerSceneParameter::LightingPointColorR => {
                    reveal_strlit("lighting.point.color.r");
                    assert("stage.backdrop.enabled"@[0] != "lighting.point.color.r"@[0]);
                },
                EffectTunerSceneParameter::LightingPointColorG => {
                    reveal_strlit("lighting.point.color.g");
                    assert("stage.backdrop.enabled"@[0] != "lighting.point.color.g"@[0]);
                },
                EffectTunerSceneParameter::LightingPointColorB => {
                    reveal_strlit("lighting.point.color.b");
                    assert("stage.backdrop.enabled"@[0] != "lighting.point.color.b"@[0]);
                },
                _ => {},
            }
        },
        EffectTunerSceneParameter::GlobalOpacity => {},
        EffectTunerSceneParameter::MaterialHueStepPerLevel => {
            reveal_strlit("materials.hue_step_per_level");
            match b {
                EffectTunerSceneParameter::ChildScaleRatio => {
                    reveal_strlit("generation.child_scale_ratio");
                    assert("materials.hue_step_per_level"@[0] != "generation.child_scale_ratio"@[0]);
                },
                EffectTunerSceneParameter::StageBackdropTranslationX => {
                    reveal_strlit("stage.backdrop.translation.x");
                    assert("materials.hue_step_per_level"@[0] != "stage.backdrop.translation.x"@[0]);
                },
                EffectTunerSceneParameter::StageBackdropTranslationY => {
                    reveal_strlit("stage.backdrop.translation.y");
                    assert("materials.hue_step_per_level"@[0] != "stage.backdrop.translation.y"@[0]);
                },
                EffectTunerSceneParameter::StageBackdropTranslationZ => {
                    reveal_strlit("stage.backdrop.translation.z");
                    assert("materials.hue_step_per_level"@[0] != "stage.backdrop.translation.z"@[0]);
                },
                EffectTunerSceneParameter::LightingDirectionalColorR => {
                    reveal_strlit("lighting.directional.color.r");
                    assert("materials.hue_step_per_level"@[0] != "lighting.directional.color.r"@[0]);
                },
                EffectTunerSceneParameter::LightingDirectionalColorG => {
                    reveal_strlit("lighting.directional.color.g");
                    assert("materials.hue_step_per_level"@[0] != "lighting.directional.color.g"@[0]);
                },
                EffectTunerSceneParameter::LightingDirectionalColorB => {
                    reveal_strlit("lighting.directional.color.b");
                    assert("materials.hue_step_per_level"@[0] != "lighting.directional.color.b"@[0]);
                },
                EffectTunerSceneParameter::LightingPointTranslationX => {
                    reveal_strlit("lighting.point.translation.x");
                    assert("materials.hue_step_per_level"@[0] != "lighting.point.translation.x"@[0]);
                },
                EffectTunerSceneParameter::LightingPointTranslationY => {
                    reveal_strlit("lighting.point.translation.y");
                    assert("materials.hue_step_per_level"@[0] != "lighting.point.translation.y"@[0]);
                },
                EffectTunerSceneParameter::LightingPointTranslationZ => {
                    reveal_strlit("lighting.point.translation.z");
                    assert("materials.hue_step_per_level"@[0] != "lighting.point.translation.z"@[0]);
                },
                _ => {},
            }
        },
        EffectTunerSceneParameter::MaterialSaturation => {
            reveal_strlit("materials.saturation");
            match b {
                EffectTunerSceneParameter::CameraZoomVelocity => {
                    reveal_strlit("camera.zoom_velocity");
                    assert("materials.saturation"@[0] != "camera.zoom_velocity"@[0]);
                },
                EffectTunerSceneParameter::StageFloorMetallic => {
                    reveal_strlit("stage.floor.metallic");
                    assert("materials.saturation"@[0] != "stage.floor.metallic"@[0]);
                },
                EffectTunerSceneParameter::LightingPointRange => {
                    reveal_strlit("lighting.point.range");
                    assert("materials.saturation"@[0] != "lighting.point.range"@[0]);
                },
                _ => {},
            }
        },
        EffectTunerSceneParameter::MaterialLightness => {
            reveal_strlit("materials.lightness");
            match b {
                EffectTunerSceneParameter::StageFloorEnabled => {
                    reveal_strlit("stage.floor.enabled");
                    assert("materials.lightness"@[0] != "stage.floor.enabled"@[0]);
                },
                EffectTunerSceneParameter::StageFloorColorR => {
                    reveal_strlit("stage.floor.color.r");
                    assert("materials.lightness"@[0] != "stage.floor.color.r"@[0]);
                },
                EffectTunerSceneParameter::StageFloorColorG => {
                    reveal_strlit("stage.floor.color.g");
                    assert("materials.lightness"@[0] != "stage.floor.color.g"@[0]);
                },
                EffectTunerSceneParameter::StageFloorColorB => {
                    reveal_strlit("stage.floor.color.b");
                    assert("materials.lightness"@[0] != "stage.floor.color.b"@[0]);
                },
                _ => {},
            }
        },
        EffectTunerSceneParameter::MaterialMetallic => {
            reveal_strlit("materials.metallic");
            match b {
                EffectTunerSceneParameter::StageFloorSizeX => {
                    reveal_strlit("stage.floor.size.x");
                    assert("materials.metallic"@[0] != "stage.floor.size.x"@[0]);
                },
                EffectTunerSceneParameter::StageFloorSizeY => {
                    reveal_strlit("stage.floor.size.y");
                    assert("materials.metallic"@[0] != "stage.floor.size.y"@[0]);
                },
                _ => {},
            }
        },
        EffectTunerSceneParameter::MaterialPerceptualRoughness => {
            reveal_strlit("materials.perceptual_roughness");
            match b {
                EffectTunerSceneParameter::MaterialTetrahedronHueBias => {
                    reveal_strlit("materials.tetrahedron_hue_bias");
                    assert("materials.perceptual_roughness"@[10] != "materials.tetrahedron_hue_bias"@[10]);
                },
                EffectTunerSceneParameter::MaterialLevelMetallicShift => {
                    reveal_strlit("materials.level_metallic_shift");
                    assert("materials.perceptual_roughness"@[10] != "materials.level_metallic_shift"@[10]);
                },
                EffectTunerSceneParameter::StageFloorRotationX => {
                    reveal_strlit("stage.floor.rotation_degrees.x");
                    assert("materials.perceptual_roughness"@[0] != "stage.floor.rotation_degrees.x"@[0]);
                },
                EffectTunerSceneParameter::StageFloorRotationY => {
                    reveal_strlit("stage.floor.rotation_degrees.y");
                    assert("materials.perceptual_roughness"@[0] != "stage.floor.rotation_degrees.y"@[0]);
                },
                EffectTunerSceneParameter::StageFloorRotationZ => {
                    reveal_strlit("stage.floor.rotation_degrees.z");
                    assert("materials.perceptual_roughness"@[0] != "stage.floor.rotation_degrees.z"@[0]);
                },
                EffectTunerSceneParameter::LightingDirectionalLookAtX => {
                    reveal_strlit("lighting.directional.look_at.x");
                    assert("materials.perceptual_roughness"@[0] != "lighting.directional.look_at.x"@[0]);
                },
                EffectTunerSceneParameter::LightingDirectionalLookAtY => {
                    reveal_strlit("lighting.directional.look_at.y");
                    assert("materials.perceptual_roughness"@[0] != "lighting.directional.look_at.y"@[0]);
                },
                EffectTunerSceneParameter::LightingDirectionalLookAtZ => {
                    reveal_strlit("lighting.directional.look_at.z");
                    assert("materials.perceptual_roughness"@[0] != "lighting.directional.look_at.z"@[0]);
                },
                _ => {},
            }
        },
        EffectTunerSceneParameter::MaterialReflectance => {
            reveal_strlit("materials.reflectance");
            match b {
                EffectTunerSceneParameter::ChildKind => {
                    reveal_strlit("generation.child_kind");
                    assert("materials.reflectance"@[0] != "generation.child_kind"@[0]);
                },
                EffectTunerSceneParameter::StageFloorThickness => {
                    reveal_strlit("stage.floor.thickness");
                    assert("materials.reflectance"@[0] != "stage.floor.thickness"@[0]);
                },
                EffectTunerSceneParameter::StageBackdropSizeX => {
                    reveal_strlit("stage.backdrop.size.x");
                    assert("materials.reflectance"@[0] != "stage.backdrop.size.x"@[0]);
                },
                EffectTunerSceneParameter::StageBackdropSizeY => {
                    reveal_strlit("stage.backdrop.size.y");
                    assert("materials.reflectance"@[0] != "stage.backdrop.size.y"@[0]);
                },
                EffectTunerSceneParameter::LightingAccentRange => {
                    reveal_strlit("lighting.accent.range");
                    assert("materials.reflectance"@[0] != "lighting.accent.range"@[0]);
                },
                _ => {},
            }
        },
        EffectTunerSceneParameter::MaterialCubeHueBias => {
            reveal_strlit("materials.cube_hue_bias");
            match b {
                EffectTunerSceneParameter::RenderingClearColorR => {
                    reveal_strlit("rendering.clear_color.r");
                    assert("materials.cube_hue_bias"@[0] != "rendering.clear_color.r"@[0]);
                },
                EffectTunerSceneParameter::RenderingClearColorG => {
                    reveal_strlit("rendering.clear_color.g");
                    assert("materials.cube_hue_bias"@[0] != "rendering.clear_color.g"@[0]);
                },
                EffectTunerSceneParameter::RenderingClearColorB => {
                    reveal_strlit("rendering.clear_color.b");
                    assert("materials.cube_hue_bias"@[0] != "rendering.clear_color.b"@[0]);
                },
                EffectTunerSceneParameter::StageFloorReflectance => {
                    reveal_strlit("stage.floor.reflectance");
                    assert("materials.cube_hue_bias"@[0] != "stage.floor.reflectance"@[0]);
                },
                EffectTunerSceneParameter::StageBackdropMetallic => {
                    reveal_strlit("stage.backdrop.metallic");
                    assert("materials.cube_hue_bias"@[0] != "stage.backdrop.metallic"@[0]);
                },
                EffectTunerSceneParameter::LightingAccentColorR => {
                    reveal_strlit("lighting.accent.color.r");
                    assert("materials.cube_hue_bias"@[0] != "lighting.accent.color.r"@[0]);
                },
                EffectTunerSceneParameter::LightingAccentColorG => {
                    reveal_strlit("lighting.accent.color.g");
                    assert("materials.cube_hue_bias"@[0] != "lighting.accent.color.g"@[0]);
                },
                EffectTunerSceneParameter::LightingAccentColorB => {
                    reveal_strlit("lighting.accent.color.b");
                    assert("materials.cube_hue_bias"@[0] != "lighting.accent.color.b"@[0]);
                },
                _ => {},
            }
        },
        EffectTunerSceneParameter::MaterialTetrahedronHueBias => {
            reveal_strlit("materials.tetrahedron_hue_bias");
            match b {
                EffectTunerSceneParameter::MaterialPerceptualRoughness => {
                    reveal_strlit("materials.perceptual_roughness");
                    assert("materials.tetrahedron_hue_bias"@[10] != "materials.perceptual_roughness"@[10]);
                },
                EffectTunerSceneParameter::MaterialLevelMetallicShift => {
                    reveal_strlit("materials.level_metallic_shift");
                    assert("materials.tetrahedron_hue_bias"@[10] != "materials.level_metallic_shift"@[10]);
                },
                EffectTunerSceneParameter::StageFloorRotationX => {
                    reveal_strlit("stage.floor.rotation_degrees.x");
                    assert("materials.tetrahedron_hue_bias"@[0] != "stage.floor.rotation_degrees.x"@[0]);
                },
                EffectTunerSceneParameter::StageFloorRotationY => {
                    reveal_strlit("stage.floor.rotation_degrees.y");
                    assert("materials.tetrahedron_hue_bias"@[0] != "stage.floor.rotation_degrees.y"@[0]);
                },
                EffectTunerSceneParameter::StageFloorRotationZ => {
                    reveal_strlit("stage.floor.rotation_degrees.z");
                    assert("materials.tetrahedron_hue_bias"@[0] != "stage.floor.rotation_degrees.z"@[0]);
                },
                EffectTunerSceneParameter::LightingDirectionalLookAtX => {
                    reveal_strlit("lighting.directional.look_at.x");
                    assert("materials.tetrahedron_hue_bias"@[0] != "lighting.directional.look_at.x"@[0]);
                },
                EffectTunerSceneParameter::LightingDirectionalLookAtY => {
                    reveal_strlit("lighting.directional.look_at.y");
                    assert("materials.tetrahedron_hue_bias"@[0] != "lighting.directional.look_at.y"@[0]);
                },
                EffectTunerSceneParameter::LightingDirectionalLookAtZ => {
                    reveal_strlit("lighting.directional.look_at.z");
                    assert("materials.tetrahedron_hue_bias"@[0] != "lighting.directional.look_at.z"@[0]);
                },
                _ => {},
            }
        },
        EffectTunerSceneParameter::MaterialOctahedronHueBias => {
            reveal_strlit("materials.octahedron_hue_bias");
            match b {
                EffectTunerSceneParameter::ChildAxisScaleX => {
                    reveal_strlit("generation.child_axis_scale.x");
                    assert("materials.octahedron_hue_bias"@[0] != "generation.child_axis_scale.x"@[0]);
                },
                EffectTunerSceneParameter::ChildAxisScaleY => {
                    reveal_strlit("generation.child_axis_scale.y");
                    assert("materials.octahedron_hue_bias"@[0] != "generation.child_axis_scale.y"@[0]);
                },
                EffectTunerSceneParameter::ChildAxisScaleZ => {
                    reveal_strlit("generation.child_axis_scale.z");
                    assert("materials.octahedron_hue_bias"@[0] != "generation.child_axis_scale.z"@[0]);
                },
                EffectTunerSceneParameter::LightingAccentTranslationX => {
                    reveal_strlit("lighting.accent.translation.x");
                    assert("materials.octahedron_hue_bias"@[0] != "lighting.accent.translation.x"@[0]);
                },
                EffectTunerSceneParameter::LightingAccentTranslationY => {
                    reveal_strlit("lighting.accent.translation.y");
                    assert("materials.octahedron_hue_bias"@[0] != "lighting.accent.translation.y"@[0]);
                },
                EffectTunerSceneParameter::LightingAccentTranslationZ => {
                    reveal_strlit("lighting.accent.translation.z");
                    assert("materials.octahedron_hue_bias"@[0] != "lighting.accent.translation.z"@[0]);
                },
                _ => {},
            }
        },
        EffectTunerSceneParameter::MaterialDodecahedronHueBias => {
            reveal_strlit("materials.dodecahedron_hue_bias");
            match b {
                EffectTunerSceneParameter::SpawnPlacementMode => {
                    reveal_strlit("generation.spawn_placement_mode");
                    assert("materials.dodecahedron_hue_bias"@[0] != "generation.spawn_placement_mode"@[0]);
                },
                EffectTunerSceneParameter::MaterialAccentEveryNLevels => {
                    reveal_strlit("materials.accent_every_n_levels");
                    assert("materials.dodecahedron_hue_bias"@[10] != "materials.accent_every_n_levels"@[10]);
                },
                EffectTunerSceneParameter::MaterialLevelLightnessShift => {
                    reveal_strlit("materials.level_lightness_shift");
                    assert("materials.dodecahedron_hue_bias"@[10] != "materials.level_lightness_shift"@[10]);
                },
                EffectTunerSceneParameter::MaterialLevelRoughnessShift => {
                    reveal_strlit("materials.level_roughness_shift");
                    assert("materials.dodecahedron_hue_bias"@[10] != "materials.level_roughness_shift"@[10]);
                },
                EffectTunerSceneParameter::RenderingAmbientColorR => {
                    reveal_strlit("rendering.ambient_light_color.r");
                    assert("materials.dodecahedron_hue_bias"@[0] != "rendering.ambient_light_color.r"@[0]);
                },
                EffectTunerSceneParameter::RenderingAmbientColorG => {
                    reveal_strlit("rendering.ambient_light_color.g");
                    assert("materials.dodecahedron_hue_bias"@[0] != "rendering.ambient_light_color.g"@[0]);
                },
                EffectTunerSceneParameter::RenderingAmbientColorB => {
                    reveal_strlit("rendering.ambient_light_color.b");
                    assert("materials.dodecahedron_hue_bias"@[0] != "rendering.ambient_light_color.b"@[0]);
                },
                _ => {},
            }
        },
        EffectTunerSceneParameter::MaterialSurfaceMode => {
            reveal_strlit("materials.surface_mode");
            match b {
                EffectTunerSceneParameter::StageBackdropEnabled => {
                    reveal_strlit("stage.backdrop.enabled");
                    assert("materials.surface_mode"@[0] != "stage.backdrop.enabled"@[0]);
                },
                EffectTunerSceneParameter::MaterialBaseSurface => {
                    reveal_strlit("materials.base_surface");
                    assert("materials.surface_mode"@[10] != "materials.base_surface"@[10]);
                },
                EffectTunerSceneParameter::MaterialRootSurface => {
                    reveal_strlit("materials.root_surface");
                    assert("materials.surface_mode"@[10] != "materials.root_surface"@[10]);
                },
                EffectTunerSceneParameter::StageBackdropColorR => {
                    reveal_strlit("stage.backdrop.color.r");
                    assert("materials.surface_mode"@[0] != "stage.backdrop.color.r"@[0]);
                },
                EffectTunerSceneParameter::StageBackdropColorG => {
                    reveal_strlit("stage.backdrop.color.g");
                    assert("materials.surface_mode"@[0] != "stage.backdrop.color.g"@[0]);
                },
                EffectTunerSceneParameter::StageBackdropColorB => {
                    reveal_strlit("stage.backdrop.color.b");
                    assert("materials.surface_mode"@[0] != "stage.backdrop.color.b"@[0]);
                },
                EffectTunerSceneParameter::LightingPointColorR => {
                    reveal_strlit("lighting.point.color.r");
                    assert("materials.surface_mode"@[0] != "lighting.point.color.r"@[0]);
                },
                EffectTunerSceneParameter::LightingPointColorG => {
                    reveal_strlit("lighting.point.color.g");
                    assert("materials.surface_mode"@[0] != "lighting.point.color.g"@[0]);
                },
                EffectTunerSceneParameter::LightingPointColorB => {
                    reveal_strlit("lighting.point.color.b");
                    assert("materials.surface_mode"@[0] != "lighting.point.color.b"@[0]);
                },
                _ => {},
            }
        },
        EffectTunerSceneParameter::MaterialBaseSurface => {
            reveal_strlit("materials.base_surface");
            match b {
                EffectTunerSceneParameter::StageBackdropEnabled => {
                    reveal_strlit("stage.backdrop.enabled");
                    assert("materials.base_surface"@[0] != "stage.backdrop.enabled"@[0]);
                },
                EffectTunerSceneParameter::MaterialSurfaceMode => {
                    reveal_strlit("materials.surface_mode");
                    assert("materials.base_surface"@[10] != "materials.surface_mode"@[10]);
                },
                EffectTunerSceneParameter::MaterialRootSurface => {
                    reveal_strlit("materials.root_surface");
                    assert("materials.base_surface"@[10] != "materials.root_surface"@[10]);
                },
                EffectTunerSceneParameter::StageBackdropColorR => {
                    reveal_strlit("stage.backdrop.color.r");
                    assert("materials.base_surface"@[0] != "stage.backdrop.color.r"@[0]);
                },
                EffectTunerSceneParameter::StageBackdropColorG => {
                    reveal_strlit("stage.backdrop.color.g");
                    assert("materials.base_surface"@[0] != "stage.backdrop.color.g"@[0]);
                },
                EffectTunerSceneParameter::StageBackdropColorB => {
                    reveal_strlit("stage.backdrop.color.b");
                    assert("materials.base_surface"@[0] != "stage.backdrop.color.b"@[0]);
                },
                EffectTunerSceneParameter::LightingPointColorR => {
                    reveal_strlit("lighting.point.color.r");
                    assert("materials.base_surface"@[0] != "lighting.point.color.r"@[0]);
                },
                EffectTunerSceneParameter::LightingPointColorG => {
                    reveal_strlit("lighting.point.color.g");
                    assert("materials.base_surface"@[0] != "lighting.point.color.g"@[0]);
                },
                EffectTunerSceneParameter::LightingPointColorB => {
                    reveal_strlit("lighting.point.color.b");
                    assert("materials.base_surface"@[0] != "lighting.point.color.b"@[0]);
                },
                _ => {},
            }
        },
        EffectTunerSceneParameter::MaterialRootSurface => {
            reveal_strlit("materials.root_surface");
            match b {
                EffectTunerSceneParameter::StageBackdropEnabled => {
                    reveal_strlit("stage.backdrop.enabled");
                    assert("materials.root_surface"@[0] != "stage.backdrop.enabled"@[0]);
                },
                EffectTunerSceneParameter::MaterialSurfaceMode => {
                    reveal_strlit("materials.surface_mode");
                    assert("materials.root_surface"@[10] != "materials.surface_mode"@[10]);
                },
                EffectTunerSceneParameter::MaterialBaseSurface => {
                    reveal_strlit("materials.base_surface");
                    assert("materials.root_surface"@[10] != "materials.base_surface"@[10]);
                },
                EffectTunerSceneParameter::StageBackdropColorR => {
                    reveal_strlit("stage.backdrop.color.r");
                    assert("materials.root_surface"@[0] != "stage.backdrop.color.r"@[0]);
                },
                EffectTunerSceneParameter::StageBackdropColorG => {
                    reveal_strlit("stage.backdrop.color.g");
                    assert("materials.root_surface"@[0] != "stage.backdrop.color.g"@[0]);
                },
                EffectTunerSceneParameter::StageBackdropColorB => {
                    reveal_strlit("stage.backdrop.color.b");
                    assert("materials.root_surface"@[0] != "stage.backdrop.color.b"@[0]);
                },
                EffectTunerSceneParameter::LightingPointColorR => {
                    reveal_strlit("lighting.point.color.r");
                    assert("materials.root_surface"@[0] != "lighting.point.color.r"@[0]);
                },
                EffectTunerSceneParameter::LightingPointColorG => {
                    reveal_strlit("lighting.point.color.g");
                    assert("materials.root_surface"@[0] != "lighting.point.color.g"@[0]);
                },
                EffectTunerSceneParameter::LightingPointColorB => {
                    reveal_strlit("lighting.point.color.b");
                    assert("materials.root_surface"@[0] != "lighting.point.color.b"@[0]);
                },
                _ => {},
            }
        },
        EffectTunerSceneParameter::MaterialAccentSurface => {
            reveal_strlit("materials.accent_surface");
            match b {
                EffectTunerSceneParameter::StageBackdropThickness => {
                    reveal_strlit("stage.backdrop.thickness");
                    assert("materials.accent_surface"@[0] != "stage.backdrop.thickness"@[0]);
                },
                EffectTunerSceneParameter::LightingPointIntensity => {
                    reveal_strlit("lighting.point.intensity");
                    assert("materials.accent_surface"@[0] != "lighting.point.intensity"@[0]);
                },
                _ => {},
            }
        },
        EffectTunerSceneParameter::MaterialAccentEveryNLevels => {
            reveal_strlit("materials.accent_every_n_levels");
            match b {
                EffectTunerSceneParameter::SpawnPlacementMode => {
                    reveal_strlit("generation.spawn_placement_mode");
                    assert("materials.accent_every_n_levels"@[0] != "generation.spawn_placement_mode"@[0]);
                },
                EffectTunerSceneParameter::MaterialDodecahedronHueBias => {
                    reveal_strlit("materials.dodecahedron_hue_bias");
                    assert("materials.accent_every_n_levels"@[10] != "materials.dodecahedron_hue_bias"@[10]);
                },
                EffectTunerSceneParameter::MaterialLevelLightnessShift => {
                    reveal_strlit("materials.level_lightness_shift");
                    assert("materials.accent_every_n_levels"@[10] != "materials.level_lightness_shift"@[10]);
                },
                EffectTunerSceneParameter::MaterialLevelRoughnessShift => {
                    reveal_strlit("materials.level_roughness_shift");
                    assert("materials.accent_every_n_levels"@[10] != "materials.level_roughness_shift"@[10]);
                },
                EffectTunerSceneParameter::RenderingAmbientColorR => {
                    reveal_strlit("rendering.ambient_light_color.r");
                    assert("materials.accent_every_n_levels"@[0] != "rendering.ambient_light_color.r"@[0]);
                },
                EffectTunerSceneParameter::RenderingAmbientColorG => {
                    reveal_strlit("rendering.ambient_light_color.g");
                    assert("materials.accent_every_n_levels"@[0] != "rendering.ambient_light_color.g"@[0]);
                },
                EffectTunerSceneParameter::RenderingAmbientColorB => {
                    reveal_strlit("rendering.ambient_light_color.b");
                    assert("materials.accent_every_n_levels"@[0] != "rendering.ambient_light_color.b"@[0]);
                },
                _ => {},
            }
        },
        EffectTunerSceneParameter::MaterialLevelLightnessShift => {
            reveal_strlit("materials.level_lightness_shift");
            match b {
                EffectTunerSceneParameter::SpawnPlacementMode => {
                    reveal_strlit("generation.spawn_placement_mode");
                    assert("materials.level_lightness_shift"@[0] != "generation.spawn_placement_mode"@[0]);
                },
                EffectTunerSceneParameter::MaterialDodecahedronHueBias => {
                    reveal_strlit("materials.dodecahedron_hue_bias");
                    assert("materials.level_lightness_shift"@[10] != "materials.dodecahedron_hue_bias"@[10]);
                },
                EffectTunerSceneParameter::MaterialAccentEveryNLevels => {
                    reveal_strlit("materials.accent_every_n_levels");
                    assert("materials.level_lightness_shift"@[10] != "materials.accent_every_n_levels"@[10]);
                },
                EffectTunerSceneParameter::MaterialLevelRoughnessShift => {
                    reveal_strlit("materials.level_roughness_shift");
                    assert("materials.level_lightness_shift"@[16] != "materials.level_roughness_shift"@[16]);
                },
                EffectTunerSceneParameter::RenderingAmbientColorR => {
                    reveal_strlit("rendering.ambient_light_color.r");
                    assert("materials.level_lightness_shift"@[0] != "rendering.ambient_light_color.r"@[0]);
                },
                EffectTunerSceneParameter::RenderingAmbientColorG => {
                    reveal_strlit("rendering.ambient_light_color.g");
                    assert("materials.level_lightness_shift"@[0] != "rendering.ambient_light_color.g"@[0]);
                },
                EffectTunerSceneParameter::RenderingAmbientColorB => {
                    reveal_strlit("rendering.ambient_light_color.b");
                    assert("materials.level_lightness_shift"@[0] != "rendering.ambient_light_color.b"@[0]);
                },
                _ => {},
            }
        },
        EffectTunerSceneParameter::MaterialLevelSaturationShift => {
            reveal_strlit("materials.level_saturation_shift");
            match b {
                EffectTunerSceneParameter::StageFloorPerceptualRoughness => {
                    reveal_strlit("stage.floor.perceptual_roughness");
                    assert("materials.level_saturation_shift"@[0] != "stage.floor.perceptual_roughness"@[0]);
                },
                EffectTunerSceneParameter::LightingDirectionalIlluminance => {
                    reveal_strlit("lighting.directional.illuminance");
                    assert("materials.level_saturation_shift"@[0] != "lighting.directional.illuminance"@[0]);
                },
                _ => {},
            }
        },
        EffectTunerSceneParameter::MaterialLevelMetallicShift => {
            reveal_strlit("materials.level_metallic_shift");
            match b {
                EffectTunerSceneParameter::MaterialPerceptualRoughness => {
                    reveal_strlit("materials.perceptual_roughness");
                    assert("materials.level_metallic_shift"@[10] != "materials.perceptual_roughness"@[10]);
                },
                EffectTunerSceneParameter::MaterialTetrahedronHueBias => {
                    reveal_strlit("materials.tetrahedron_hue_bias");
                    assert("materials.level_metallic_shift"@[10] != "materials.tetrahedron_hue_bias"@[10]);
                },
                EffectTunerSceneParameter::StageFloorRotationX => {
                    reveal_strlit("stage.floor.rotation_degrees.x");
                    assert("materials.level_metallic_shift"@[0] != "stage.floor.rotation_degrees.x"@[0]);
                },
                EffectTunerSceneParameter::StageFloorRotationY => {
                    reveal_strlit("stage.floor.rotation_degrees.y");
                    assert("materials.level_metallic_shift"@[0] != "stage.floor.rotation_degrees.y"@[0]);
                },
                EffectTunerSceneParameter::StageFloorRotationZ => {
                    reveal_strlit("stage.floor.rotation_degrees.z");
                    assert("materials.level_metallic_shift"@[0] != "stage.floor.rotation_degrees.z"@[0]);
                },
                EffectTunerSceneParameter::LightingDirectionalLookAtX => {
                    reveal_strlit("lighting.directional.look_at.x");
                    assert("materials.level_metallic_shift"@[0] != "lighting.directional.look_at.x"@[0]);
                },
                EffectTunerSceneParameter::LightingDirectionalLookAtY => {
                    reveal_strlit("lighting.directional.look_at.y");
                    assert("materials.level_metallic_shift"@[0] != "lighting.directional.look_at.y"@[0]);
                },
                EffectTunerSceneParameter::LightingDirectionalLookAtZ => {
                    reveal_strlit("lighting.directional.look_at.z");
                    assert("materials.level_metallic_shift"@[0] != "lighting.directional.look_at.z"@[0]);
                },
                _ => {},
            }
        },
        EffectTunerSceneParameter::MaterialLevelRoughnessShift => {
            reveal_strlit("materials.level_roughness_shift");
            match b {
                EffectTunerSceneParameter::SpawnPlacementMode => {
                    reveal_strlit("generation.spawn_placement_mode");
                    assert("materials.level_roughness_shift"@[0] != "generation.spawn_placement_mode"@[0]);
                },
                EffectTunerSceneParameter::MaterialDodecahedronHueBias => {
                    reveal_strlit("materials.dodecahedron_hue_bias");
                    assert("materials.level_roughness_shift"@[10] != "materials.dodecahedron_hue_bias"@[10]);
                },
                EffectTunerSceneParameter::MaterialAccentEveryNLevels => {
                    reveal_strlit("materials.accent_every_n_levels");
                    assert("materials.level_roughness_shift"@[10] != "materials.accent_every_n_levels"@[10]);
                },
                EffectTunerSceneParameter::MaterialLevelLightnessShift => {
                    reveal_strlit("materials.level_lightness_shift");
                    assert("materials.level_roughness_shift"@[16] != "materials.level_lightness_shift"@[16]);
                },
                EffectTunerSceneParameter::RenderingAmbientColorR => {
                    reveal_strlit("rendering.ambient_light_color.r");
                    assert("materials.level_roughness_shift"@[0] != "rendering.ambient_light_color.r"@[0]);
                },
                EffectTunerSceneParameter::RenderingAmbientColorG => {
                    reveal_strlit("rendering.ambient_light_color.g");
                    assert("materials.level_roughness_shift"@[0] != "rendering.ambient_light_color.g"@[0]);
                },
                EffectTunerSceneParameter::RenderingAmbientColorB => {
                    reveal_strlit("rendering.ambient_light_color.b");
                    assert("materials.level_roughness_shift"@[0] != "rendering.ambient_light_color.b"@[0]);
                },
                _ => {},
            }
        },
        EffectTunerSceneParameter::MaterialLevelReflectanceShift => {
            reveal_strlit("materials.level_reflectance_shift");
            match b {
                EffectTunerSceneParameter::StageBackdropRotationX => {
                    reveal_strlit("stage.backdrop.rotation_degrees.x");
                    assert("materials.level_reflectance_shift"@[0] != "stage.backdrop.rotation_degrees.x"@[0]);
                },
                EffectTunerSceneParameter::StageBackdropRotationY => {
                    reveal_strlit("stage.backdrop.rotation_degrees.y");
                    assert("materials.level_reflectance_shift"@[0] != "stage.backdrop.rotation_degrees.y"@[0]);
                },
                EffectTunerSceneParameter::StageBackdropRotationZ => {
                    reveal_strlit("stage.backdrop.rotation_degrees.z");
                    assert("materials.level_reflectance_shift"@[0] != "stage.backdrop.rotation_degrees.z"@[0]);
                },
                _ => {},
            }
        },
        EffectTunerSceneParameter::CameraDistance => {},
        EffectTunerSceneParameter::CameraAngularVelocityX => {
            reveal_strlit("camera.angular_velocity.x");
            match b {
                EffectTunerSceneParameter::SpawnAddMode => {
                    reveal_strlit("generation.spawn_add_mode");
                    assert("camera.angular_velocity.x"@[0] != "generation.spawn_add_mode"@[0]);
                },
                EffectTunerSceneParameter::CameraAngularVelocityY => {
                    reveal_strlit("camera.angular_velocity.y");
                    assert("camera.angular_velocity.x"@[24] != "camera.angular_velocity.y"@[24]);
                },
                EffectTunerSceneParameter::CameraAngularVelocityZ => {
                    reveal_strlit("camera.angular_velocity.z");
                    assert("camera.angular_velocity.x"@[24] != "camera.angular_velocity.z"@[24]);
                },
                EffectTunerSceneParameter::StageFloorTranslationX => {
                    reveal_strlit("stage.floor.translation.x");
                    assert("camera.angular_velocity.x"@[0] != "stage.floor.translation.x"@[0]);
                },
                EffectTunerSceneParameter::StageFloorTranslationY => {
                    reveal_strlit("stage.floor.translation.y");
                    assert("camera.angular_velocity.x"@[0] != "stage.floor.translation.y"@[0]);
                },
                EffectTunerSceneParameter::StageFloorTranslationZ => {
                    reveal_strlit("stage.floor.translation.z");
                    assert("camera.angular_velocity.x"@[0] != "stage.floor.translation.z"@[0]);
                },
                EffectTunerSceneParameter::LightingAccentIntensity => {
                    reveal_strlit("lighting.accent.intensity");
                    assert("camera.angular_velocity.x"@[0] != "lighting.accent.intensity"@[0]);
                },
                _ => {},
            }
        },
        EffectTunerSceneParameter::CameraAngularVelocityY => {
            reveal_strlit("camera.angular_velocity.y");
            match b {
                EffectTunerSceneParameter::SpawnAddMode => {
                    reveal_strlit("generation.spawn_add_mode");
                    assert("camera.angular_velocity.y"@[0] != "generation.spawn_add_mode"@[0]);
                },
                EffectTunerSceneParameter::CameraAngularVelocityX => {
                    reveal_strlit("camera.angular_velocity.x");
                    assert("camera.angular_velocity.y"@[24] != "camera.angular_velocity.x"@[24]);
                },
                EffectTunerSceneParameter::CameraAngularVelocityZ => {
                    reveal_strlit("camera.angular_velocity.z");
                    assert("camera.angular_velocity.y"@[24] != "camera.angular_velocity.z"@[24]);
                },
                EffectTunerSceneParameter::StageFloorTranslationX => {
                    reveal_strlit("stage.floor.translation.x");
                    assert("camera.angular_velocity.y"@[0] != "stage.floor.translation.x"@[0]);
                },
                EffectTunerSceneParameter::StageFloorTranslationY => {
                    reveal_strlit("stage.floor.translation.y");
                    assert("camera.angular_velocity.y"@[0] != "stage.floor.translation.y"@[0]);
                },
                EffectTunerSceneParameter::StageFloorTranslationZ => {
                    reveal_strlit("stage.floor.translation.z");
                    assert("camera.angular_velocity.y"@[0] != "stage.floor.translation.z"@[0]);
                },
                EffectTunerSceneParameter::LightingAccentIntensity => {
                    reveal_strlit("lighting.accent.intensity");
                    assert("camera.angular_velocity.y"@[0] != "lighting.accent.intensity"@[0]);
                },
                _ => {},
            }
        },
        EffectTunerSceneParameter::CameraAngularVelocityZ => {
            reveal_strlit("camera.angular_velocity.z");
            match b {
                EffectTunerSceneParameter::SpawnAddMode => {
                    reveal_strlit("generation.spawn_add_mode");
                    assert("camera.angular_velocity.z"@[0] != "generation.spawn_add_mode"@[0]);
                },
                EffectTunerSceneParameter::CameraAngularVelocityX => {
                    reveal_strlit("camera.angular_velocity.x");
                    assert("camera.angular_velocity.z"@[24] != "camera.angular_velocity.x"@[24]);
                },
                EffectTunerSceneParameter::CameraAngularVelocityY => {
                    reveal_strlit("camera.angular_velocity.y");
                    assert("camera.angular_velocity.z"@[24] != "camera.angular_velocity.y"@[24]);
                },
                EffectTunerSceneParameter::StageFloorTranslationX => {
                    reveal_strlit("stage.floor.translation.x");
                    assert("camera.angular_velocity.z"@[0] != "stage.floor.translation.x"@[0]);
                },
                EffectTunerSceneParameter::StageFloorTranslationY => {
                    reveal_strlit("stage.floor.translation.y");
                    assert("camera.angular_velocity.z"@[0] != "stage.floor.translation.y"@[0]);
                },
                EffectTunerSceneParameter::StageFloorTranslationZ => {
                    reveal_strlit("stage.floor.translation.z");
                    assert("camera.angular_velocity.z"@[0] != "stage.floor.translation.z"@[0]);
                },
                EffectTunerSceneParameter::LightingAccentIntensity => {
                    reveal_strlit("lighting.accent.intensity");
                    assert("camera.angular_velocity.z"@[0] != "lighting.accent.intensity"@[0]);
                },
                _ => {},
            }
        },
        EffectTunerSceneParameter::CameraZoomVelocity => {
            reveal_strlit("camera.zoom_velocity");
            match b {
                EffectTunerSceneParameter::MaterialSaturation => {
                    reveal_strlit("materials.saturation");
                    assert("camera.zoom_velocity"@[0] != "materials.saturation"@[0]);
                },
                EffectTunerSceneParameter::StageFloorMetallic => {
                    reveal_strlit("stage.floor.metallic");
                    assert("camera.zoom_velocity"@[0] != "stage.floor.metallic"@[0]);
                },
                EffectTunerSceneParameter::LightingPointRange => {
                    reveal_strlit("lighting.point.range");
                    assert("camera.zoom_velocity"@[0] != "lighting.point.range"@[0]);
                },
                _ => {},
            }
        },
        EffectTunerSceneParameter::RenderingClearColorR => {
            reveal_strlit("rendering.clear_color.r");
            match b {
                EffectTunerSceneParameter::MaterialCubeHueBias => {
                    reveal_strlit("materials.cube_hue_bias");
                    assert("rendering.clear_color.r"@[0] != "materials.cube_hue_bias"@[0]);
                },
                EffectTunerSceneParameter::RenderingClearColorG => {
                    reveal_strlit("rendering.clear_color.g");
                    assert("rendering.clear_color.r"@[22] != "rendering.clear_color.g"@[22]);
                },
                EffectTunerSceneParameter::RenderingClearColorB => {
                    reveal_strlit("rendering.clear_color.b");
                    assert("rendering.clear_color.r"@[22] != "rendering.clear_color.b"@[22]);
                },
                EffectTunerSceneParameter::StageFloorReflectance => {
                    reveal_strlit("stage.floor.reflectance");
                    assert("rendering.clear_color.r"@[0] != "stage.floor.reflectance"@[0]);
                },
                EffectTunerSceneParameter::StageBackdropMetallic => {
                    reveal_strlit("stage.backdrop.metallic");
                    assert("rendering.clear_color.r"@[0] != "stage.backdrop.metallic"@[0]);
                },
                EffectTunerSceneParameter::LightingAccentColorR => {
                    reveal_strlit("lighting.accent.color.r");
                    assert("rendering.clear_color.r"@[0] != "lighting.accent.color.r"@[0]);
                },
                EffectTunerSceneParameter::LightingAccentColorG => {
                    reveal_strlit("lighting.accent.color.g");
                    assert("rendering.clear_color.r"@[0] != "lighting.accent.color.g"@[0]);
                },
                EffectTunerSceneParameter::LightingAccentColorB => {
                    reveal_strlit("lighting.accent.color.b");
                    assert("rendering.clear_color.r"@[0] != "lighting.accent.color.b"@[0]);
                },
                _ => {},
            }
        },
        EffectTunerSceneParameter::RenderingClearColorG => {
            reveal_strlit("rendering.clear_color.g");
            match b {
                EffectTunerSceneParameter::MaterialCubeHueBias => {
                    reveal_strlit("materials.cube_hue_bias");
                    assert("rendering.clear_color.g"@[0] != "materials.cube_hue_bias"@[0]);
                },
                EffectTunerSceneParameter::RenderingClearColorR => {
                    reveal_strlit("rendering.clear_color.r");
                    assert("rendering.clear_color.g"@[22] != "rendering.clear_color.r"@[22]);
                },
                EffectTunerSceneParameter::RenderingClearColorB => {
                    reveal_strlit("rendering.clear_color.b");
                    assert("rendering.clear_color.g"@[22] != "rendering.clear_color.b"@[22]);
                },
                EffectTunerSceneParameter::StageFloorReflectance => {
                    reveal_strlit("stage.floor.reflectance");
                    assert("rendering.clear_color.g"@[0] != "stage.floor.reflectance"@[0]);
                },
                EffectTunerSceneParameter::StageBackdropMetallic => {
                    reveal_strlit("stage.backdrop.metallic");
                    assert("rendering.clear_color.g"@[0] != "stage.backdrop.metallic"@[0]);
                },
                EffectTunerSceneParameter::LightingAccentColorR => {
                    reveal_strlit("lighting.accent.color.r");
                    assert("rendering.clear_color.g"@[0] != "lighting.accent.color.r"@[0]);
                },
                EffectTunerSceneParameter::LightingAccentColorG => {
                    reveal_strlit("lighting.accent.color.g");
                    assert("rendering.clear_color.g"@[0] != "lighting.accent.color.g"@[0]);
                },
                EffectTunerSceneParameter::LightingAccentColorB => {
                    reveal_strlit("lighting.accent.color.b");
                    assert("rendering.clear_color.g"@[0] != "lighting.accent.color.b"@[0]);
                },
                _ => {},
            }
        },
        EffectTunerSceneParameter::RenderingClearColorB => {
            reveal_strlit("rendering.clear_color.b");
            match b {
                EffectTunerSceneParameter::MaterialCubeHueBias => {
                    reveal_strlit("materials.cube_hue_bias");
                    assert("rendering.clear_color.b"@[0] != "materials.cube_hue_bias"@[0]);
                },
                EffectTunerSceneParameter::RenderingClearColorR => {
                    reveal_strlit("rendering.clear_color.r");
                    assert("rendering.clear_color.b"@[22] != "rendering.clear_color.r"@[22]);
                },
                EffectTunerSceneParameter::RenderingClearColorG => {
                    reveal_strlit("rendering.clear_color.g");
                    assert("rendering.clear_color.b"@[22] != "rendering.clear_color.g"@[22]);
                },
                EffectTunerSceneParameter::StageFloorReflectance => {
                    reveal_strlit("stage.floor.reflectance");
                    assert("rendering.clear_color.b"@[0] != "stage.floor.reflectance"@[0]);
                },
                EffectTunerSceneParameter::StageBackdropMetallic => {
                    reveal_strlit("stage.backdrop.metallic");
                    assert("rendering.clear_color.b"@[0] != "stage.backdrop.metallic"@[0]);
                },
                EffectTunerSceneParameter::LightingAccentColorR => {
                    reveal_strlit("lighting.accent.color.r");
                    assert("rendering.clear_color.b"@[0] != "lighting.accent.color.r"@[0]);
                },
                EffectTunerSceneParameter::LightingAccentColorG => {
                    reveal_strlit("lighting.accent.color.g");
                    assert("rendering.clear_color.b"@[0] != "lighting.accent.color.g"@[0]);
                },
                EffectTunerSceneParameter::LightingAccentColorB => {
                    reveal_strlit("lighting.accent.color.b");
                    assert("rendering.clear_color.b"@[0] != "lighting.accent.color.b"@[0]);
                },
                _ => {},
            }
        },
        EffectTunerSceneParameter::RenderingAmbientColorR => {
            reveal_strlit("rendering.ambient_light_color.r");
            match b {
                EffectTunerSceneParameter::SpawnPlacementMode => {
                    reveal_strlit("generation.spawn_placement_mode");
                    assert("rendering.ambient_light_color.r"@[0] != "generation.spawn_placement_mode"@[0]);
                },
                EffectTunerSceneParameter::MaterialDodecahedronHueBias => {
                    reveal_strlit("materials.dodecahedron_hue_bias");
                    assert("rendering.ambient_light_color.r"@[0] != "materials.dodecahedron_hue_bias"@[0]);
                },
                EffectTunerSceneParameter::MaterialAccentEveryNLevels => {
                    reveal_strlit("materials.accent_every_n_levels");
                    assert("rendering.ambient_light_color.r"@[0] != "materials.accent_every_n_levels"@[0]);
                },
                EffectTunerSceneParameter::MaterialLevelLightnessShift => {
                    reveal_strlit("materials.level_lightness_shift");
                    assert("rendering.ambient_light_color.r"@[0] != "materials.level_lightness_shift"@[0]);
                },
                EffectTunerSceneParameter::MaterialLevelRoughnessShift => {
                    reveal_strlit("materials.level_roughness_shift");
                    assert("rendering.ambient_light_color.r"@[0] != "materials.level_roughness_shift"@[0]);
                },
                EffectTunerSceneParameter::RenderingAmbientColorG => {
                    reveal_strlit("rendering.ambient_light_color.g");
                    assert("rendering.ambient_light_color.r"@[30] != "rendering.ambient_light_color.g"@[30]);
                },
                EffectTunerSceneParameter::RenderingAmbientColorB => {
                    reveal_strlit("rendering.ambient_light_color.b");
                    assert("rendering.ambient_light_color.r"@[30] != "rendering.ambient_light_color.b"@[30]);
                },
                _ => {},
            }
        },
        EffectTunerSceneParameter::RenderingAmbientColorG => {
            reveal_strlit("rendering.ambient_light_color.g");
            match b {
                EffectTunerSceneParameter::SpawnPlacementMode => {
                    reveal_strlit("generation.spawn_placement_mode");
                    assert("rendering.ambient_light_color.g"@[0] != "generation.spawn_placement_mode"@[0]);
                },
                EffectTunerSceneParameter::MaterialDodecahedronHueBias => {
                    reveal_strlit("materials.dodecahedron_hue_bias");
                    assert("rendering.ambient_light_color.g"@[0] != "materials.dodecahedron_hue_bias"@[0]);
                },
                EffectTunerSceneParameter::MaterialAccentEveryNLevels => {
                    reveal_strlit("materials.accent_every_n_levels");
                    assert("rendering.ambient_light_color.g"@[0] != "materials.accent_every_n_levels"@[0]);
                },
                EffectTunerSceneParameter::MaterialLevelLightnessShift => {
                    reveal_strlit("materials.level_lightness_shift");
                    assert("rendering.ambient_light_color.g"@[0] != "materials.level_lightness_shift"@[0]);
                },
                EffectTunerSceneParameter::MaterialLevelRoughnessShift => {
                    reveal_strlit("materials.level_roughness_shift");
                    assert("rendering.ambient_light_color.g"@[0] != "materials.level_roughness_shift"@[0]);
                },
                EffectTunerSceneParameter::RenderingAmbientColorR => {
                    reveal_strlit("rendering.ambient_light_color.r");
                    assert("rendering.ambient_light_color.g"@[30] != "rendering.ambient_light_color.r"@[30]);
                },
                EffectTunerSceneParameter::RenderingAmbientColorB => {
                    reveal_strlit("rendering.ambient_light_color.b");
                    assert("rendering.ambient_light_color.g"@[30] != "rendering.ambient_light_color.b"@[30]);
                },
                _ => {},
            }
        },
        EffectTunerSceneParameter::RenderingAmbientColorB => {
            reveal_strlit("rendering.ambient_light_color.b");
            match b {
                EffectTunerSceneParameter::SpawnPlacementMode => {
                    reveal_strlit("generation.spawn_placement_mode");
                    assert("rendering.ambient_light_color.b"@[0] != "generation.spawn_placement_mode"@[0]);
                },
                EffectTunerSceneParameter::MaterialDodecahedronHueBias => {
                    reveal_strlit("materials.dodecahedron_hue_bias");
                    assert("rendering.ambient_light_color.b"@[0] != "materials.dodecahedron_hue_bias"@[0]);
                },
                EffectTunerSceneParameter::MaterialAccentEveryNLevels => {
                    reveal_strlit("materials.accent_every_n_levels");
                    assert("rendering.ambient_light_color.b"@[0] != "materials.accent_every_n_levels"@[0]);
                },
                EffectTunerSceneParameter::MaterialLevelLightnessShift => {
                    reveal_strlit("materials.level_lightness_shift");
                    assert("rendering.ambient_light_color.b"@[0] != "materials.level_lightness_shift"@[0]);
                },
                EffectTunerSceneParameter::MaterialLevelRoughnessShift => {
                    reveal_strlit("materials.level_roughness_shift");
                    assert("rendering.ambient_light_color.b"@[0] != "materials.level_roughness_shift"@[0]);
                },
                EffectTunerSceneParameter::RenderingAmbientColorR => {
                    reveal_strlit("rendering.ambient_light_color.r");
                    assert("rendering.ambient_light_color.b"@[30] != "rendering.ambient_light_color.r"@[30]);
                },
                EffectTunerSceneParameter::RenderingAmbientColorG => {
                    reveal_strlit("rendering.ambient_light_color.g");
                    assert("rendering.ambient_light_color.b"@[30] != "rendering.ambient_light_color.g"@[30]);
                },
                _ => {},
            }
        },
        EffectTunerSceneParameter::RenderingAmbientBrightness => {
            reveal_strlit("rendering.ambient_light_brightness");
            match b {
                EffectTunerSceneParameter::LightingDirectionalTranslationX => {
                    reveal_strlit("lighting.directional.translation.x");
                    assert("rendering.ambient_light_brightness"@[0] != "lighting.directional.translation.x"@[0]);
                },
                EffectTunerSceneParameter::LightingDirectionalTranslationY => {
                    reveal_strlit("lighting.directional.translation.y");
                    assert("rendering.ambient_light_brightness"@[0] != "lighting.directional.translation.y"@[0]);
                },
                EffectTunerSceneParameter::LightingDirectionalTranslationZ => {
                    reveal_strlit("lighting.directional.translation.z");
                    assert("rendering.ambient_light_brightness"@[0] != "lighting.directional.translation.z"@[0]);
                },
                _ => {},
            }
        },
        EffectTunerSceneParameter::StageFloorColorR => {
            reveal_strlit("stage.floor.color.r");
            match b {
                EffectTunerSceneParameter::StageFloorEnabled => {
                    reveal_strlit("stage.floor.enabled");
                    assert("stage.floor.color.r"@[12] != "stage.floor.enabled"@[12]);
                },
                EffectTunerSceneParameter::MaterialLightness => {
                    reveal_strlit("materials.lightness");
                    assert("stage.floor.color.r"@[0] != "materials.lightness"@[0]);
                },
                EffectTunerSceneParameter::StageFloorColorG => {
                    reveal_strlit("stage.floor.color.g");
                    assert("stage.floor.color.r"@[18] != "stage.floor.color.g"@[18]);
                },
                EffectTunerSceneParameter::StageFloorColorB => {
                    reveal_strlit("stage.floor.color.b");
                    assert("stage.floor.color.r"@[18] != "stage.floor.color.b"@[18]);
                },
                _ => {},
            }
        },
        EffectTunerSceneParameter::StageFloorColorG => {
            reveal_strlit("stage.floor.color.g");
            match b {
                EffectTunerSceneParameter::StageFloorEnabled => {
                    reveal_strlit("stage.floor.enabled");
                    assert("stage.floor.color.g"@[12] != "stage.floor.enabled"@[12]);
                },
                EffectTunerSceneParameter::MaterialLightness => {
                    reveal_strlit("materials.lightness");
                    assert("stage.floor.color.g"@[0] != "materials.lightness"@[0]);
                },
                EffectTunerSceneParameter::StageFloorColorR => {
                    reveal_strlit("stage.floor.color.r");
                    assert("stage.floor.color.g"@[18] != "stage.floor.color.r"@[18]);
                },
                EffectTunerSceneParameter::StageFloorColorB => {
                    reveal_strlit("stage.floor.color.b");
                    assert("stage.floor.color.g"@[18] != "stage.floor.color.b"@[18]);
                },
                _ => {},
            }
        },
        EffectTunerSceneParameter::StageFloorColorB => {
            reveal_strlit("stage.floor.color.b");
            match b {
                EffectTunerSceneParameter::StageFloorEnabled => {
                    reveal_strlit("stage.floor.enabled");
                    assert("stage.floor.color.b"@[12] != "stage.floor.enabled"@[12]);
                },
                EffectTunerSceneParameter::MaterialLightness => {
                    reveal_strlit("materials.lightness");
                    assert("stage.floor.color.b"@[0] != "materials.lightness"@[0]);
                },
                EffectTunerSceneParameter::StageFloorColorR => {
                    reveal_strlit("stage.floor.color.r");
                    assert("stage.floor.color.b"@[18] != "stage.floor.color.r"@[18]);
                },
                EffectTunerSceneParameter::StageFloorColorG => {
                    reveal_strlit("stage.floor.color.g");
                    assert("stage.floor.color.b"@[18] != "stage.floor.color.g"@[18]);
                },
                _ => {},
            }
        },
        EffectTunerSceneParameter::StageFloorTranslationX => {
            reveal_strlit("stage.floor.translation.x");
            match b {
                EffectTunerSceneParameter::SpawnAddMode => {
                    reveal_strlit("generation.spawn_add_mode");
                    assert("stage.floor.translation.x"@[0] != "generation.spawn_add_mode"@[0]);
                },
                EffectTunerSceneParameter::CameraAngularVelocityX => {
                    reveal_strlit("camera.angular_velocity.x");
                    assert("stage.floor.translation.x"@[0] != "camera.angular_velocity.x"@[0]);
                },
                EffectTunerSceneParameter::CameraAngularVelocityY => {
                    reveal_strlit("camera.angular_velocity.y");
                    assert("stage.floor.translation.x"@[0] != "camera.angular_velocity.y"@[0]);
                },
                EffectTunerSceneParameter::CameraAngularVelocityZ => {
                    reveal_strlit("camera.angular_velocity.z");
                    assert("stage.floor.translation.x"@[0] != "camera.angular_velocity.z"@[0]);
                },
                EffectTunerSceneParameter::StageFloorTranslationY => {
                    reveal_strlit("stage.floor.translation.y");
                    assert("stage.floor.translation.x"@[24] != "stage.floor.translation.y"@[24]);
                },
                EffectTunerSceneParameter::StageFloorTranslationZ => {
                    reveal_strlit("stage.floor.translation.z");
                    assert("stage.floor.translation.x"@[24] != "stage.floor.translation.z"@[24]);
                },
                EffectTunerSceneParameter::LightingAccentIntensity => {
                    reveal_strlit("lighting.accent.intensity");
                    assert("stage.floor.translation.x"@[0] != "lighting.accent.intensity"@[0]);
                },
                _ => {},
            }
        },
        EffectTunerSceneParameter::StageFloorTranslationY => {
            reveal_strlit("stage.floor.translation.y");
            match b {
                EffectTunerSceneParameter::SpawnAddMode => {
                    reveal_strlit("generation.spawn_add_mode");
                    assert("stage.floor.translation.y"@[0] != "generation.spawn_add_mode"@[0]);
                },
                EffectTunerSceneParameter::CameraAngularVelocityX => {
                    reveal_strlit("camera.angular_velocity.x");
                    assert("stage.floor.translation.y"@[0] != "camera.angular_velocity.x"@[0]);
                },
                EffectTunerSceneParameter::CameraAngularVelocityY => {
                    reveal_strlit("camera.angular_velocity.y");
                    assert("stage.floor.translation.y"@[0] != "camera.angular_velocity.y"@[0]);
                },
                EffectTunerSceneParameter::CameraAngularVelocityZ => {
                    reveal_strlit("camera.angular_velocity.z");
                    assert("stage.floor.translation.y"@[0] != "camera.angular_velocity.z"@[0]);
                },
                EffectTunerSceneParameter::StageFloorTranslationX => {
                    reveal_strlit("stage.floor.translation.x");
                    assert("stage.floor.translation.y"@[24] != "stage.floor.translation.x"@[24]);
                },
                EffectTunerSceneParameter::StageFloorTranslationZ => {
                    reveal_strlit("stage.floor.translation.z");
                    assert("stage.floor.translation.y"@[24] != "stage.floor.translation.z"@[24]);
                },
                EffectTunerSceneParameter::LightingAccentIntensity => {
                    reveal_strlit("lighting.accent.intensity");
                    assert("stage.floor.translation.y"@[0] != "lighting.accent.intensity"@[0]);
                },
                _ => {},
            }
        },
        EffectTunerSceneParameter::StageFloorTranslationZ => {
            reveal_strlit("stage.floor.translation.z");
            match b {
                EffectTunerSceneParameter::SpawnAddMode => {
                    reveal_strlit("generation.spawn_add_mode");
                    assert("stage.floor.translation.z"@[0] != "generation.spawn_add_mode"@[0]);
                },
                EffectTunerSceneParameter::CameraAngularVelocityX => {
                    reveal_strlit("camera.angular_velocity.x");
                    assert("stage.floor.translation.z"@[0] != "camera.angular_velocity.x"@[0]);
                },
                EffectTunerSceneParameter::CameraAngularVelocityY => {
                    reveal_strlit("camera.angular_velocity.y");
                    assert("stage.floor.translation.z"@[0] != "camera.angular_velocity.y"@[0]);
                },
                EffectTunerSceneParameter::CameraAngularVelocityZ => {
                    reveal_strlit("camera.angular_velocity.z");
                    assert("stage.floor.translation.z"@[0] != "camera.angular_velocity.z"@[0]);
                },
                EffectTunerSceneParameter::StageFloorTranslationX => {
                    reveal_strlit("stage.floor.translation.x");
                    assert("stage.floor.translation.z"@[24] != "stage.floor.translation.x"@[24]);
                },
                EffectTunerSceneParameter::StageFloorTranslationY => {
                    reveal_strlit("stage.floor.translation.y");
                    assert("stage.floor.translation.z"@[24] != "stage.floor.translation.y"@[24]);
                },
                EffectTunerSceneParameter::LightingAccentIntensity => {
                    reveal_strlit("lighting.accent.intensity");
                    assert("stage.floor.translation.z"@[0] != "lighting.accent.intensity"@[0]);
                },
                _ => {},
            }
        },
        EffectTunerSceneParameter::StageFloorRotationX => {
            reveal_strlit("stage.floor.rotation_degrees.x");
            match b {
                EffectTunerSceneParameter::MaterialPerceptualRoughness => {
                    reveal_strlit("materials.perceptual_roughness");
                    assert("stage.floor.rotation_degrees.x"@[0] != "materials.perceptual_roughness"@[0]);
                },
                EffectTunerSceneParameter::MaterialTetrahedronHueBias => {
                    reveal_strlit("materials.tetrahedron_hue_bias");
                    assert("stage.floor.rotation_degrees.x"@[0] != "materials.tetrahedron_hue_bias"@[0]);
                },
                EffectTunerSceneParameter::MaterialLevelMetallicShift => {
                    reveal_strlit("materials.level_metallic_shift");
                    assert("stage.floor.rotation_degrees.x"@[0] != "materials.level_metallic_shift"@[0]);
                },
                EffectTunerSceneParameter::StageFloorRotationY => {
                    reveal_strlit("stage.floor.rotation_degrees.y");
                    assert("stage.floor.rotation_degrees.x"@[29] != "stage.floor.rotation_degrees.y"@[29]);
                },
                EffectTunerSceneParameter::StageFloorRotationZ => {
                    reveal_strlit("stage.floor.rotation_degrees.z");
                    assert("stage.floor.rotation_degrees.x"@[29] != "stage.floor.rotation_degrees.z"@[29]);
                },
                EffectTunerSceneParameter::LightingDirectionalLookAtX => {
                    reveal_strlit("lighting.directional.look_at.x");
                    assert("stage.floor.rotation_degrees.x"@[0] != "lighting.directional.look_at.x"@[0]);
                },
                EffectTunerSceneParameter::LightingDirectionalLookAtY => {
                    reveal_strlit("lighting.directional.look_at.y");
                    assert("stage.floor.rotation_degrees.x"@[0] != "lighting.directional.look_at.y"@[0]);
                },
                EffectTunerSceneParameter::LightingDirectionalLookAtZ => {
                    reveal_strlit("lighting.directional.look_at.z");
                    assert("stage.floor.rotation_degrees.x"@[0] != "lighting.directional.look_at.z"@[0]);
                },
                _ => {},
            }
        },
        EffectTunerSceneParameter::StageFloorRotationY => {
            reveal_strlit("stage.floor.rotation_degrees.y");
            match b {
                EffectTunerSceneParameter::MaterialPerceptualRoughness => {
                    reveal_strlit("materials.perceptual_roughness");
                    assert("stage.floor.rotation_degrees.y"@[0] != "materials.perceptual_roughness"@[0]);
                },
                EffectTunerSceneParameter::MaterialTetrahedronHueBias => {
                    reveal_strlit("materials.tetrahedron_hue_bias");
                    assert("stage.floor.rotation_degrees.y"@[0] != "materials.tetrahedron_hue_bias"@[0]);
                },
                EffectTunerSceneParameter::MaterialLevelMetallicShift => {
                    reveal_strlit("materials.level_metallic_shift");
                    assert("stage.floor.rotation_degrees.y"@[0] != "materials.level_metallic_shift"@[0]);
                },
                EffectTunerSceneParameter::StageFloorRotationX => {
                    reveal_strlit("stage.floor.rotation_degrees.x");
                    assert("stage.floor.rotation_degrees.y"@[29] != "stage.floor.rotation_degrees.x"@[29]);
                },
                EffectTunerSceneParameter::StageFloorRotationZ => {
                    reveal_strlit("stage.floor.rotation_degrees.z");
                    assert("stage.floor.rotation_degrees.y"@[29] != "stage.floor.rotation_degrees.z"@[29]);
                },
                EffectTunerSceneParameter::LightingDirectionalLookAtX => {
                    reveal_strlit("lighting.directional.look_at.x");
                    assert("stage.floor.rotation_degrees.y"@[0] != "lighting.directional.look_at.x"@[0]);
                },
                EffectTunerSceneParameter::LightingDirectionalLookAtY => {
                    reveal_strlit("lighting.directional.look_at.y");
                    assert("stage.floor.rotation_degrees.y"@[0] != "lighting.directional.look_at.y"@[0]);
                },
                EffectTunerSceneParameter::LightingDirectionalLookAtZ => {
                    reveal_strlit("lighting.directional.look_at.z");
                    assert("stage.floor.rotation_degrees.y"@[0] != "lighting.directional.look_at.z"@[0]);
                },
                _ => {},
            }
        },
        EffectTunerSceneParameter::StageFloorRotationZ => {
            reveal_strlit("stage.floor.rotation_degrees.z");
            match b {
                EffectTunerSceneParameter::MaterialPerceptualRoughness => {
                    reveal_strlit("materials.perceptual_roughness");
                    assert("stage.floor.rotation_degrees.z"@[0] != "materials.perceptual_roughness"@[0]);
                },
                EffectTunerSceneParameter::MaterialTetrahedronHueBias => {
                    reveal_strlit("materials.tetrahedron_hue_bias");
                    assert("stage.floor.rotation_degrees.z"@[0] != "materials.tetrahedron_hue_bias"@[0]);
                },
                EffectTunerSceneParameter::MaterialLevelMetallicShift => {
                    reveal_strlit("materials.level_metallic_shift");
                    assert("stage.floor.rotation_degrees.z"@[0] != "materials.level_metallic_shift"@[0]);
                },
                EffectTunerSceneParameter::StageFloorRotationX => {
                    reveal_strlit("stage.floor.rotation_degrees.x");
                    assert("stage.floor.rotation_degrees.z"@[29] != "stage.floor.rotation_degrees.x"@[29]);
                },
                EffectTunerSceneParameter::StageFloorRotationY => {
                    reveal_strlit("stage.floor.rotation_degrees.y");
                    assert("stage.floor.rotation_degrees.z"@[29] != "stage.floor.rotation_degrees.y"@[29]);
                },
                EffectTunerSceneParameter::LightingDirectionalLookAtX => {
                    reveal_strlit("lighting.directional.look_at.x");
                    assert("stage.floor.rotation_degrees.z"@[0] != "lighting.directional.look_at.x"@[0]);
                },
                EffectTunerSceneParameter::LightingDirectionalLookAtY => {
                    reveal_strlit("lighting.directional.look_at.y");
                    assert("stage.floor.rotation_degrees.z"@[0] != "lighting.directional.look_at.y"@[0]);
                },
                EffectTunerSceneParameter::LightingDirectionalLookAtZ => {
                    reveal_strlit("lighting.directional.look_at.z");
                    assert("stage.floor.rotation_degrees.z"@[0] != "lighting.directional.look_at.z"@[0]);
                },
                _ => {},
            }
        },
        EffectTunerSceneParameter::StageFloorSizeX => {
            reveal_strlit("stage.floor.size.x");
            match b {
                EffectTunerSceneParameter::MaterialMetallic => {
                    reveal_strlit("materials.metallic");
                    assert("stage.floor.size.x"@[0] != "materials.metallic"@[0]);
                },
                EffectTunerSceneParameter::StageFloorSizeY => {
                    reveal_strlit("stage.floor.size.y");
                    assert("stage.floor.size.x"@[17] != "stage.floor.size.y"@[17]);
                },
                _ => {},
            }
        },
        EffectTunerSceneParameter::StageFloorSizeY => {
            reveal_strlit("stage.floor.size.y");
            match b {
                EffectTunerSceneParameter::MaterialMetallic => {
                    reveal_strlit("materials.metallic");
                    assert("stage.floor.size.y"@[0] != "materials.metallic"@[0]);
                },
                EffectTunerSceneParameter::StageFloorSizeX => {
                    reveal_strlit("stage.floor.size.x");
                    assert("stage.floor.size.y"@[17] != "stage.floor.size.x"@[17]);
                },
                _ => {},
            }
        },
        EffectTunerSceneParameter::StageFloorThickness => {
            reveal_strlit("stage.floor.thickness");
            match b {
                EffectTunerSceneParameter::ChildKind => {
                    reveal_strlit("generation.child_kind");
                    assert("stage.floor.thickness"@[0] != "generation.child_kind"@[0]);
                },
                EffectTunerSceneParameter::MaterialReflectance => {
                    reveal_strlit("materials.reflectance");
                    assert("stage.floor.thickness"@[0] != "materials.reflectance"@[0]);
                },
                EffectTunerSceneParameter::StageBackdropSizeX => {
                    reveal_strlit("stage.backdrop.size.x");
                    assert("stage.floor.thickness"@[6] != "stage.backdrop.size.x"@[6]);
                },
                EffectTunerSceneParameter::StageBackdropSizeY => {
                    reveal_strlit("stage.backdrop.size.y");
                    assert("stage.floor.thickness"@[6] != "stage.backdrop.size.y"@[6]);
                },
                EffectTunerSceneParameter::LightingAccentRange => {
                    reveal_strlit("lighting.accent.range");
                    assert("stage.floor.thickness"@[0] != "lighting.accent.range"@[0]);
                },
                _ => {},
            }
        },
        EffectTunerSceneParameter::StageFloorMetallic => {
            reveal_strlit("stage.floor.metallic");
            match b {
                EffectTunerSceneParameter::MaterialSaturation => {
                    reveal_strlit("materials.saturation");
                    assert("stage.floor.metallic"@[0] != "materials.saturation"@[0]);
                },
                EffectTunerSceneParameter::CameraZoomVelocity => {
                    reveal_strlit("camera.zoom_velocity");
                    assert("stage.floor.metallic"@[0] != "camera.zoom_velocity"@[0]);
                },
                EffectTunerSceneParameter::LightingPointRange => {
                    reveal_strlit("lighting.point.range");
                    assert("stage.floor.metallic"@[0] != "lighting.point.range"@[0]);
                },
                _ => {},
            }
        },
        EffectTunerSceneParameter::StageFloorPerceptualRoughness => {
            reveal_strlit("stage.floor.perceptual_roughness");
            match b {
                EffectTunerSceneParameter::MaterialLevelSaturationShift => {
                    reveal_strlit("materials.level_saturation_shift");
                    assert("stage.floor.perceptual_roughness"@[0] != "materials.level_saturation_shift"@[0]);
                },
                EffectTunerSceneParameter::LightingDirectionalIlluminance => {
                    reveal_strlit("lighting.directional.illuminance");
                    assert("stage.floor.perceptual_roughness"@[0] != "lighting.directional.illuminance"@[0]);
                },
                _ => {},
            }
        },
        EffectTunerSceneParameter::StageFloorReflectance => {
            reveal_strlit("stage.floor.reflectance");
            match b {
                EffectTunerSceneParameter::MaterialCubeHueBias => {
                    reveal_strlit("materials.cube_hue_bias");
                    assert("stage.floor.reflectance"@[0] != "materials.cube_hue_bias"@[0]);
                },
                EffectTunerSceneParameter::RenderingClearColorR => {
                    reveal_strlit("rendering.clear_color.r");
                    assert("stage.floor.reflectance"@[0] != "rendering.clear_color.r"@[0]);
                },
                EffectTunerSceneParameter::RenderingClearColorG => {
                    reveal_strlit("rendering.clear_color.g");
                    assert("stage.floor.reflectance"@[0] != "rendering.clear_color.g"@[0]);
                },
                EffectTunerSceneParameter::RenderingClearColorB => {
                    reveal_strlit("rendering.clear_color.b");
                    assert("stage.floor.reflectance"@[0] != "rendering.clear_color.b"@[0]);
                },
                EffectTunerSceneParameter::StageBackdropMetallic => {
                    reveal_strlit("stage.backdrop.metallic");
                    assert("stage.floor.reflectance"@[6] != "stage.backdrop.metallic"@[6]);
                },
                EffectTunerSceneParameter::LightingAccentColorR => {
                    reveal_strlit("lighting.accent.color.r");
                    assert("stage.floor.reflectance"@[0] != "lighting.accent.color.r"@[0]);
                },
                EffectTunerSceneParameter::LightingAccentColorG => {
                    reveal_strlit("lighting.accent.color.g");
                    assert("stage.floor.reflectance"@[0] != "lighting.accent.color.g"@[0]);
                },
                EffectTunerSceneParameter::LightingAccentColorB => {
                    reveal_strlit("lighting.accent.color.b");
                    assert("stage.floor.reflectance"@[0] != "lighting.accent.color.b"@[0]);
                },
                _ => {},
            }
        },
        EffectTunerSceneParameter::StageBackdropColorR => {
            reveal_strlit("stage.backdrop.color.r");
            match b {
                EffectTunerSceneParameter::StageBackdropEnabled => {
                    reveal_strlit("stage.backdrop.enabled");
                    assert("stage.backdrop.color.r"@[15] != "stage.backdrop.enabled"@[15]);
                },
                EffectTunerSceneParameter::MaterialSurfaceMode => {
                    reveal_strlit("materials.surface_mode");
                    assert("stage.backdrop.color.r"@[0] != "materials.surface_mode"@[0]);
                },
                EffectTunerSceneParameter::MaterialBaseSurface => {
                    reveal_strlit("materials.base_surface");
                    assert("stage.backdrop.color.r"@[0] != "materials.base_surface"@[0]);
                },
                EffectTunerSceneParameter::MaterialRootSurface => {
                    reveal_strlit("materials.root_surface");
                    assert("stage.backdrop.color.r"@[0] != "materials.root_surface"@[0]);
                },
                EffectTunerSceneParameter::StageBackdropColorG => {
                    reveal_strlit("stage.backdrop.color.g");
                    assert("stage.backdrop.color.r"@[21] != "stage.backdrop.color.g"@[21]);
                },
                EffectTunerSceneParameter::StageBackdropColorB => {
                    reveal_strlit("stage.backdrop.color.b");
                    assert("stage.backdrop.color.r"@[21] != "stage.backdrop.color.b"@[21]);
                },
                EffectTunerSceneParameter::LightingPointColorR => {
                    reveal_strlit("lighting.point.color.r");
                    assert("stage.backdrop.color.r"@[0] != "lighting.point.color.r"@[0]);
                },
                EffectTunerSceneParameter::LightingPointColorG => {
                    reveal_strlit("lighting.point.color.g");
                    assert("stage.backdrop.color.r"@[0] != "lighting.point.color.g"@[0]);
                },
                EffectTunerSceneParameter::LightingPointColorB => {
                    reveal_strlit("lighting.point.color.b");
                    assert("stage.backdrop.color.r"@[0] != "lighting.point.color.b"@[0]);
                },
                _ => {},
            }
        },
        EffectTunerSceneParameter::StageBackdropColorG => {
            reveal_strlit("stage.backdrop.color.g");
            match b {
                EffectTunerSceneParameter::StageBackdropEnabled => {
                    reveal_strlit("stage.backdrop.enabled");
                    assert("stage.backdrop.color.g"@[15] != "stage.backdrop.enabled"@[15]);
                },
                EffectTunerSceneParameter::MaterialSurfaceMode => {
                    reveal_strlit("materials.surface_mode");
                    assert("stage.backdrop.color.g"@[0] != "materials.surface_mode"@[0]);
                },
                EffectTunerSceneParameter::MaterialBaseSurface => {
                    reveal_strlit("materials.base_surface");
                    assert("stage.backdrop.color.g"@[0] != "materials.base_surface"@[0]);
                },
                EffectTunerSceneParameter::MaterialRootSurface => {
                    reveal_strlit("materials.root_surface");
                    assert("stage.backdrop.color.g"@[0] != "materials.root_surface"@[0]);
                },
                EffectTunerSceneParameter::StageBackdropColorR => {
                    reveal_strlit("stage.backdrop.color.r");
                    assert("stage.backdrop.color.g"@[21] != "stage.backdrop.color.r"@[21]);
                },
                EffectTunerSceneParameter::StageBackdropColorB => {
                    reveal_strlit("stage.backdrop.color.b");
                    assert("stage.backdrop.color.g"@[21] != "stage.backdrop.color.b"@[21]);
                },
                EffectTunerSceneParameter::LightingPointColorR => {
                    reveal_strlit("lighting.point.color.r");
                    assert("stage.backdrop.color.g"@[0] != "lighting.point.color.r"@[0]);
                },
                EffectTunerSceneParameter::LightingPointColorG => {
                    reveal_strlit("lighting.point.color.g");
                    assert("stage.backdrop.color.g"@[0] != "lighting.point.color.g"@[0]);
                },
                EffectTunerSceneParameter::LightingPointColorB => {
                    reveal_strlit("lighting.point.color.b");
                    assert("stage.backdrop.color.g"@[0] != "lighting.point.color.b"@[0]);
                },
                _ => {},
            }
        },
        EffectTunerSceneParameter::StageBackdropColorB => {
            reveal_strlit("stage.backdrop.color.b");
            match b {
                EffectTunerSceneParameter::StageBackdropEnabled => {
                    reveal_strlit("stage.backdrop.enabled");
                    assert("stage.backdrop.color.b"@[15] != "stage.backdrop.enabled"@[15]);
                },
                EffectTunerSceneParameter::MaterialSurfaceMode => {
                    reveal_strlit("materials.surface_mode");
                    assert("stage.backdrop.color.b"@[0] != "materials.surface_mode"@[0]);
                },
                EffectTunerSceneParameter::MaterialBaseSurface => {
                    reveal_strlit("materials.base_surface");
                    assert("stage.backdrop.color.b"@[0] != "materials.base_surface"@[0]);
                },
                EffectTunerSceneParameter::MaterialRootSurface => {
                    reveal_strlit("materials.root_surface");
                    assert("stage.backdrop.color.b"@[0] != "materials.root_surface"@[0]);
                },
                EffectTunerSceneParameter::StageBackdropColorR => {
                    reveal_strlit("stage.backdrop.color.r");
                    assert("stage.backdrop.color.b"@[21] != "stage.backdrop.color.r"@[21]);
                },
                EffectTunerSceneParameter::StageBackdropColorG => {
                    reveal_strlit("stage.backdrop.color.g");
                    assert("stage.backdrop.color.b"@[21] != "stage.backdrop.color.g"@[21]);
                },
                EffectTunerSceneParameter::LightingPointColorR => {
                    reveal_strlit("lighting.point.color.r");
                    assert("stage.backdrop.color.b"@[0] != "lighting.point.color.r"@[0]);
                },
                EffectTunerSceneParameter::LightingPointColorG => {
                    reveal_strlit("lighting.point.color.g");
                    assert("stage.backdrop.color.b"@[0] != "lighting.point.color.g"@[0]);
                },
                EffectTunerSceneParameter::LightingPointColorB => {
                    reveal_strlit("lighting.point.color.b");
                    assert("stage.backdrop.color.b"@[0] != "lighting.point.color.b"@[0]);
                },
                _ => {},
            }
        },
        EffectTunerSceneParameter::StageBackdropTranslationX => {
            reveal_strlit("stage.backdrop.translation.x");
            match b {
                EffectTunerSceneParameter::ChildScaleRatio => {
                    reveal_strlit("generation.child_scale_ratio");
                    assert("stage.backdrop.translation.x"@[0] != "generation.child_scale_ratio"@[0]);
                },
                EffectTunerSceneParameter::MaterialHueStepPerLevel => {
                    reveal_strlit("materials.hue_step_per_level");
                    assert("stage.backdrop.translation.x"@[0] != "materials.hue_step_per_level"@[0]);
                },
                EffectTunerSceneParameter::StageBackdropTranslationY => {
                    reveal_strlit("stage.backdrop.translation.y");
                    assert("stage.backdrop.translation.x"@[27] != "stage.backdrop.translation.y"@[27]);
                },
                EffectTunerSceneParameter::StageBackdropTranslationZ => {
                    reveal_strlit("stage.backdrop.translation.z");
                    assert("stage.backdrop.translation.x"@[27] != "stage.backdrop.translation.z"@[27]);
                },
                EffectTunerSceneParameter::LightingDirectionalColorR => {
                    reveal_strlit("lighting.directional.color.r");
                    assert("stage.backdrop.translation.x"@[0] != "lighting.directional.color.r"@[0]);
                },
                EffectTunerSceneParameter::LightingDirectionalColorG => {
                    reveal_strlit("lighting.directional.color.g");
                    assert("stage.backdrop.translation.x"@[0] != "lighting.directional.color.g"@[0]);
                },
                EffectTunerSceneParameter::LightingDirectionalColorB => {
                    reveal_strlit("lighting.directional.color.b");
                    assert("stage.backdrop.translation.x"@[0] != "lighting.directional.color.b"@[0]);
                },
                EffectTunerSceneParameter::LightingPointTranslationX => {
                    reveal_strlit("lighting.point.translation.x");
                    assert("stage.backdrop.translation.x"@[0] != "lighting.point.translation.x"@[0]);
                },
                EffectTunerSceneParameter::LightingPointTranslationY => {
                    reveal_strlit("lighting.point.translation.y");
                    assert("stage.backdrop.translation.x"@[0] != "lighting.point.translation.y"@[0]);
                },
                EffectTunerSceneParameter::LightingPointTranslationZ => {
                    reveal_strlit("lighting.point.translation.z");
                    assert("stage.backdrop.translation.x"@[0] != "lighting.point.translation.z"@[0]);
                },
                _ => {},
            }
        },
        EffectTunerSceneParameter::StageBackdropTranslationY => {
            reveal_strlit("stage.backdrop.translation.y");
            match b {
                EffectTunerSceneParameter::ChildScaleRatio => {
                    reveal_strlit("generation.child_scale_ratio");
                    assert("stage.backdrop.translation.y"@[0] != "generation.child_scale_ratio"@[0]);
                },
                EffectTunerSceneParameter::MaterialHueStepPerLevel => {
                    reveal_strlit("materials.hue_step_per_level");
                    assert("stage.backdrop.translation.y"@[0] != "materials.hue_step_per_level"@[0]);
                },
                EffectTunerSceneParameter::StageBackdropTranslationX => {
                    reveal_strlit("stage.backdrop.translation.x");
                    assert("stage.backdrop.translation.y"@[27] != "stage.backdrop.translation.x"@[27]);
                },
                EffectTunerSceneParameter::StageBackdropTranslationZ => {
                    reveal_strlit("stage.backdrop.translation.z");
                    assert("stage.backdrop.translation.y"@[27] != "stage.backdrop.translation.z"@[27]);
                },
                EffectTunerSceneParameter::LightingDirectionalColorR => {
                    reveal_strlit("lighting.directional.color.r");
                    assert("stage.backdrop.translation.y"@[0] != "lighting.directional.color.r"@[0]);
                },
                EffectTunerSceneParameter::LightingDirectionalColorG => {
                    reveal_strlit("lighting.directional.color.g");
                    assert("stage.backdrop.translation.y"@[0] != "lighting.directional.color.g"@[0]);
                },
                EffectTunerSceneParameter::LightingDirectionalColorB => {
                    reveal_strlit("lighting.directional.color.b");
                    assert("stage.backdrop.translation.y"@[0] != "lighting.directional.color.b"@[0]);
                },
                EffectTunerSceneParameter::LightingPointTranslationX => {
                    reveal_strlit("lighting.point.translation.x");
                    assert("stage.backdrop.translation.y"@[0] != "lighting.point.translation.x"@[0]);
                },
                EffectTunerSceneParameter::LightingPointTranslationY => {
                    reveal_strlit("lighting.point.translation.y");
                    assert("stage.backdrop.translation.y"@[0] != "lighting.point.translation.y"@[0]);
                },
                EffectTunerSceneParameter::LightingPointTranslationZ => {
                    reveal_strlit("lighting.point.translation.z");
                    assert("stage.backdrop.translation.y"@[0] != "lighting.point.translation.z"@[0]);
                },
                _ => {},
            }
        },
        EffectTunerSceneParameter::StageBackdropTranslationZ => {
            reveal_strlit("stage.backdrop.translation.z");
            match b {
                EffectTunerSceneParameter::ChildScaleRatio => {
                    reveal_strlit("generation.child_scale_ratio");
                    assert("stage.backdrop.translation.z"@[0] != "generation.child_scale_ratio"@[0]);
                },
                EffectTunerSceneParameter::MaterialHueStepPerLevel => {
                    reveal_strlit("materials.hue_step_per_level");
                    assert("stage.backdrop.translation.z"@[0] != "materials.hue_step_per_level"@[0]);
                },
                EffectTunerSceneParameter::StageBackdropTranslationX => {
                    reveal_strlit("stage.backdrop.translation.x");
                    assert("stage.backdrop.translation.z"@[27] != "stage.backdrop.translation.x"@[27]);
                },
                EffectTunerSceneParameter::StageBackdropTranslationY => {
                    reveal_strlit("stage.backdrop.translation.y");
                    assert("stage.backdrop.translation.z"@[27] != "stage.backdrop.translation.y"@[27]);
                },
                EffectTunerSceneParameter::LightingDirectionalColorR => {
                    reveal_strlit("lighting.directional.color.r");
                    assert("stage.backdrop.translation.z"@[0] != "lighting.directional.color.r"@[0]);
                },
                EffectTunerSceneParameter::LightingDirectionalColorG => {
                    reveal_strlit("lighting.directional.color.g");
                    assert("stage.backdrop.translation.z"@[0] != "lighting.directional.color.g"@[0]);
                },
                EffectTunerSceneParameter::LightingDirectionalColorB => {
                    reveal_strlit("lighting.directional.color.b");
                    assert("stage.backdrop.translation.z"@[0] != "lighting.directional.color.b"@[0]);
                },
                EffectTunerSceneParameter::LightingPointTranslationX => {
                    reveal_strlit("lighting.point.translation.x");
                    assert("stage.backdrop.translation.z"@[0] != "lighting.point.translation.x"@[0]);
                },
                EffectTunerSceneParameter::LightingPointTranslationY => {
                    reveal_strlit("lighting.point.translation.y");
                    assert("stage.backdrop.translation.z"@[0] != "lighting.point.translation.y"@[0]);
                },
                EffectTunerSceneParameter::LightingPointTranslationZ => {
                    reveal_strlit("lighting.point.translation.z");
                    assert("stage.backdrop.translation.z"@[0] != "lighting.point.translation.z"@[0]);
                },
                _ => {},
            }
        },
        EffectTunerSceneParameter::StageBackdropRotationX => {
            reveal_strlit("stage.backdrop.rotation_degrees.x");
            match b {
                EffectTunerSceneParameter::MaterialLevelReflectanceShift => {
                    reveal_strlit("materials.level_reflectance_shift");
                    assert("stage.backdrop.rotation_degrees.x"@[0] != "materials.level_reflectance_shift"@[0]);
                },
                EffectTunerSceneParameter::StageBackdropRotationY => {
                    reveal_strlit("stage.backdrop.rotation_degrees.y");
                    assert("stage.backdrop.rotation_degrees.x"@[32] != "stage.backdrop.rotation_degrees.y"@[32]);
                },
                EffectTunerSceneParameter::StageBackdropRotationZ => {
                    reveal_strlit("stage.backdrop.rotation_degrees.z");
                    assert("stage.backdrop.rotation_degrees.x"@[32] != "stage.backdrop.rotation_degrees.z"@[32]);
                },
                _ => {},
            }
        },
        EffectTunerSceneParameter::StageBackdropRotationY => {
            reveal_strlit("stage.backdrop.rotation_degrees.y");
            match b {
                EffectTunerSceneParameter::MaterialLevelReflectanceShift => {
                    reveal_strlit("materials.level_reflectance_shift");
                    assert("stage.backdrop.rotation_degrees.y"@[0] != "materials.level_reflectance_shift"@[0]);
                },
                EffectTunerSceneParameter::StageBackdropRotationX => {
                    reveal_strlit("stage.backdrop.rotation_degrees.x");
                    assert("stage.backdrop.rotation_degrees.y"@[32] != "stage.backdrop.rotation_degrees.x"@[32]);
                },
                EffectTunerSceneParameter::StageBackdropRotationZ => {
                    reveal_strlit("stage.backdrop.rotation_degrees.z");
                    assert("stage.backdrop.rotation_degrees.y"@[32] != "stage.backdrop.rotation_degrees.z"@[32]);
                },
                _ => {},
            }
        },
        EffectTunerSceneParameter::StageBackdropRotationZ => {
            reveal_strlit("stage.backdrop.rotation_degrees.z");
            match b {
                EffectTunerSceneParameter::MaterialLevelReflectanceShift => {
                    reveal_strlit("materials.level_reflectance_shift");
                    assert("stage.backdrop.rotation_degrees.z"@[0] != "materials.level_reflectance_shift"@[0]);
                },
                EffectTunerSceneParameter::StageBackdropRotationX => {
                    reveal_strlit("stage.backdrop.rotation_degrees.x");
                    assert("stage.backdrop.rotation_degrees.z"@[32] != "stage.backdrop.rotation_degrees.x"@[32]);
                },
                EffectTunerSceneParameter::StageBackdropRotationY => {
                    reveal_strlit("stage.backdrop.rotation_degrees.y");
                    assert("stage.backdrop.rotation_degrees.z"@[32] != "stage.backdrop.rotation_degrees.y"@[32]);
                },
                _ => {},
            }
        },
        EffectTunerSceneParameter::StageBackdropSizeX => {
            reveal_strlit("stage.backdrop.size.x");
            match b {
                EffectTunerSceneParameter::ChildKind => {
                    reveal_strlit("generation.child_kind");
                    assert("stage.backdrop.size.x"@[0] != "generation.child_kind"@[0]);
                },
                EffectTunerSceneParameter::MaterialReflectance => {
                    reveal_strlit("materials.reflectance");
                    assert("stage.backdrop.size.x"@[0] != "materials.reflectance"@[0]);
                },
                EffectTunerSceneParameter::StageFloorThickness => {
                    reveal_strlit("stage.floor.thickness");
                    assert("stage.backdrop.size.x"@[6] != "stage.floor.thickness"@[6]);
                },
                EffectTunerSceneParameter::StageBackdropSizeY => {
                    reveal_strlit("stage.backdrop.size.y");
                    assert("stage.backdrop.size.x"@[20] != "stage.backdrop.size.y"@[20]);
                },
                EffectTunerSceneParameter::LightingAccentRange => {
                    reveal_strlit("lighting.accent.range");
                    assert("stage.backdrop.size.x"@[0] != "lighting.accent.range"@[0]);
                },
                _ => {},
            }
        },
        EffectTunerSceneParameter::StageBackdropSizeY => {
            reveal_strlit("stage.backdrop.size.y");
            match b {
                EffectTunerSceneParameter::ChildKind => {
                    reveal_strlit("generation.child_kind");
                    assert("stage.backdrop.size.y"@[0] != "generation.child_kind"@[0]);
                },
                EffectTunerSceneParameter::MaterialReflectance => {
                    reveal_strlit("materials.reflectance");
                    assert("stage.backdrop.size.y"@[0] != "materials.reflectance"@[0]);
                },
                EffectTunerSceneParameter::StageFloorThickness => {
                    reveal_strlit("stage.floor.thickness");
                    assert("stage.backdrop.size.y"@[6] != "stage.floor.thickness"@[6]);
                },
                EffectTunerSceneParameter::StageBackdropSizeX => {
                    reveal_strlit("stage.backdrop.size.x");
                    assert("stage.backdrop.size.y"@[20] != "stage.backdrop.size.x"@[20]);
                },
                EffectTunerSceneParameter::LightingAccentRange => {
                    reveal_strlit("lighting.accent.range");
                    assert("stage.backdrop.size.y"@[0] != "lighting.accent.range"@[0]);
                },
                _ => {},
            }
        },
        EffectTunerSceneParameter::StageBackdropThickness => {
            reveal_strlit("stage.backdrop.thickness");
            match b {
                EffectTunerSceneParameter::MaterialAccentSurface => {
                    reveal_strlit("materials.accent_surface");
                    assert("stage.backdrop.thickness"@[0] != "materials.accent_surface"@[0]);
                },
                EffectTunerSceneParameter::LightingPointIntensity => {
                    reveal_strlit("lighting.point.intensity");
                    assert("stage.backdrop.thickness"@[0] != "lighting.point.intensity"@[0]);
                },
                _ => {},
            }
        },
        EffectTunerSceneParameter::StageBackdropMetallic => {
            reveal_strlit("stage.backdrop.metallic");
            match b {
                EffectTunerSceneParameter::MaterialCubeHueBias => {
                    reveal_strlit("materials.cube_hue_bias");
                    assert("stage.backdrop.metallic"@[0] != "materials.cube_hue_bias"@[0]);
                },
                EffectTunerSceneParameter::RenderingClearColorR => {
                    reveal_strlit("rendering.clear_color.r");
                    assert("stage.backdrop.metallic"@[0] != "rendering.clear_color.r"@[0]);
                },
                EffectTunerSceneParameter::RenderingClearColorG => {
                    reveal_strlit("rendering.clear_color.g");
                    assert("stage.backdrop.metallic"@[0] != "rendering.clear_color.g"@[0]);
                },
                EffectTunerSceneParameter::RenderingClearColorB => {
                    reveal_strlit("rendering.clear_color.b");
                    assert("stage.backdrop.metallic"@[0] != "rendering.clear_color.b"@[0]);
                },
                EffectTunerSceneParameter::StageFloorReflectance => {
                    reveal_strlit("stage.floor.reflectance");
                    assert("stage.backdrop.metallic"@[6] != "stage.floor.reflectance"@[6]);
                },
                EffectTunerSceneParameter::LightingAccentColorR => {
                    reveal_strlit("lighting.accent.color.r");
                    assert("stage.backdrop.metallic"@[0] != "lighting.accent.color.r"@[0]);
                },
                EffectTunerSceneParameter::LightingAccentColorG => {
                    reveal_strlit("lighting.accent.color.g");
                    assert("stage.backdrop.metallic"@[0] != "lighting.accent.color.g"@[0]);
                },
                EffectTunerSceneParameter::LightingAccentColorB => {
                    reveal_strlit("lighting.accent.color.b");
                    assert("stage.backdrop.metallic"@[0] != "lighting.accent.color.b"@[0]);
                },
                _ => {},
            }
        },
        EffectTunerSceneParameter::StageBackdropPerceptualRoughness => {},
        EffectTunerSceneParameter::StageBackdropReflectance => {},
        EffectTunerSceneParameter::LightingDirectionalColorR => {
            reveal_strlit("lighting.directional.color.r");
            match b {
                EffectTunerSceneParameter::ChildScaleRatio => {
                    reveal_strlit("generation.child_scale_ratio");
                    assert("lighting.directional.color.r"@[0] != "generation.child_scale_ratio"@[0]);
                },
                EffectTunerSceneParameter::MaterialHueStepPerLevel => {
                    reveal_strlit("materials.hue_step_per_level");
                    assert("lighting.directional.color.r"@[0] != "materials.hue_step_per_level"@[0]);
                },
                EffectTunerSceneParameter::StageBackdropTranslationX => {
                    reveal_strlit("stage.backdrop.translation.x");
                    assert("lighting.directional.color.r"@[0] != "stage.backdrop.translation.x"@[0]);
                },
                EffectTunerSceneParameter::StageBackdropTranslationY => {
                    reveal_strlit("stage.backdrop.translation.y");
                    assert("lighting.directional.color.r"@[0] != "stage.backdrop.translation.y"@[0]);
                },
                EffectTunerSceneParameter::StageBackdropTranslationZ => {
                    reveal_strlit("stage.backdrop.translation.z");
                    assert("lighting.directional.color.r"@[0] != "stage.backdrop.translation.z"@[0]);
                },
                EffectTunerSceneParameter::LightingDirectionalColorG => {
                    reveal_strlit("lighting.directional.color.g");
                    assert("lighting.directional.color.r"@[27] != "lighting.directional.color.g"@[27]);
                },
                EffectTunerSceneParameter::LightingDirectionalColorB => {
                    reveal_strlit("lighting.directional.color.b");
                    assert("lighting.directional.color.r"@[27] != "lighting.directional.color.b"@[27]);
                },
                EffectTunerSceneParameter::LightingPointTranslationX => {
                    reveal_strlit("lighting.point.translation.x");
                    assert("lighting.directional.color.r"@[9] != "lighting.point.translation.x"@[9]);
                },
                EffectTunerSceneParameter::LightingPointTranslationY => {
                    reveal_strlit("lighting.point.translation.y");
                    assert("lighting.directional.color.r"@[9] != "lighting.point.translation.y"@[9]);
                },
                EffectTunerSceneParameter::LightingPointTranslationZ => {
                    reveal_strlit("lighting.point.translation.z");
                    assert("lighting.directional.color.r"@[9] != "lighting.point.translation.z"@[9]);
                },
                _ => {},
            }
        },
        EffectTunerSceneParameter::LightingDirectionalColorG => {
            reveal_strlit("lighting.directional.color.g");
            match b {
                EffectTunerSceneParameter::ChildScaleRatio => {
                    reveal_strlit("generation.child_scale_ratio");
                    assert("lighting.directional.color.g"@[0] != "generation.child_scale_ratio"@[0]);
                },
                EffectTunerSceneParameter::MaterialHueStepPerLevel => {
                    reveal_strlit("materials.hue_step_per_level");
                    assert("lighting.directional.color.g"@[0] != "materials.hue_step_per_level"@[0]);
                },
                EffectTunerSceneParameter::StageBackdropTranslationX => {
                    reveal_strlit("stage.backdrop.translation.x");
                    assert("lighting.directional.color.g"@[0] != "stage.backdrop.translation.x"@[0]);
                },
                EffectTunerSceneParameter::StageBackdropTranslationY => {
                    reveal_strlit("stage.backdrop.translation.y");
                    assert("lighting.directional.color.g"@[0] != "stage.backdrop.translation.y"@[0]);
                },
                EffectTunerSceneParameter::StageBackdropTranslationZ => {
                    reveal_strlit("stage.backdrop.translation.z");
                    assert("lighting.directional.color.g"@[0] != "stage.backdrop.translation.z"@[0]);
                },
                EffectTunerSceneParameter::LightingDirectionalColorR => {
                    reveal_strlit("lighting.directional.color.r");
                    assert("lighting.directional.color.g"@[27] != "lighting.directional.color.r"@[27]);
                },
                EffectTunerSceneParameter::LightingDirectionalColorB => {
                    reveal_strlit("lighting.directional.color.b");
                    assert("lighting.directional.color.g"@[27] != "lighting.directional.color.b"@[27]);
                },
                EffectTunerSceneParameter::LightingPointTranslationX => {
                    reveal_strlit("lighting.point.translation.x");
                    assert("lighting.directional.color.g"@[9] != "lighting.point.translation.x"@[9]);
                },
                EffectTunerSceneParameter::LightingPointTranslationY => {
                    reveal_strlit("lighting.point.translation.y");
                    assert("lighting.directional.color.g"@[9] != "lighting.point.translation.y"@[9]);
                },
                EffectTunerSceneParameter::LightingPointTranslationZ => {
                    reveal_strlit("lighting.point.translation.z");
                    assert("lighting.directional.color.g"@[9] != "lighting.point.translation.z"@[9]);
                },
                _ => {},
            }
        },
        EffectTunerSceneParameter::LightingDirectionalColorB => {
            reveal_strlit("lighting.directional.color.b");
            match b {
                EffectTunerSceneParameter::ChildScaleRatio => {
                    reveal_strlit("generation.child_scale_ratio");
                    assert("lighting.directional.color.b"@[0] != "generation.child_scale_ratio"@[0]);
                },
                EffectTunerSceneParameter::MaterialHueStepPerLevel => {
                    reveal_strlit("materials.hue_step_per_level");
                    assert("lighting.directional.color.b"@[0] != "materials.hue_step_per_level"@[0]);
                },
                EffectTunerSceneParameter::StageBackdropTranslationX => {
                    reveal_strlit("stage.backdrop.translation.x");
                    assert("lighting.directional.color.b"@[0] != "stage.backdrop.translation.x"@[0]);
                },
                EffectTunerSceneParameter::StageBackdropTranslationY => {
                    reveal_strlit("stage.backdrop.translation.y");
                    assert("lighting.directional.color.b"@[0] != "stage.backdrop.translation.y"@[0]);
                },
                EffectTunerSceneParameter::StageBackdropTranslationZ => {
                    reveal_strlit("stage.backdrop.translation.z");
                    assert("lighting.directional.color.b"@[0] != "stage.backdrop.translation.z"@[0]);
                },
                EffectTunerSceneParameter::LightingDirectionalColorR => {
                    reveal_strlit("lighting.directional.color.r");
                    assert("lighting.directional.color.b"@[27] != "lighting.directional.color.r"@[27]);
                },
                EffectTunerSceneParameter::LightingDirectionalColorG => {
                    reveal_strlit("lighting.directional.color.g");
                    assert("lighting.directional.color.b"@[27] != "lighting.directional.color.g"@[27]);
                },
                EffectTunerSceneParameter::LightingPointTranslationX => {
                    reveal_strlit("lighting.point.translation.x");
                    assert("lighting.directional.color.b"@[9] != "lighting.point.translation.x"@[9]);
                },
                EffectTunerSceneParameter::LightingPointTranslationY => {
                    reveal_strlit("lighting.point.translation.y");
                    assert("lighting.directional.color.b"@[9] != "lighting.point.translation.y"@[9]);
                },
                EffectTunerSceneParameter::LightingPointTranslationZ => {
                    reveal_strlit("lighting.point.translation.z");
                    assert("lighting.directional.color.b"@[9] != "lighting.point.translation.z"@[9]);
                },
                _ => {},
            }
        },
        EffectTunerSceneParameter::LightingDirectionalIlluminance => {
            reveal_strlit("lighting.directional.illuminance");
            match b {
                EffectTunerSceneParameter::MaterialLevelSaturationShift => {
                    reveal_strlit("materials.level_saturation_shift");
                    assert("lighting.directional.illuminance"@[0] != "materials.level_saturation_shift"@[0]);
                },
                EffectTunerSceneParameter::StageFloorPerceptualRoughness => {
                    reveal_strlit("stage.floor.perceptual_roughness");
                    assert("lighting.directional.illuminance"@[0] != "stage.floor.perceptual_roughness"@[0]);
                },
                _ => {},
            }
        },
        EffectTunerSceneParameter::LightingDirectionalTranslationX => {
            reveal_strlit("lighting.directional.translation.x");
            match b {
                EffectTunerSceneParameter::RenderingAmbientBrightness => {
                    reveal_strlit("rendering.ambient_light_brightness");
                    assert("lighting.directional.translation.x"@[0] != "rendering.ambient_light_brightness"@[0]);
                },
                EffectTunerSceneParameter::LightingDirectionalTranslationY => {
                    reveal_strlit("lighting.directional.translation.y");
                    assert("lighting.directional.translation.x"@[33] != "lighting.directional.translation.y"@[33]);
                },
                EffectTunerSceneParameter::LightingDirectionalTranslationZ => {
                    reveal_strlit("lighting.directional.translation.z");
                    assert("lighting.directional.translation.x"@[33] != "lighting.directional.translation.z"@[33]);
                },
                _ => {},
            }
        },
        EffectTunerSceneParameter::LightingDirectionalTranslationY => {
            reveal_strlit("lighting.directional.translation.y");
            match b {
                EffectTunerSceneParameter::RenderingAmbientBrightness => {
                    reveal_strlit("rendering.ambient_light_brightness");
                    assert("lighting.directional.translation.y"@[0] != "rendering.ambient_light_brightness"@[0]);
                },
                EffectTunerSceneParameter::LightingDirectionalTranslationX => {
                    reveal_strlit("lighting.directional.translation.x");
                    assert("lighting.directional.translation.y"@[33] != "lighting.directional.translation.x"@[33]);
                },
                EffectTunerSceneParameter::LightingDirectionalTranslationZ => {
                    reveal_strlit("lighting.directional.translation.z");
                    assert("lighting.directional.translation.y"@[33] != "lighting.directional.translation.z"@[33]);
                },
                _ => {},
            }
        },
        EffectTunerSceneParameter::LightingDirectionalTranslationZ => {
            reveal_strlit("lighting.directional.translation.z");
            match b {
                EffectTunerSceneParameter::RenderingAmbientBrightness => {
                    reveal_strlit("rendering.ambient_light_brightness");
                    assert("lighting.directional.translation.z"@[0] != "rendering.ambient_light_brightness"@[0]);
                },
                EffectTunerSceneParameter::LightingDirectionalTranslationX => {
                    reveal_strlit("lighting.directional.translation.x");
                    assert("lighting.directional.translation.z"@[33] != "lighting.directional.translation.x"@[33]);
                },
                EffectTunerSceneParameter::LightingDirectionalTranslationY => {
                    reveal_strlit("lighting.directional.translation.y");
                    assert("lighting.directional.translation.z"@[33] != "lighting.directional.translation.y"@[33]);
                },
                _ => {},
            }
        },
        EffectTunerSceneParameter::LightingDirectionalLookAtX => {
            reveal_strlit("lighting.directional.look_at.x");
            match b {
                EffectTunerSceneParameter::MaterialPerceptualRoughness => {
                    reveal_strlit("materials.perceptual_roughness");
                    assert("lighting.directional.look_at.x"@[0] != "materials.perceptual_roughness"@[0]);
                },
                EffectTunerSceneParameter::MaterialTetrahedronHueBias => {
                    reveal_strlit("materials.tetrahedron_hue_bias");
                    assert("lighting.directional.look_at.x"@[0] != "materials.tetrahedron_hue_bias"@[0]);
                },
                EffectTunerSceneParameter::MaterialLevelMetallicShift => {
                    reveal_strlit("materials.level_metallic_shift");
                    assert("lighting.directional.look_at.x"@[0] != "materials.level_metallic_shift"@[0]);
                },
                EffectTunerSceneParameter::StageFloorRotationX => {
                    reveal_strlit("stage.floor.rotation_degrees.x");
                    assert("lighting.directional.look_at.x"@[0] != "stage.floor.rotation_degrees.x"@[0]);
                },
                EffectTunerSceneParameter::StageFloorRotationY => {
                    reveal_strlit("stage.floor.rotation_degrees.y");
                    assert("lighting.directional.look_at.x"@[0] != "stage.floor.rotation_degrees.y"@[0]);
                },
                EffectTunerSceneParameter::StageFloorRotationZ => {
                    reveal_strlit("stage.floor.rotation_degrees.z");
                    assert("lighting.directional.look_at.x"@[0] != "stage.floor.rotation_degrees.z"@[0]);
                },
                EffectTunerSceneParameter::LightingDirectionalLookAtY => {
                    reveal_strlit("lighting.directional.look_at.y");
                    assert("lighting.directional.look_at.x"@[29] != "lighting.directional.look_at.y"@[29]);
                },
                EffectTunerSceneParameter::LightingDirectionalLookAtZ => {
                    reveal_strlit("lighting.directional.look_at.z");
                    assert("lighting.directional.look_at.x"@[29] != "lighting.directional.look_at.z"@[29]);
                },
                _ => {},
            }
        },
        EffectTunerSceneParameter::LightingDirectionalLookAtY => {
            reveal_strlit("lighting.directional.look_at.y");
            match b {
                EffectTunerSceneParameter::MaterialPerceptualRoughness => {
                    reveal_strlit("materials.perceptual_roughness");
                    assert("lighting.directional.look_at.y"@[0] != "materials.perceptual_roughness"@[0]);
                },
                EffectTunerSceneParameter::MaterialTetrahedronHueBias => {
                    reveal_strlit("materials.tetrahedron_hue_bias");
                    assert("lighting.directional.look_at.y"@[0] != "materials.tetrahedron_hue_bias"@[0]);
                },
                EffectTunerSceneParameter::MaterialLevelMetallicShift => {
                    reveal_strlit("materials.level_metallic_shift");
                    assert("lighting.directional.look_at.y"@[0] != "materials.level_metallic_shift"@[0]);
                },
                EffectTunerSceneParameter::StageFloorRotationX => {
                    reveal_strlit("stage.floor.rotation_degrees.x");
                    assert("lighting.directional.look_at.y"@[0] != "stage.floor.rotation_degrees.x"@[0]);
                },
                EffectTunerSceneParameter::StageFloorRotationY => {
                    reveal_strlit("stage.floor.rotation_degrees.y");
                    assert("lighting.directional.look_at.y"@[0] != "stage.floor.rotation_degrees.y"@[0]);
                },
                EffectTunerSceneParameter::StageFloorRotationZ => {
                    reveal_strlit("stage.floor.rotation_degrees.z");
                    assert("lighting.directional.look_at.y"@[0] != "stage.floor.rotation_degrees.z"@[0]);
                },
                EffectTunerSceneParameter::LightingDirectionalLookAtX => {
                    reveal_strlit("lighting.directional.look_at.x");
                    assert("lighting.directional.look_at.y"@[29] != "lighting.directional.look_at.x"@[29]);
                },
                EffectTunerSceneParameter::LightingDirectionalLookAtZ => {
                    reveal_strlit("lighting.directional.look_at.z");
                    assert("lighting.directional.look_at.y"@[29] != "lighting.directional.look_at.z"@[29]);
                },
                _ => {},
            }
        },
        EffectTunerSceneParameter::LightingDirectionalLookAtZ => {
            reveal_strlit("lighting.directional.look_at.z");
            match b {
                EffectTunerSceneParameter::MaterialPerceptualRoughness => {
                    reveal_strlit("materials.perceptual_roughness");
                    assert("lighting.directional.look_at.z"@[0] != "materials.perceptual_roughness"@[0]);
                },
                EffectTunerSceneParameter::MaterialTetrahedronHueBias => {
                    reveal_strlit("materials.tetrahedron_hue_bias");
                    assert("lighting.directional.look_at.z"@[0] != "materials.tetrahedron_hue_bias"@[0]);
                },
                EffectTunerSceneParameter::MaterialLevelMetallicShift => {
                    reveal_strlit("materials.level_metallic_shift");
                    assert("lighting.directional.look_at.z"@[0] != "materials.level_metallic_shift"@[0]);
                },
                EffectTunerSceneParameter::StageFloorRotationX => {
                    reveal_strlit("stage.floor.rotation_degrees.x");
                    assert("lighting.directional.look_at.z"@[0] != "stage.floor.rotation_degrees.x"@[0]);
                },
                EffectTunerSceneParameter::StageFloorRotationY => {
                    reveal_strlit("stage.floor.rotation_degrees.y");
                    assert("lighting.directional.look_at.z"@[0] != "stage.floor.rotation_degrees.y"@[0]);
                },
                EffectTunerSceneParameter::StageFloorRotationZ => {
                    reveal_strlit("stage.floor.rotation_degrees.z");
                    assert("lighting.directional.look_at.z"@[0] != "stage.floor.rotation_degrees.z"@[0]);
                },
                EffectTunerSceneParameter::LightingDirectionalLookAtX => {
                    reveal_strlit("lighting.directional.look_at.x");
                    assert("lighting.directional.look_at.z"@[29] != "lighting.directional.look_at.x"@[29]);
                },
                EffectTunerSceneParameter::LightingDirectionalLookAtY => {
                    reveal_strlit("lighting.directional.look_at.y");
                    assert("lighting.directional.look_at.z"@[29] != "lighting.directional.look_at.y"@[29]);
                },
                _ => {},
            }
        },
        EffectTunerSceneParameter::LightingPointColorR => {
            reveal_strlit("lighting.point.color.r");
            match b {
                EffectTunerSceneParameter::StageBackdropEnabled => {
                    reveal_strlit("stage.backdrop.enabled");
                    assert("lighting.point.color.r"@[0] != "stage.backdrop.enabled"@[0]);
                },
                EffectTunerSceneParameter::MaterialSurfaceMode => {
                    reveal_strlit("materials.surface_mode");
                    assert("lighting.point.color.r"@[0] != "materials.surface_mode"@[0]);
                },
                EffectTunerSceneParameter::MaterialBaseSurface => {
                    reveal_strlit("materials.base_surface");
                    assert("lighting.point.color.r"@[0] != "materials.base_surface"@[0]);
                },
                EffectTunerSceneParameter::MaterialRootSurface => {
                    reveal_strlit("materials.root_surface");
                    assert("lighting.point.color.r"@[0] != "materials.root_surface"@[0]);
                },
                EffectTunerSceneParameter::StageBackdropColorR => {
                    reveal_strlit("stage.backdrop.color.r");
                    assert("lighting.point.color.r"@[0] != "stage.backdrop.color.r"@[0]);
                },
                EffectTunerSceneParameter::StageBackdropColorG => {
                    reveal_strlit("stage.backdrop.color.g");
                    assert("lighting.point.color.r"@[0] != "stage.backdrop.color.g"@[0]);
                },
                EffectTunerSceneParameter::StageBackdropColorB => {
                    reveal_strlit("stage.backdrop.color.b");
                    assert("lighting.point.color.r"@[0] != "stage.backdrop.color.b"@[0]);
                },
                EffectTunerSceneParameter::LightingPointColorG => {
                    reveal_strlit("lighting.point.color.g");
                    assert("lighting.point.color.r"@[21] != "lighting.point.color.g"@[21]);
                },
                EffectTunerSceneParameter::LightingPointColorB => {
                    reveal_strlit("lighting.point.color.b");
                    assert("lighting.point.color.r"@[21] != "lighting.point.color.b"@[21]);
                },
                _ => {},
            }
        },
        EffectTunerSceneParameter::LightingPointColorG => {
            reveal_strlit("lighting.point.color.g");
            match b {
                EffectTunerSceneParameter::StageBackdropEnabled => {
                    reveal_strlit("stage.backdrop.enabled");
                    assert("lighting.point.color.g"@[0] != "stage.backdrop.enabled"@[0]);
                },
                EffectTunerSceneParameter::MaterialSurfaceMode => {
                    reveal_strlit("materials.surface_mode");
                    assert("lighting.point.color.g"@[0] != "materials.surface_mode"@[0]);
                },
                EffectTunerSceneParameter::MaterialBaseSurface => {
                    reveal_strlit("materials.base_surface");
                    assert("lighting.point.color.g"@[0] != "materials.base_surface"@[0]);
                },
                EffectTunerSceneParameter::MaterialRootSurface => {
                    reveal_strlit("materials.root_surface");
                    assert("lighting.point.color.g"@[0] != "materials.root_surface"@[0]);
                },
                EffectTunerSceneParameter::StageBackdropColorR => {
                    reveal_strlit("stage.backdrop.color.r");
                    assert("lighting.point.color.g"@[0] != "stage.backdrop.color.r"@[0]);
                },
                EffectTunerSceneParameter::StageBackdropColorG => {
                    reveal_strlit("stage.backdrop.color.g");
                    assert("lighting.point.color.g"@[0] != "stage.backdrop.color.g"@[0]);
                },
                EffectTunerSceneParameter::StageBackdropColorB => {
                    reveal_strlit("stage.backdrop.color.b");
                    assert("lighting.point.color.g"@[0] != "stage.backdrop.color.b"@[0]);
                },
                EffectTunerSceneParameter::LightingPointColorR => {
                    reveal_strlit("lighting.point.color.r");
                    assert("lighting.point.color.g"@[21] != "lighting.point.color.r"@[21]);
                },
                EffectTunerSceneParameter::LightingPointColorB => {
                    reveal_strlit("lighting.point.color.b");
                    assert("lighting.point.color.g"@[21] != "lighting.point.color.b"@[21]);
                },
                _ => {},
            }
        },
        EffectTunerSceneParameter::LightingPointColorB => {
            reveal_strlit("lighting.point.color.b");
            match b {
                EffectTunerSceneParameter::StageBackdropEnabled => {
                    reveal_strlit("stage.backdrop.enabled");
                    assert("lighting.point.color.b"@[0] != "stage.backdrop.enabled"@[0]);
                },
                EffectTunerSceneParameter::MaterialSurfaceMode => {
                    reveal_strlit("materials.surface_mode");
                    assert("lighting.point.color.b"@[0] != "materials.surface_mode"@[0]);
                },
                EffectTunerSceneParameter::MaterialBaseSurface => {
                    reveal_strlit("materials.base_surface");
                    assert("lighting.point.color.b"@[0] != "materials.base_surface"@[0]);
                },
                EffectTunerSceneParameter::MaterialRootSurface => {
                    reveal_strlit("materials.root_surface");
                    assert("lighting.point.color.b"@[0] != "materials.root_surface"@[0]);
                },
                EffectTunerSceneParameter::StageBackdropColorR => {
                    reveal_strlit("stage.backdrop.color.r");
                    assert("lighting.point.color.b"@[0] != "stage.backdrop.color.r"@[0]);
                },
                EffectTunerSceneParameter::StageBackdropColorG => {
                    reveal_strlit("stage.backdrop.color.g");
                    assert("lighting.point.color.b"@[0] != "stage.backdrop.color.g"@[0]);
                },
                EffectTunerSceneParameter::StageBackdropColorB => {
                    reveal_strlit("stage.backdrop.color.b");
                    assert("lighting.point.color.b"@[0] != "stage.backdrop.color.b"@[0]);
                },
                EffectTunerSceneParameter::LightingPointColorR => {
                    reveal_strlit("lighting.point.color.r");
                    assert("lighting.point.color.b"@[21] != "lighting.point.color.r"@[21]);
                },
                EffectTunerSceneParameter::LightingPointColorG => {
                    reveal_strlit("lighting.point.color.g");
                    assert("lighting.point.color.b"@[21] != "lighting.point.color.g"@[21]);
                },
                _ => {},
            }
        },
        EffectTunerSceneParameter::LightingPointIntensity => {
            reveal_strlit("lighting.point.intensity");
            match b {
                EffectTunerSceneParameter::MaterialAccentSurface => {
                    reveal_strlit("materials.accent_surface");
                    assert("lighting.point.intensity"@[0] != "materials.accent_surface"@[0]);
                },
                EffectTunerSceneParameter::StageBackdropThickness => {
                    reveal_strlit("stage.backdrop.thickness");
                    assert("lighting.point.intensity"@[0] != "stage.backdrop.thickness"@[0]);
                },
                _ => {},
            }
        },
        EffectTunerSceneParameter::LightingPointRange => {
            reveal_strlit("lighting.point.range");
            match b {
                EffectTunerSceneParameter::MaterialSaturation => {
                    reveal_strlit("materials.saturation");
                    assert("lighting.point.range"@[0] != "materials.saturation"@[0]);
                },
                EffectTunerSceneParameter::CameraZoomVelocity => {
                    reveal_strlit("camera.zoom_velocity");
                    assert("lighting.point.range"@[0] != "camera.zoom_velocity"@[0]);
                },
                EffectTunerSceneParameter::StageFloorMetallic => {
                    reveal_strlit("stage.floor.metallic");
                    assert("lighting.point.range"@[0] != "stage.floor.metallic"@[0]);
                },
                _ => {},
            }
        },
        EffectTunerSceneParameter::LightingPointTranslationX => {
            reveal_strlit("lighting.point.translation.x");
            match b {
                EffectTunerSceneParameter::ChildScaleRatio => {
                    reveal_strlit("generation.child_scale_ratio");
                    assert("lighting.point.translation.x"@[0] != "generation.child_scale_ratio"@[0]);
                },
                EffectTunerSceneParameter::MaterialHueStepPerLevel => {
                    reveal_strlit("materials.hue_step_per_level");
                    assert("lighting.point.translation.x"@[0] != "materials.hue_step_per_level"@[0]);
                },
                EffectTunerSceneParameter::StageBackdropTranslationX => {
                    reveal_strlit("stage.backdrop.translation.x");
                    assert("lighting.point.translation.x"@[0] != "stage.backdrop.translation.x"@[0]);
                },
                EffectTunerSceneParameter::StageBackdropTranslationY => {
                    reveal_strlit("stage.backdrop.translation.y");
                    assert("lighting.point.translation.x"@[0] != "stage.backdrop.translation.y"@[0]);
                },
                EffectTunerSceneParameter::StageBackdropTranslationZ => {
                    reveal_strlit("stage.backdrop.translation.z");
                    assert("lighting.point.translation.x"@[0] != "stage.backdrop.translation.z"@[0]);
                },
                EffectTunerSceneParameter::LightingDirectionalColorR => {
                    reveal_strlit("lighting.directional.color.r");
                    assert("lighting.point.translation.x"@[9] != "lighting.directional.color.r"@[9]);
                },
                EffectTunerSceneParameter::LightingDirectionalColorG => {
                    reveal_strlit("lighting.directional.color.g");
                    assert("lighting.point.translation.x"@[9] != "lighting.directional.color.g"@[9]);
                },
                EffectTunerSceneParameter::LightingDirectionalColorB => {
                    reveal_strlit("lighting.directional.color.b");
                    assert("lighting.point.translation.x"@[9] != "lighting.directional.color.b"@[9]);
                },
                EffectTunerSceneParameter::LightingPointTranslationY => {
                    reveal_strlit("lighting.point.translation.y");
                    assert("lighting.point.translation.x"@[27] != "lighting.point.translation.y"@[27]);
                },
                EffectTunerSceneParameter::LightingPointTranslationZ => {
                    reveal_strlit("lighting.point.translation.z");
                    assert("lighting.point.translation.x"@[27] != "lighting.point.translation.z"@[27]);
                },
                _ => {},
            }
        },
        EffectTunerSceneParameter::LightingPointTranslationY => {
            reveal_strlit("lighting.point.translation.y");
            match b {
                EffectTunerSceneParameter::ChildScaleRatio => {
                    reveal_strlit("generation.child_scale_ratio");
                    assert("lighting.point.translation.y"@[0] != "generation.child_scale_ratio"@[0]);
                },
                EffectTunerSceneParameter::MaterialHueStepPerLevel => {
                    reveal_strlit("materials.hue_step_per_level");
                    assert("lighting.point.translation.y"@[0] != "materials.hue_step_per_level"@[0]);
                },
                EffectTunerSceneParameter::StageBackdropTranslationX => {
                    reveal_strlit("stage.backdrop.translation.x");
                    assert("lighting.point.translation.y"@[0] != "stage.backdrop.translation.x"@[0]);
                },
                EffectTunerSceneParameter::StageBackdropTranslationY => {
                    reveal_strlit("stage.backdrop.translation.y");
                    assert("lighting.point.translation.y"@[0] != "stage.backdrop.translation.y"@[0]);
                },
                EffectTunerSceneParameter::StageBackdropTranslationZ => {
                    reveal_strlit("stage.backdrop.translation.z");
                    assert("lighting.point.translation.y"@[0] != "stage.backdrop.translation.z"@[0]);
                },
                EffectTunerSceneParameter::LightingDirectionalColorR => {
                    reveal_strlit("lighting.directional.color.r");
                    assert("lighting.point.translation.y"@[9] != "lighting.directional.color.r"@[9]);
                },
                EffectTunerSceneParameter::LightingDirectionalColorG => {
                    reveal_strlit("lighting.directional.color.g");
                    assert("lighting.point.translation.y"@[9] != "lighting.directional.color.g"@[9]);
                },
                EffectTunerSceneParameter::LightingDirectionalColorB => {
                    reveal_strlit("lighting.directional.color.b");
                    assert("lighting.point.translation.y"@[9] != "lighting.directional.color.b"@[9]);
                },
                EffectTunerSceneParameter::LightingPointTranslationX => {
                    reveal_strlit("lighting.point.translation.x");
                    assert("lighting.point.translation.y"@[27] != "lighting.point.translation.x"@[27]);
                },
                EffectTunerSceneParameter::LightingPointTranslationZ => {
                    reveal_strlit("lighting.point.translation.z");
                    assert("lighting.point.translation.y"@[27] != "lighting.point.translation.z"@[27]);
                },
                _ => {},
            }
        },
        EffectTunerSceneParameter::LightingPointTranslationZ => {
            reveal_strlit("lighting.point.translation.z");
            match b {
                EffectTunerSceneParameter::ChildScaleRatio => {
                    reveal_strlit("generation.child_scale_ratio");
                    assert("lighting.point.translation.z"@[0] != "generation.child_scale_ratio"@[0]);
                },
                EffectTunerSceneParameter::MaterialHueStepPerLevel => {
                    reveal_strlit("materials.hue_step_per_level");
                    assert("lighting.point.translation.z"@[0] != "materials.hue_step_per_level"@[0]);
                },
                EffectTunerSceneParameter::StageBackdropTranslationX => {
                    reveal_strlit("stage.backdrop.translation.x");
                    assert("lighting.point.translation.z"@[0] != "stage.backdrop.translation.x"@[0]);
                },
                EffectTunerSceneParameter::StageBackdropTranslationY => {
                    reveal_strlit("stage.backdrop.translation.y");
                    assert("lighting.point.translation.z"@[0] != "stage.backdrop.translation.y"@[0]);
                },
                EffectTunerSceneParameter::StageBackdropTranslationZ => {
                    reveal_strlit("stage.backdrop.translation.z");
                    assert("lighting.point.translation.z"@[0] != "stage.backdrop.translation.z"@[0]);
                },
                EffectTunerSceneParameter::LightingDirectionalColorR => {
                    reveal_strlit("lighting.directional.color.r");
                    assert("lighting.point.translation.z"@[9] != "lighting.directional.color.r"@[9]);
                },
                EffectTunerSceneParameter::LightingDirectionalColorG => {
                    reveal_strlit("lighting.directional.color.g");
                    assert("lighting.point.translation.z"@[9] != "lighting.directional.color.g"@[9]);
                },
                EffectTunerSceneParameter::LightingDirectionalColorB => {
                    reveal_strlit("lighting.directional.color.b");
                    assert("lighting.point.translation.z"@[9] != "lighting.directional.color.b"@[9]);
                },
                EffectTunerSceneParameter::LightingPointTranslationX => {
                    reveal_strlit("lighting.point.translation.x");
                    assert("lighting.point.translation.z"@[27] != "lighting.point.translation.x"@[27]);
                },
                EffectTunerSceneParameter::LightingPointTranslationY => {
                    reveal_strlit("lighting.point.translation.y");
                    assert("lighting.point.translation.z"@[27] != "lighting.point.translation.y"@[27]);
                },
                _ => {},
            }
        },
        EffectTunerSceneParameter::LightingAccentColorR => {
            reveal_strlit("lighting.accent.color.r");
            match b {
                EffectTunerSceneParameter::MaterialCubeHueBias => {
                    reveal_strlit("materials.cube_hue_bias");
                    assert("lighting.accent.color.r"@[0] != "materials.cube_hue_bias"@[0]);
                },
                EffectTunerSceneParameter::RenderingClearColorR => {
                    reveal_strlit("rendering.clear_color.r");
                    assert("lighting.accent.color.r"@[0] != "rendering.clear_color.r"@[0]);
                },
                EffectTunerSceneParameter::RenderingClearColorG => {
                    reveal_strlit("rendering.clear_color.g");
                    assert("lighting.accent.color.r"@[0] != "rendering.clear_color.g"@[0]);
                },
                EffectTunerSceneParameter::RenderingClearColorB => {
                    reveal_strlit("rendering.clear_color.b");
                    assert("lighting.accent.color.r"@[0] != "rendering.clear_color.b"@[0]);
                },
                EffectTunerSceneParameter::StageFloorReflectance => {
                    reveal_strlit("stage.floor.reflectance");
                    assert("lighting.accent.color.r"@[0] != "stage.floor.reflectance"@[0]);
                },
                EffectTunerSceneParameter::StageBackdropMetallic => {
                    reveal_strlit("stage.backdrop.metallic");
                    assert("lighting.accent.color.r"@[0] != "stage.backdrop.metallic"@[0]);
                },
                EffectTunerSceneParameter::LightingAccentColorG => {
                    reveal_strlit("lighting.accent.color.g");
                    assert("lighting.accent.color.r"@[22] != "lighting.accent.color.g"@[22]);
                },
                EffectTunerSceneParameter::LightingAccentColorB => {
                    reveal_strlit("lighting.accent.color.b");
                    assert("lighting.accent.color.r"@[22] != "lighting.accent.color.b"@[22]);
                },
                _ => {},
            }
        },
        EffectTunerSceneParameter::LightingAccentColorG => {
            reveal_strlit("lighting.accent.color.g");
            match b {
                EffectTunerSceneParameter::MaterialCubeHueBias => {
                    reveal_strlit("materials.cube_hue_bias");
                    assert("lighting.accent.color.g"@[0] != "materials.cube_hue_bias"@[0]);
                },
                EffectTunerSceneParameter::RenderingClearColorR => {
                    reveal_strlit("rendering.clear_color.r");
                    assert("lighting.accent.color.g"@[0] != "rendering.clear_color.r"@[0]);
                },
                EffectTunerSceneParameter::RenderingClearColorG => {
                    reveal_strlit("rendering.clear_color.g");
                    assert("lighting.accent.color.g"@[0] != "rendering.clear_color.g"@[0]);
                },
                EffectTunerSceneParameter::RenderingClearColorB => {
                    reveal_strlit("rendering.clear_color.b");
                    assert("lighting.accent.color.g"@[0] != "rendering.clear_color.b"@[0]);
                },
                EffectTunerSceneParameter::StageFloorReflectance => {
                    reveal_strlit("stage.floor.reflectance");
                    assert("lighting.accent.color.g"@[0] != "stage.floor.reflectance"@[0]);
                },
                EffectTunerSceneParameter::StageBackdropMetallic => {
                    reveal_strlit("stage.backdrop.metallic");
                    assert("lighting.accent.color.g"@[0] != "stage.backdrop.metallic"@[0]);
                },
                EffectTunerSceneParameter::LightingAccentColorR => {
                    reveal_strlit("lighting.accent.color.r");
                    assert("lighting.accent.color.g"@[22] != "lighting.accent.color.r"@[22]);
                },
                EffectTunerSceneParameter::LightingAccentColorB => {
                    reveal_strlit("lighting.accent.color.b");
                    assert("lighting.accent.color.g"@[22] != "lighting.accent.color.b"@[22]);
                },
                _ => {},
            }
        },
        EffectTunerSceneParameter::LightingAccentColorB => {
            reveal_strlit("lighting.accent.color.b");
            match b {
                EffectTunerSceneParameter::MaterialCubeHueBias => {
                    reveal_strlit("materials.cube_hue_bias");
                    assert("lighting.accent.color.b"@[0] != "materials.cube_hue_bias"@[0]);
                },
                EffectTunerSceneParameter::RenderingClearColorR => {
                    reveal_strlit("rendering.clear_color.r");
                    assert("lighting.accent.color.b"@[0] != "rendering.clear_color.r"@[0]);
                },
                EffectTunerSceneParameter::RenderingClearColorG => {
                    reveal_strlit("rendering.clear_color.g");
                    assert("lighting.accent.color.b"@[0] != "rendering.clear_color.g"@[0]);
                },
                EffectTunerSceneParameter::RenderingClearColorB => {
                    reveal_strlit("rendering.clear_color.b");
                    assert("lighting.accent.color.b"@[0] != "rendering.clear_color.b"@[0]);
                },
                EffectTunerSceneParameter::StageFloorReflectance => {
                    reveal_strlit("stage.floor.reflectance");
                    assert("lighting.accent.color.b"@[0] != "stage.floor.reflectance"@[0]);
                },
                EffectTunerSceneParameter::StageBackdropMetallic => {
                    reveal_strlit("stage.backdrop.metallic");
                    assert("lighting.accent.color.b"@[0] != "stage.backdrop.metallic"@[0]);
                },
                EffectTunerSceneParameter::LightingAccentColorR => {
                    reveal_strlit("lighting.accent.color.r");
                    assert("lighting.accent.color.b"@[22] != "lighting.accent.color.r"@[22]);
                },
                EffectTunerSceneParameter::LightingAccentColorG => {
                    reveal_strlit("lighting.accent.color.g");
                    assert("lighting.accent.color.b"@[22] != "lighting.accent.color.g"@[22]);
                },
                _ => {},
            }
        },
        EffectTunerSceneParameter::LightingAccentIntensity => {
            reveal_strlit("lighting.accent.intensity");
            match b {
                EffectTunerSceneParameter::SpawnAddMode => {
                    reveal_strlit("generation.spawn_add_mode");
                    assert("lighting.accent.intensity"@[0] != "generation.spawn_add_mode"@[0]);
                },
                EffectTunerSceneParameter::CameraAngularVelocityX => {
                    reveal_strlit("camera.angular_velocity.x");
                    assert("lighting.accent.intensity"@[0] != "camera.angular_velocity.x"@[0]);
                },
                EffectTunerSceneParameter::CameraAngularVelocityY => {
                    reveal_strlit("camera.angular_velocity.y");
                    assert("lighting.accent.intensity"@[0] != "camera.angular_velocity.y"@[0]);
                },
                EffectTunerSceneParameter::CameraAngularVelocityZ => {
                    reveal_strlit("camera.angular_velocity.z");
                    assert("lighting.accent.intensity"@[0] != "camera.angular_velocity.z"@[0]);
                },
                EffectTunerSceneParameter::StageFloorTranslationX => {
                    reveal_strlit("stage.floor.translation.x");
                    assert("lighting.accent.intensity"@[0] != "stage.floor.translation.x"@[0]);
                },
                EffectTunerSceneParameter::StageFloorTranslationY => {
                    reveal_strlit("stage.floor.translation.y");
                    assert("lighting.accent.intensity"@[0] != "stage.floor.translation.y"@[0]);
                },
                EffectTunerSceneParameter::StageFloorTranslationZ => {
                    reveal_strlit("stage.floor.translation.z");
                    assert("lighting.accent.intensity"@[0] != "stage.floor.translation.z"@[0]);
                },
                _ => {},
            }
        },
        EffectTunerSceneParameter::LightingAccentRange => {
            reveal_strlit("lighting.accent.range");
            match b {
                EffectTunerSceneParameter::ChildKind => {
                    reveal_strlit("generation.child_kind");
                    assert("lighting.accent.range"@[0] != "generation.child_kind"@[0]);
                },
                EffectTunerSceneParameter::MaterialReflectance => {
                    reveal_strlit("materials.reflectance");
                    assert("lighting.accent.range"@[0] != "materials.reflectance"@[0]);
                },
                EffectTunerSceneParameter::StageFloorThickness => {
                    reveal_strlit("stage.floor.thickness");
                    assert("lighting.accent.range"@[0] != "stage.floor.thickness"@[0]);
                },
                EffectTunerSceneParameter::StageBackdropSizeX => {
                    reveal_strlit("stage.backdrop.size.x");
                    assert("lighting.accent.range"@[0] != "stage.backdrop.size.x"@[0]);
                },
                EffectTunerSceneParameter::StageBackdropSizeY => {
                    reveal_strlit("stage.backdrop.size.y");
                    assert("lighting.accent.range"@[0] != "stage.backdrop.size.y"@[0]);
                },
                _ => {},
            }
        },
        EffectTunerSceneParameter::LightingAccentTranslationX => {
            reveal_strlit("lighting.accent.translation.x");
            match b {
                EffectTunerSceneParameter::ChildAxisScaleX => {
                    reveal_strlit("generation.child_axis_scale.x");
                    assert("lighting.accent.translation.x"@[0] != "generation.child_axis_scale.x"@[0]);
                },
                EffectTunerSceneParameter::ChildAxisScaleY => {
                    reveal_strlit("generation.child_axis_scale.y");
                    assert("lighting.accent.translation.x"@[0] != "generation.child_axis_scale.y"@[0]);
                },
                EffectTunerSceneParameter::ChildAxisScaleZ => {
                    reveal_strlit("generation.child_axis_scale.z");
                    assert("lighting.accent.translation.x"@[0] != "generation.child_axis_scale.z"@[0]);
                },
                EffectTunerSceneParameter::MaterialOctahedronHueBias => {
                    reveal_strlit("materials.octahedron_hue_bias");
                    assert("lighting.accent.translation.x"@[0] != "materials.octahedron_hue_bias"@[0]);
                },
                EffectTunerSceneParameter::LightingAccentTranslationY => {
                    reveal_strlit("lighting.accent.translation.y");
                    assert("lighting.accent.translation.x"@[28] != "lighting.accent.translation.y"@[28]);
                },
                EffectTunerSceneParameter::LightingAccentTranslationZ => {
                    reveal_strlit("lighting.accent.translation.z");
                    assert("lighting.accent.translation.x"@[28] != "lighting.accent.translation.z"@[28]);
                },
                _ => {},
            }
        },
        EffectTunerSceneParameter::LightingAccentTranslationY => {
            reveal_strlit("lighting.accent.translation.y");
            match b {
                EffectTunerSceneParameter::ChildAxisScaleX => {
                    reveal_strlit("generation.child_axis_scale.x");
                    assert("lighting.accent.translation.y"@[0] != "generation.child_axis_scale.x"@[0]);
                },
                EffectTunerSceneParameter::ChildAxisScaleY => {
                    reveal_strlit("generation.child_axis_scale.y");
                    assert("lighting.accent.translation.y"@[0] != "generation.child_axis_scale.y"@[0]);
                },
                EffectTunerSceneParameter::ChildAxisScaleZ => {
                    reveal_strlit("generation.child_axis_scale.z");
                    assert("lighting.accent.translation.y"@[0] != "generation.child_axis_scale.z"@[0]);
                },
                EffectTunerSceneParameter::MaterialOctahedronHueBias => {
                    reveal_strlit("materials.octahedron_hue_bias");
                    assert("lighting.accent.translation.y"@[0] != "materials.octahedron_hue_bias"@[0]);
                },
                EffectTunerSceneParameter::LightingAccentTranslationX => {
                    reveal_strlit("lighting.accent.translation.x");
                    assert("lighting.accent.translation.y"@[28] != "lighting.accent.translation.x"@[28]);
                },
                EffectTunerSceneParameter::LightingAccentTranslationZ => {
                    reveal_strlit("lighting.accent.translation.z");
                    assert("lighting.accent.translation.y"@[28] != "lighting.accent.translation.z"@[28]);
                },
                _ => {},
            }
        },
        EffectTunerSceneParameter::LightingAccentTranslationZ => {
            reveal_strlit("lighting.accent.translation.z");
            match b {
                EffectTunerSceneParameter::ChildAxisScaleX => {
                    reveal_strlit("generation.child_axis_scale.x");
                    assert("lighting.accent.translation.z"@[0] != "generation.child_axis_scale.x"@[0]);
                },
                EffectTunerSceneParameter::ChildAxisScaleY => {
                    reveal_strlit("generation.child_axis_scale.y");
                    assert("lighting.accent.translation.z"@[0] != "generation.child_axis_scale.y"@[0]);
                },
                EffectTunerSceneParameter::ChildAxisScaleZ => {
                    reveal_strlit("generation.child_axis_scale.z");
                    assert("lighting.accent.translation.z"@[0] != "generation.child_axis_scale.z"@[0]);
                },
                EffectTunerSceneParameter::MaterialOctahedronHueBias => {
                    reveal_strlit("materials.octahedron_hue_bias");
                    assert("lighting.accent.translation.z"@[0] != "materials.octahedron_hue_bias"@[0]);
                },
                EffectTunerSceneParameter::LightingAccentTranslationX => {
                    reveal_strlit("lighting.accent.translation.x");
                    assert("lighting.accent.translation.z"@[28] != "lighting.accent.translation.x"@[28]);
                },
                EffectTunerSceneParameter::LightingAccentTranslationY => {
                    reveal_strlit("lighting.accent.translation.y");
                    assert("lighting.accent.translation.z"@[28] != "lighting.accent.translation.y"@[28]);
                },
                _ => {},
            }
        },
    }
}

/// Looking up the stable identifier of a scene parameter gives the parameter back.
pub proof fn stable_id_round_trip(parameter: EffectTunerSceneParameter)
    ensures
        EffectTunerSceneParameter::spec_from_stable_id(parameter.spec_stable_id()@) == Some(parameter),
{
    let chosen = choose|p: EffectTunerSceneParameter| p.spec_stable_id()@ == parameter.spec_stable_id()@;
    stable_ids_are_distinct(chosen, parameter);
}

/// The scene parameter list names each parameter once.
pub proof fn lemma_all_distinct()
    ensures
        forall|i: int, j: int|
            0 <= i < j < EffectTunerSceneParameter::spec_all().len()
                ==> EffectTunerSceneParameter::spec_all()[i] != EffectTunerSceneParameter::spec_all()[j],
{
}

/// The LFO slot list names each scene parameter at most once.
pub proof fn lemma_lfo_capable_distinct()
    ensures
        forall|i: int, j: int|
            0 <= i < j < EffectTunerSceneParameter::spec_lfo_capable().len()
                ==> EffectTunerSceneParameter::spec_lfo_capable()[i] != EffectTunerSceneParameter::spec_lfo_capable()[j],
{
}

} // verus!
