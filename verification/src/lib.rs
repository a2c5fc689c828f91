//! Verified core of a recursive shape-generation playground: parameter catalogs,
//! control-page state machines, preset bookkeeping and text formatting.
use vstd::prelude::*;

pub mod text;
pub mod timestamp;
pub mod scene_catalog;
pub mod effect_catalog;
pub mod tuner_parameter;
pub mod choices;
pub mod edit_mode;
pub mod numeric_entry;
pub mod tuner_navigation;
pub mod tuner_overlay;
pub mod tuner_keys;
pub mod help_text;
pub mod presets;
pub mod preset_storage;
pub mod control_page;
pub mod recent_changes;
pub mod capture;
pub mod generation_messages;
pub mod noise_hash;
pub mod spawn_order;

verus! {
} // verus!
