//! The integer hashes behind the random LFO shapes and the random exclusion of
//! attachment points; turning their bits into a sample value is left to the caller.
use vstd::prelude::*;
use crate::choices::SpawnPlacementMode;

verus! {

/// The 32-bit mix of a step index and a seed behind the random LFO shapes.
pub open spec fn lfo_hash_spec(index: i32, seed: u32) -> u32 {
    let s1 = vstd::wrapping::u32_specs::wrapping_add(index as u32, vstd::wrapping::u32_specs::wrapping_mul(seed, 0x85EB_CA6B));
    let s2 = s1 ^ (s1 >> 16u32);
    let s3 = vstd::wrapping::u32_specs::wrapping_mul(s2, 0x7FEB_352D);
    let s4 = s3 ^ (s3 >> 15u32);
    let s5 = vstd::wrapping::u32_specs::wrapping_mul(s4, 0x846C_A68B);
    s5 ^ (s5 >> 16u32)
}

/// The 32-bit mix of a step index and a seed behind the random LFO shapes.
pub fn lfo_hash_bits(index: i32, seed: u32) -> (bits: u32)
    ensures
        bits == lfo_hash_spec(index, seed),
{
    let mut state: u32 = (index as u32).wrapping_add(seed.wrapping_mul(0x85EB_CA6B));
    state = state ^ (state >> 16u32);
    state = state.wrapping_mul(0x7FEB_352D);
    state = state ^ (state >> 15u32);
    state = state.wrapping_mul(0x846C_A68B);
    state ^ (state >> 16u32)
}

/// The seed of one octave of the Brownian LFO shape.
pub open spec fn octave_seed_spec(seed: u32, octave: u32) -> u32 {
    vstd::wrapping::u32_specs::wrapping_add(seed, vstd::wrapping::u32_specs::wrapping_mul(octave, 0x9E37_79B9))
}

/// The seed of one octave of the Brownian LFO shape.
pub fn octave_seed(seed: u32, octave: u32) -> (octave_seed: u32)
    ensures
        octave_seed == octave_seed_spec(seed, octave),
{
    seed.wrapping_add(octave.wrapping_mul(0x9E37_79B9))
}

/// The constant that sets the attachments of one placement mode apart.
pub open spec fn mode_bits(mode: SpawnPlacementMode) -> u64 {
    match mode {
        SpawnPlacementMode::Vertex => 0xD6E8_FEB8_6659_FD93,
        SpawnPlacementMode::Edge => 0xA076_1D64_78BD_642F,
        SpawnPlacementMode::Face => 0xE703_7ED1_A0B4_28DB,
    }
}

/// The 64-bit mix of a parent, an attachment mode and an attachment index that
/// decides whether the attachment is randomly excluded.
pub open spec fn exclusion_hash_spec(parent_index: u64, mode: SpawnPlacementMode, attachment_index: u64) -> u64 {
    let s1 = vstd::wrapping::u64_specs::wrapping_mul(parent_index, 0x9E37_79B9_7F4A_7C15)
        ^ vstd::wrapping::u64_specs::wrapping_mul(attachment_index, 0xC2B2_AE3D_27D4_EB4F) ^ mode_bits(mode);
    let s2 = s1 ^ (s1 >> 33u64);
    let s3 = vstd::wrapping::u64_specs::wrapping_mul(s2, 0xFF51_AFD7_ED55_8CCD);
    let s4 = s3 ^ (s3 >> 33u64);
    let s5 = vstd::wrapping::u64_specs::wrapping_mul(s4, 0xC4CE_B9FE_1A85_EC53);
    s5 ^ (s5 >> 33u64)
}

/// The 64-bit mix of a parent, an attachment mode and an attachment index that
/// decides whether the attachment is randomly excluded.
pub fn exclusion_hash_bits(parent_index: u64, mode: SpawnPlacementMode, attachment_index: u64) -> (bits: u64)
    ensures
        bits == exclusion_hash_spec(parent_index, mode, attachment_index),
{
    let mode_constant: u64 = match mode {
        SpawnPlacementMode::Vertex => 0xD6E8_FEB8_6659_FD93,
        SpawnPlacementMode::Edge => 0xA076_1D64_78BD_642F,
        SpawnPlacementMode::Face => 0xE703_7ED1_A0B4_28DB,
    };
    let mut state: u64 = parent_index.wrapping_mul(0x9E37_79B9_7F4A_7C15)
        ^ attachment_index.wrapping_mul(0xC2B2_AE3D_27D4_EB4F) ^ mode_constant;
    state = state ^ (state >> 33u64);
    state = state.wrapping_mul(0xFF51_AFD7_ED55_8CCD);
    state = state ^ (state >> 33u64);
    state = state.wrapping_mul(0xC4CE_B9FE_1A85_EC53);
    state ^ (state >> 33u64)
}

} // verus!
