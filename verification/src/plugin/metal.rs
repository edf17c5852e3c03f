//! Heaviest mode: dark minor loops and double-kick drums, 140–175 BPM.

use vstd::prelude::*;

use crate::drum::{DrumPattern, DrumStep, pattern_from_rows};
use crate::constants::PENTATONIC_MINOR;
use crate::plugin::{chord_row_to_vec, tempo_with, Plugin, SectionDef};

verus! {

pub const METAL_BPM_BASE: i32 = 158;

/// Tempo spread: `(seed >> 8) % 36`, centred, gives 140–175 BPM.
pub const METAL_BPM_VARIATION: i32 = 36;

pub const METAL_CHORD_PROGRESSIONS: [[usize; 4]; 4] = [
    [0, 1, 3, 1],
    [0, 3, 4, 3],
    [0, 4, 1, 0],
    [0, 1, 4, 3],
];

pub const METAL_KICK_PATTERNS: [[u8; 16]; 3] = [
    [1, 0, 1, 0, 1, 0, 1, 0, 1, 0, 1, 0, 1, 0, 1, 0],
    [1, 0, 0, 1, 1, 0, 0, 1, 1, 0, 0, 1, 1, 0, 0, 1],
    [1, 1, 0, 0, 1, 0, 1, 0, 1, 1, 0, 0, 1, 0, 1, 0],
];

pub const METAL_SNARE_PATTERNS: [[u8; 16]; 3] = [
    [0, 0, 0, 0, 1, 0, 0, 0, 0, 0, 0, 0, 1, 0, 0, 0],
    [0, 0, 0, 0, 1, 0, 0, 1, 0, 0, 0, 0, 1, 0, 0, 0],
    [0, 0, 0, 0, 1, 0, 0, 0, 0, 0, 0, 0, 1, 0, 1, 0],
];

pub const METAL_HAT_PATTERNS: [[u8; 16]; 3] = [
    [1, 0, 1, 0, 1, 0, 1, 0, 1, 0, 1, 0, 1, 0, 1, 0],
    [1, 1, 1, 1, 1, 1, 1, 1, 1, 1, 1, 1, 1, 1, 1, 1],
    [1, 0, 1, 1, 1, 0, 1, 0, 1, 0, 1, 1, 1, 0, 1, 0],
];

/// Heaviest mode: dark minor loops and double-kick drums, 140–175 BPM.
#[derive(Debug, Clone, Copy, PartialEq, Eq)]
pub struct MetalPlugin {}

impl Plugin for MetalPlugin {
    open spec fn spec_mode(&self) -> Seq<char> {
        "metal"@
    }

    open spec fn spec_scale(&self) -> Seq<u8> {
        PENTATONIC_MINOR@
    }

    open spec fn spec_chord_progression(&self, seed: u32) -> Seq<usize> {
        METAL_CHORD_PROGRESSIONS@[(seed as int) % 4]@
    }

    open spec fn spec_tempo(&self, seed: u32) -> int {
        crate::plugin::seeded_tempo(METAL_BPM_BASE as int, METAL_BPM_VARIATION as int, seed)
    }

    open spec fn spec_has_sfx(&self) -> bool {
        false
    }

    open spec fn spec_drum_step(&self, seed: Seq<u8>, i: int) -> DrumStep {
        let s = crate::drum::row_step(
            METAL_KICK_PATTERNS@[(seed[0] % 3) as int]@,
            METAL_SNARE_PATTERNS@[(seed[1] % 3) as int]@,
            METAL_HAT_PATTERNS@[(seed[2] % 3) as int]@,
            i,
        );
        if i == (if seed[3] % 2 == 1 { 8int } else { 14int }) {
            crate::drum::opened(s)
        } else {
            s
        }
    }

    open spec fn spec_sections(&self, seed: u32) -> Seq<SectionDef> {
        Seq::empty()
    }

    fn mode(&self) -> (r: &'static str) {
        "metal"
    }

    fn mode_string(&self) -> (r: String) {
        String::from_str("metal")
    }

    fn scale(&self) -> (r: [u8; 5]) {
        PENTATONIC_MINOR
    }

    fn chord_progression_from_seed(&self, seed: u32) -> (r: Vec<usize>) {
        let idx = (seed as usize) % METAL_CHORD_PROGRESSIONS.len();
        chord_row_to_vec(METAL_CHORD_PROGRESSIONS[idx])
    }

    fn tempo_from_seed(&self, seed: u32) -> (r: i32) {
        tempo_with(METAL_BPM_BASE, METAL_BPM_VARIATION, seed)
    }

    fn has_sfx(&self) -> (r: bool) {
        false
    }

    fn drum_pattern_from_seed(&self, seed: &[u8; 8]) -> (r: DrumPattern) {
        let kick = METAL_KICK_PATTERNS[(seed[0] % 3) as usize];
        let snare = METAL_SNARE_PATTERNS[(seed[1] % 3) as usize];
        let hat = METAL_HAT_PATTERNS[(seed[2] % 3) as usize];
        let mut pattern = pattern_from_rows(&kick, &snare, &hat);
        proof {
            crate::drum::lemma_low_bits(seed[3]);
        }
        let oh: usize = if seed[3] & 0x01 != 0 { 8 } else { 14 };
        let mut s = pattern.steps[oh];
        s.hat = true;
        s.open_hat = true;
        pattern.steps[oh] = s;
        pattern
    }

    fn section_defs(&self) -> (r: Vec<SectionDef>) {
        Vec::new()
    }

    fn section_defs_from_seed(&self, seed: u32) -> (r: Vec<SectionDef>) {
        self.section_defs()
    }
}

} // verus!
