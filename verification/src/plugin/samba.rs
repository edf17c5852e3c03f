//! Brazilian samba mode on the major pentatonic scale, 100–115 BPM.

use vstd::prelude::*;

use crate::drum::{DrumPattern, DrumStep, pattern_from_rows};
use crate::plugin::{chord_row_to_vec, tempo_with, Plugin, SectionDef};

verus! {

pub const SAMBA_BPM_BASE: i32 = 108;

/// Tempo spread: `(seed >> 8) % 16`, centred, gives 100–115 BPM.
pub const SAMBA_BPM_VARIATION: i32 = 16;

pub const SAMBA_SCALE: [u8; 5] = [0, 2, 4, 7, 9];

pub const SAMBA_CHORD_PROGRESSIONS: [[usize; 4]; 4] = [
    [0, 3, 2, 3],
    [0, 2, 0, 3],
    [0, 3, 4, 3],
    [0, 2, 3, 0],
];

pub const SAMBA_KICK_PATTERNS: [[u8; 16]; 3] = [
    [0, 0, 0, 0, 1, 0, 0, 0, 0, 0, 0, 0, 1, 0, 0, 0],
    [1, 0, 0, 0, 1, 0, 0, 0, 0, 0, 0, 0, 1, 0, 0, 0],
    [0, 0, 0, 0, 1, 0, 0, 0, 0, 0, 1, 0, 1, 0, 0, 0],
];

pub const SAMBA_SNARE_PATTERNS: [[u8; 16]; 3] = [
    [1, 1, 1, 1, 1, 1, 1, 1, 1, 1, 1, 1, 1, 1, 1, 1],
    [1, 0, 1, 0, 1, 0, 1, 0, 1, 0, 1, 0, 1, 0, 1, 0],
    [1, 0, 1, 1, 0, 1, 0, 1, 1, 0, 1, 1, 0, 1, 0, 1],
];

pub const SAMBA_HAT_PATTERNS: [[u8; 16]; 3] = [
    [1, 0, 1, 0, 1, 1, 0, 1, 0, 1, 0, 1, 1, 0, 1, 0],
    [1, 0, 0, 1, 0, 1, 0, 0, 1, 0, 0, 1, 0, 1, 0, 0],
    [1, 0, 0, 1, 0, 0, 1, 0, 1, 0, 0, 1, 0, 0, 1, 0],
];

/// Brazilian samba mode on the major pentatonic scale, 100–115 BPM.
#[derive(Debug, Clone, Copy, PartialEq, Eq)]
pub struct SambaPlugin {}

impl Plugin for SambaPlugin {
    open spec fn spec_mode(&self) -> Seq<char> {
        "samba"@
    }

    open spec fn spec_scale(&self) -> Seq<u8> {
        SAMBA_SCALE@
    }

    open spec fn spec_chord_progression(&self, seed: u32) -> Seq<usize> {
        SAMBA_CHORD_PROGRESSIONS@[(seed as int) % 4]@
    }

    open spec fn spec_tempo(&self, seed: u32) -> int {
        crate::plugin::seeded_tempo(SAMBA_BPM_BASE as int, SAMBA_BPM_VARIATION as int, seed)
    }

    open spec fn spec_has_sfx(&self) -> bool {
        false
    }

    open spec fn spec_drum_step(&self, seed: Seq<u8>, i: int) -> DrumStep {
        crate::drum::row_step(
            SAMBA_KICK_PATTERNS@[(seed[0] % 3) as int]@,
            SAMBA_SNARE_PATTERNS@[(seed[1] % 3) as int]@,
            SAMBA_HAT_PATTERNS@[(seed[2] % 3) as int]@,
            i,
        )
    }

    open spec fn spec_sections(&self, seed: u32) -> Seq<SectionDef> {
        Seq::empty()
    }

    fn mode(&self) -> (r: &'static str) {
        "samba"
    }

    fn mode_string(&self) -> (r: String) {
        String::from_str("samba")
    }

    fn scale(&self) -> (r: [u8; 5]) {
        SAMBA_SCALE
    }

    fn chord_progression_from_seed(&self, seed: u32) -> (r: Vec<usize>) {
        let idx = (seed as usize) % SAMBA_CHORD_PROGRESSIONS.len();
        chord_row_to_vec(SAMBA_CHORD_PROGRESSIONS[idx])
    }

    fn tempo_from_seed(&self, seed: u32) -> (r: i32) {
        tempo_with(SAMBA_BPM_BASE, SAMBA_BPM_VARIATION, seed)
    }

    fn has_sfx(&self) -> (r: bool) {
        false
    }

    fn drum_pattern_from_seed(&self, seed: &[u8; 8]) -> (r: DrumPattern) {
        let kick = SAMBA_KICK_PATTERNS[(seed[0] % 3) as usize];
        let snare = SAMBA_SNARE_PATTERNS[(seed[1] % 3) as usize];
        let hat = SAMBA_HAT_PATTERNS[(seed[2] % 3) as usize];
        let mut pattern = pattern_from_rows(&kick, &snare, &hat);
        pattern
    }

    fn section_defs(&self) -> (r: Vec<SectionDef>) {
        Vec::new()
    }

    fn section_defs_from_seed(&self, seed: u32) -> (r: Vec<SectionDef>) {
        self.section_defs()
    }
}

} // verus!
