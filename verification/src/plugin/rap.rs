//! Boom-bap mode with soul and funk minor loops, 84–99 BPM.

use vstd::prelude::*;

use crate::drum::{DrumPattern, DrumStep, pattern_from_rows};
use crate::constants::PENTATONIC_MINOR;
use crate::plugin::{chord_row_to_vec, tempo_with, Plugin, SectionDef};

verus! {

pub const RAP_BPM_BASE: i32 = 92;

/// Tempo spread: `(seed >> 8) % 16`, centred, gives 84–99 BPM.
pub const RAP_BPM_VARIATION: i32 = 16;

pub const RAP_CHORD_PROGRESSIONS: [[usize; 4]; 4] = [
    [0, 2, 0, 3],
    [0, 3, 2, 1],
    [0, 1, 2, 1],
    [0, 2, 3, 0],
];

pub const RAP_KICK_PATTERNS: [[u8; 16]; 3] = [
    [1, 0, 0, 0, 0, 0, 0, 0, 1, 0, 0, 1, 0, 0, 0, 0],
    [1, 0, 0, 0, 0, 0, 1, 0, 1, 0, 0, 0, 0, 0, 0, 0],
    [1, 0, 0, 0, 0, 0, 0, 0, 0, 0, 1, 0, 1, 0, 0, 0],
];

pub const RAP_SNARE_PATTERNS: [[u8; 16]; 3] = [
    [0, 0, 0, 0, 1, 0, 0, 0, 0, 0, 0, 0, 1, 0, 0, 0],
    [0, 0, 0, 0, 1, 0, 0, 0, 0, 0, 1, 0, 1, 0, 0, 0],
    [0, 0, 0, 0, 1, 0, 1, 0, 0, 0, 0, 0, 1, 0, 0, 0],
];

pub const RAP_HAT_PATTERNS: [[u8; 16]; 3] = [
    [1, 0, 0, 0, 1, 0, 0, 0, 1, 0, 0, 0, 1, 0, 0, 0],
    [1, 0, 1, 0, 0, 0, 1, 0, 1, 0, 1, 0, 0, 0, 1, 0],
    [1, 0, 1, 0, 1, 0, 1, 0, 1, 0, 1, 0, 1, 0, 1, 0],
];

/// Boom-bap mode with soul and funk minor loops, 84–99 BPM.
#[derive(Debug, Clone, Copy, PartialEq, Eq)]
pub struct RapPlugin {}

impl Plugin for RapPlugin {
    open spec fn spec_mode(&self) -> Seq<char> {
        "rap"@
    }

    open spec fn spec_scale(&self) -> Seq<u8> {
        PENTATONIC_MINOR@
    }

    open spec fn spec_chord_progression(&self, seed: u32) -> Seq<usize> {
        RAP_CHORD_PROGRESSIONS@[(seed as int) % 4]@
    }

    open spec fn spec_tempo(&self, seed: u32) -> int {
        crate::plugin::seeded_tempo(RAP_BPM_BASE as int, RAP_BPM_VARIATION as int, seed)
    }

    open spec fn spec_has_sfx(&self) -> bool {
        false
    }

    open spec fn spec_drum_step(&self, seed: Seq<u8>, i: int) -> DrumStep {
        let s = crate::drum::row_step(
            RAP_KICK_PATTERNS@[(seed[0] % 3) as int]@,
            RAP_SNARE_PATTERNS@[(seed[1] % 3) as int]@,
            RAP_HAT_PATTERNS@[(seed[2] % 3) as int]@,
            i,
        );
        if i == 8 && seed[5] % 2 == 1 {
            crate::drum::opened(s)
        } else {
            s
        }
    }

    open spec fn spec_sections(&self, seed: u32) -> Seq<SectionDef> {
        Seq::empty()
    }

    fn mode(&self) -> (r: &'static str) {
        "rap"
    }

    fn mode_string(&self) -> (r: String) {
        String::from_str("rap")
    }

    fn scale(&self) -> (r: [u8; 5]) {
        PENTATONIC_MINOR
    }

    fn chord_progression_from_seed(&self, seed: u32) -> (r: Vec<usize>) {
        let idx = (seed as usize) % RAP_CHORD_PROGRESSIONS.len();
        chord_row_to_vec(RAP_CHORD_PROGRESSIONS[idx])
    }

    fn tempo_from_seed(&self, seed: u32) -> (r: i32) {
        tempo_with(RAP_BPM_BASE, RAP_BPM_VARIATION, seed)
    }

    fn has_sfx(&self) -> (r: bool) {
        false
    }

    fn drum_pattern_from_seed(&self, seed: &[u8; 8]) -> (r: DrumPattern) {
        let kick = RAP_KICK_PATTERNS[(seed[0] % 3) as usize];
        let snare = RAP_SNARE_PATTERNS[(seed[1] % 3) as usize];
        let hat = RAP_HAT_PATTERNS[(seed[2] % 3) as usize];
        let mut pattern = pattern_from_rows(&kick, &snare, &hat);
        proof {
            crate::drum::lemma_low_bits(seed[5]);
        }
        if seed[5] & 0x01 != 0 {
            let mut s = pattern.steps[8];
            s.hat = true;
            s.open_hat = true;
            pattern.steps[8] = s;
        }
        pattern
    }

    fn section_defs(&self) -> (r: Vec<SectionDef>) {
        Vec::new()
    }

    fn section_defs_from_seed(&self, seed: u32) -> (r: Vec<SectionDef>) {
        self.section_defs()
    }
}

} // verus!
