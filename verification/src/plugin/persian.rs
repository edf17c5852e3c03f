//! Modal drone mode on a scale with an augmented second, 72–90 BPM.

use vstd::prelude::*;

use crate::drum::{DrumPattern, DrumStep, pattern_from_rows};
use crate::plugin::{chord_row_to_vec, tempo_with, Plugin, SectionDef};

verus! {

pub const PERSIAN_BPM_BASE: i32 = 81;

/// Tempo spread: `(seed >> 8) % 19`, centred, gives 72–90 BPM.
pub const PERSIAN_BPM_VARIATION: i32 = 19;

pub const PERSIAN_SCALE: [u8; 5] = [0, 1, 4, 5, 7];

pub const PERSIAN_CHORD_PROGRESSIONS: [[usize; 4]; 4] = [
    [0, 0, 2, 0],
    [0, 1, 0, 2],
    [0, 3, 0, 3],
    [0, 2, 0, 0],
];

pub const PERSIAN_KICK_PATTERNS: [[u8; 16]; 3] = [
    [1, 0, 0, 0, 0, 0, 0, 0, 1, 0, 0, 0, 0, 0, 0, 0],
    [1, 0, 0, 0, 0, 0, 0, 1, 0, 0, 0, 0, 0, 0, 0, 0],
    [1, 0, 0, 0, 0, 0, 1, 0, 0, 0, 0, 0, 0, 0, 1, 0],
];

pub const PERSIAN_SNARE_PATTERNS: [[u8; 16]; 3] = [
    [0, 0, 0, 0, 1, 0, 0, 0, 0, 0, 0, 0, 1, 0, 0, 0],
    [0, 0, 1, 0, 0, 0, 0, 0, 0, 0, 1, 0, 0, 0, 0, 0],
    [0, 0, 0, 0, 0, 1, 0, 0, 0, 0, 0, 1, 0, 0, 0, 0],
];

pub const PERSIAN_HAT_PATTERNS: [[u8; 16]; 3] = [
    [0, 0, 0, 0, 0, 0, 0, 0, 1, 0, 0, 0, 0, 0, 0, 0],
    [1, 0, 0, 0, 0, 0, 0, 0, 0, 0, 0, 0, 1, 0, 0, 0],
    [0, 0, 0, 0, 1, 0, 0, 0, 0, 0, 0, 0, 0, 0, 0, 0],
];

/// Modal drone mode on a scale with an augmented second, 72–90 BPM.
#[derive(Debug, Clone, Copy, PartialEq, Eq)]
pub struct PersianPlugin {}

impl Plugin for PersianPlugin {
    open spec fn spec_mode(&self) -> Seq<char> {
        "persian"@
    }

    open spec fn spec_scale(&self) -> Seq<u8> {
        PERSIAN_SCALE@
    }

    open spec fn spec_chord_progression(&self, seed: u32) -> Seq<usize> {
        PERSIAN_CHORD_PROGRESSIONS@[(seed as int) % 4]@
    }

    open spec fn spec_tempo(&self, seed: u32) -> int {
        crate::plugin::seeded_tempo(PERSIAN_BPM_BASE as int, PERSIAN_BPM_VARIATION as int, seed)
    }

    open spec fn spec_has_sfx(&self) -> bool {
        false
    }

    open spec fn spec_drum_step(&self, seed: Seq<u8>, i: int) -> DrumStep {
        let s = crate::drum::row_step(
            PERSIAN_KICK_PATTERNS@[(seed[0] % 3) as int]@,
            PERSIAN_SNARE_PATTERNS@[(seed[1] % 3) as int]@,
            PERSIAN_HAT_PATTERNS@[(seed[2] % 3) as int]@,
            i,
        );
        if i == 8 && seed[3] % 2 == 1 {
            crate::drum::opened(s)
        } else {
            s
        }
    }

    open spec fn spec_sections(&self, seed: u32) -> Seq<SectionDef> {
        Seq::empty()
    }

    fn mode(&self) -> (r: &'static str) {
        "persian"
    }

    fn mode_string(&self) -> (r: String) {
        String::from_str("persian")
    }

    fn scale(&self) -> (r: [u8; 5]) {
        PERSIAN_SCALE
    }

    fn chord_progression_from_seed(&self, seed: u32) -> (r: Vec<usize>) {
        let idx = (seed as usize) % PERSIAN_CHORD_PROGRESSIONS.len();
        chord_row_to_vec(PERSIAN_CHORD_PROGRESSIONS[idx])
    }

    fn tempo_from_seed(&self, seed: u32) -> (r: i32) {
        tempo_with(PERSIAN_BPM_BASE, PERSIAN_BPM_VARIATION, seed)
    }

    fn has_sfx(&self) -> (r: bool) {
        false
    }

    fn drum_pattern_from_seed(&self, seed: &[u8; 8]) -> (r: DrumPattern) {
        let kick = PERSIAN_KICK_PATTERNS[(seed[0] % 3) as usize];
        let snare = PERSIAN_SNARE_PATTERNS[(seed[1] % 3) as usize];
        let hat = PERSIAN_HAT_PATTERNS[(seed[2] % 3) as usize];
        let mut pattern = pattern_from_rows(&kick, &snare, &hat);
        proof {
            crate::drum::lemma_low_bits(seed[3]);
        }
        if seed[3] & 0x01 != 0 {
            let mut s = pattern.steps[8];
            s.hat = true;
            s.open_hat = true;
            pattern.steps[8] = s;
        }
        pattern
    }

    fn section_defs(&self) -> (r: Vec<SectionDef>) {
        Vec::new()
    }

    fn section_defs_from_seed(&self, seed: u32) -> (r: Vec<SectionDef>) {
        self.section_defs()
    }
}

} // verus!
