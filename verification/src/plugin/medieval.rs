//! Processional mode on a Dorian pentatonic with open-fifth chords, 80–100 BPM.

use vstd::prelude::*;

use crate::drum::{DrumPattern, DrumStep, pattern_from_rows};
use crate::plugin::{chord_row_to_vec, tempo_with, Plugin, SectionDef};

verus! {

pub const MEDIEVAL_BPM_BASE: i32 = 90;

/// Tempo spread: `(seed >> 8) % 21`, centred, gives 80–100 BPM.
pub const MEDIEVAL_BPM_VARIATION: i32 = 21;

pub const MEDIEVAL_SCALE: [u8; 5] = [0, 2, 5, 7, 10];

pub const MEDIEVAL_CHORD_PROGRESSIONS: [[usize; 4]; 4] = [
    [0, 3, 2, 3],
    [0, 2, 3, 2],
    [0, 3, 0, 2],
    [0, 2, 0, 3],
];

pub const MEDIEVAL_KICK_PATTERNS: [[u8; 16]; 3] = [
    [1, 0, 0, 0, 0, 0, 0, 0, 1, 0, 0, 0, 0, 0, 0, 0],
    [1, 0, 0, 0, 0, 0, 0, 0, 0, 0, 0, 0, 0, 0, 0, 0],
    [1, 0, 0, 0, 0, 0, 1, 0, 1, 0, 0, 0, 0, 0, 0, 0],
];

pub const MEDIEVAL_SNARE_PATTERNS: [[u8; 16]; 3] = [
    [0, 0, 0, 0, 0, 0, 0, 0, 1, 0, 0, 0, 0, 0, 0, 0],
    [0, 0, 0, 0, 1, 0, 0, 0, 0, 0, 0, 0, 0, 0, 0, 0],
    [0, 0, 0, 0, 0, 0, 0, 0, 0, 0, 0, 0, 1, 0, 0, 0],
];

pub const MEDIEVAL_HAT_PATTERNS: [[u8; 16]; 3] = [
    [0, 0, 0, 0, 0, 0, 0, 0, 0, 0, 0, 0, 0, 0, 0, 0],
    [1, 0, 0, 0, 0, 0, 0, 0, 0, 0, 0, 0, 0, 0, 0, 0],
    [1, 0, 0, 0, 0, 0, 0, 0, 1, 0, 0, 0, 0, 0, 0, 0],
];

/// Processional mode on a Dorian pentatonic with open-fifth chords, 80–100 BPM.
#[derive(Debug, Clone, Copy, PartialEq, Eq)]
pub struct MedievalPlugin {}

impl Plugin for MedievalPlugin {
    open spec fn spec_mode(&self) -> Seq<char> {
        "medieval"@
    }

    open spec fn spec_scale(&self) -> Seq<u8> {
        MEDIEVAL_SCALE@
    }

    open spec fn spec_chord_progression(&self, seed: u32) -> Seq<usize> {
        MEDIEVAL_CHORD_PROGRESSIONS@[(seed as int) % 4]@
    }

    open spec fn spec_tempo(&self, seed: u32) -> int {
        crate::plugin::seeded_tempo(MEDIEVAL_BPM_BASE as int, MEDIEVAL_BPM_VARIATION as int, seed)
    }

    open spec fn spec_has_sfx(&self) -> bool {
        false
    }

    open spec fn spec_drum_step(&self, seed: Seq<u8>, i: int) -> DrumStep {
        let s = crate::drum::row_step(
            MEDIEVAL_KICK_PATTERNS@[(seed[0] % 3) as int]@,
            MEDIEVAL_SNARE_PATTERNS@[(seed[1] % 3) as int]@,
            MEDIEVAL_HAT_PATTERNS@[(seed[2] % 3) as int]@,
            i,
        );
        if i == 8 && seed[5] % 2 == 1 && s.hat {
            DrumStep { kick: s.kick, snare: s.snare, hat: s.hat, open_hat: true, offset: s.offset }
        } else {
            s
        }
    }

    open spec fn spec_sections(&self, seed: u32) -> Seq<SectionDef> {
        Seq::empty()
    }

    fn mode(&self) -> (r: &'static str) {
        "medieval"
    }

    fn mode_string(&self) -> (r: String) {
        String::from_str("medieval")
    }

    fn scale(&self) -> (r: [u8; 5]) {
        MEDIEVAL_SCALE
    }

    fn chord_progression_from_seed(&self, seed: u32) -> (r: Vec<usize>) {
        let idx = (seed as usize) % MEDIEVAL_CHORD_PROGRESSIONS.len();
        chord_row_to_vec(MEDIEVAL_CHORD_PROGRESSIONS[idx])
    }

    fn tempo_from_seed(&self, seed: u32) -> (r: i32) {
        tempo_with(MEDIEVAL_BPM_BASE, MEDIEVAL_BPM_VARIATION, seed)
    }

    fn has_sfx(&self) -> (r: bool) {
        false
    }

    fn drum_pattern_from_seed(&self, seed: &[u8; 8]) -> (r: DrumPattern) {
        let kick = MEDIEVAL_KICK_PATTERNS[(seed[0] % 3) as usize];
        let snare = MEDIEVAL_SNARE_PATTERNS[(seed[1] % 3) as usize];
        let hat = MEDIEVAL_HAT_PATTERNS[(seed[2] % 3) as usize];
        let mut pattern = pattern_from_rows(&kick, &snare, &hat);
        proof {
            crate::drum::lemma_low_bits(seed[5]);
        }
        if seed[5] & 0x01 != 0 && pattern.steps[8].hat {
            let mut s = pattern.steps[8];
            s.open_hat = true;
            pattern.steps[8] = s;
        }
        pattern
    }

    fn section_defs(&self) -> (r: Vec<SectionDef>) {
        Vec::new()
    }

    fn section_defs_from_seed(&self, seed: u32) -> (r: Vec<SectionDef>) {
        self.section_defs()
    }
}

} // verus!
