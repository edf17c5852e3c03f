//! Trap mode: sparse kicks, rolling hats and claps on beats 2 and 4, 125–154 BPM.

use vstd::prelude::*;

use crate::drum::{DrumPattern, DrumStep, pattern_from_rows};
use crate::constants::PENTATONIC_MINOR;
use crate::plugin::{chord_row_to_vec, tempo_with, Plugin, SectionDef};

verus! {

pub const TRAP_BPM_BASE: i32 = 140;

/// Tempo spread: `(seed >> 8) % 30`, centred, gives 125–154 BPM.
pub const TRAP_BPM_VARIATION: i32 = 30;

pub const TRAP_CHORD_PROGRESSIONS: [[usize; 4]; 4] = [
    [0, 1, 0, 4],
    [0, 4, 1, 3],
    [0, 1, 3, 4],
    [0, 3, 1, 0],
];

pub const TRAP_KICK_PATTERNS: [[u8; 16]; 3] = [
    [1, 0, 0, 0, 0, 0, 0, 0, 0, 0, 0, 0, 0, 0, 0, 0],
    [1, 0, 0, 0, 0, 0, 0, 0, 1, 0, 0, 0, 0, 0, 0, 0],
    [1, 0, 0, 0, 0, 0, 1, 0, 0, 0, 0, 0, 0, 0, 0, 0],
];

pub const TRAP_HAT_PATTERNS: [[u8; 16]; 3] = [
    [1, 1, 1, 0, 1, 1, 0, 1, 1, 1, 1, 0, 1, 1, 0, 1],
    [1, 1, 0, 1, 1, 0, 1, 1, 0, 1, 1, 0, 1, 1, 0, 1],
    [1, 0, 1, 1, 0, 1, 0, 1, 1, 0, 1, 1, 0, 1, 0, 1],
];

/// Claps locked to beats 2 and 4.
pub const TRAP_CLAP_ROW: [u8; 16] = [0, 0, 0, 0, 1, 0, 0, 0, 0, 0, 0, 0, 1, 0, 0, 0];

/// Trap mode: sparse kicks, rolling hats and claps on beats 2 and 4, 125–154 BPM.
#[derive(Debug, Clone, Copy, PartialEq, Eq)]
pub struct TrapPlugin {}

impl Plugin for TrapPlugin {
    open spec fn spec_mode(&self) -> Seq<char> {
        "trap"@
    }

    open spec fn spec_scale(&self) -> Seq<u8> {
        PENTATONIC_MINOR@
    }

    open spec fn spec_chord_progression(&self, seed: u32) -> Seq<usize> {
        TRAP_CHORD_PROGRESSIONS@[(seed as int) % 4]@
    }

    open spec fn spec_tempo(&self, seed: u32) -> int {
        crate::plugin::seeded_tempo(TRAP_BPM_BASE as int, TRAP_BPM_VARIATION as int, seed)
    }

    open spec fn spec_has_sfx(&self) -> bool {
        false
    }

    open spec fn spec_drum_step(&self, seed: Seq<u8>, i: int) -> DrumStep {
        let s = crate::drum::row_step(
            TRAP_KICK_PATTERNS@[(seed[0] % 3) as int]@,
            TRAP_CLAP_ROW@,
            TRAP_HAT_PATTERNS@[(seed[2] % 3) as int]@,
            i,
        );
        if i == (if seed[5] % 2 == 1 { 6int } else { 14int }) {
            crate::drum::opened(s)
        } else {
            s
        }
    }

    open spec fn spec_sections(&self, seed: u32) -> Seq<SectionDef> {
        Seq::empty()
    }

    fn mode(&self) -> (r: &'static str) {
        "trap"
    }

    fn mode_string(&self) -> (r: String) {
        String::from_str("trap")
    }

    fn scale(&self) -> (r: [u8; 5]) {
        PENTATONIC_MINOR
    }

    fn chord_progression_from_seed(&self, seed: u32) -> (r: Vec<usize>) {
        let idx = (seed as usize) % TRAP_CHORD_PROGRESSIONS.len();
        chord_row_to_vec(TRAP_CHORD_PROGRESSIONS[idx])
    }

    fn tempo_from_seed(&self, seed: u32) -> (r: i32) {
        tempo_with(TRAP_BPM_BASE, TRAP_BPM_VARIATION, seed)
    }

    fn has_sfx(&self) -> (r: bool) {
        false
    }

    fn drum_pattern_from_seed(&self, seed: &[u8; 8]) -> (r: DrumPattern) {
        let kick = TRAP_KICK_PATTERNS[(seed[0] % 3) as usize];
        let snare = TRAP_CLAP_ROW;
        let hat = TRAP_HAT_PATTERNS[(seed[2] % 3) as usize];
        let mut pattern = pattern_from_rows(&kick, &snare, &hat);
        proof {
            crate::drum::lemma_low_bits(seed[5]);
        }
        let oh: usize = if seed[5] & 0x01 != 0 { 6 } else { 14 };
        let mut s = pattern.steps[oh];
        s.hat = true;
        s.open_hat = true;
        pattern.steps[oh] = s;
        pattern
    }

    fn section_defs(&self) -> (r: Vec<SectionDef>) {
        Vec::new()
    }

    fn section_defs_from_seed(&self, seed: u32) -> (r: Vec<SectionDef>) {
        self.section_defs()
    }
}

} // verus!
