//! Power-chord mode with driving I–V–IV loops, 115–145 BPM.

use vstd::prelude::*;

use crate::drum::{DrumPattern, DrumStep};
use crate::constants::PENTATONIC_MINOR;
use crate::plugin::{chord_row_to_vec, tempo_with, Plugin, SectionDef};

verus! {

pub const ROCK_BPM_BASE: i32 = 130;

/// Tempo spread: `(seed >> 8) % 31`, centred, gives 115–145 BPM.
pub const ROCK_BPM_VARIATION: i32 = 31;

pub const ROCK_CHORD_PROGRESSIONS: [[usize; 4]; 4] = [
    [0, 3, 2, 3],
    [0, 2, 3, 2],
    [0, 3, 4, 3],
    [0, 2, 4, 2],
];

/// Power-chord mode with driving I–V–IV loops, 115–145 BPM.
#[derive(Debug, Clone, Copy, PartialEq, Eq)]
pub struct RockPlugin {}

impl Plugin for RockPlugin {
    open spec fn spec_mode(&self) -> Seq<char> {
        "rock"@
    }

    open spec fn spec_scale(&self) -> Seq<u8> {
        PENTATONIC_MINOR@
    }

    open spec fn spec_chord_progression(&self, seed: u32) -> Seq<usize> {
        ROCK_CHORD_PROGRESSIONS@[(seed as int) % 4]@
    }

    open spec fn spec_tempo(&self, seed: u32) -> int {
        crate::plugin::seeded_tempo(ROCK_BPM_BASE as int, ROCK_BPM_VARIATION as int, seed)
    }

    open spec fn spec_has_sfx(&self) -> bool {
        false
    }

    open spec fn spec_drum_step(&self, seed: Seq<u8>, i: int) -> DrumStep {
        crate::drum::default_drum_step(seed, i)
    }

    open spec fn spec_sections(&self, seed: u32) -> Seq<SectionDef> {
        Seq::empty()
    }

    fn mode(&self) -> (r: &'static str) {
        "rock"
    }

    fn mode_string(&self) -> (r: String) {
        String::from_str("rock")
    }

    fn scale(&self) -> (r: [u8; 5]) {
        PENTATONIC_MINOR
    }

    fn chord_progression_from_seed(&self, seed: u32) -> (r: Vec<usize>) {
        let idx = (seed as usize) % ROCK_CHORD_PROGRESSIONS.len();
        chord_row_to_vec(ROCK_CHORD_PROGRESSIONS[idx])
    }

    fn tempo_from_seed(&self, seed: u32) -> (r: i32) {
        tempo_with(ROCK_BPM_BASE, ROCK_BPM_VARIATION, seed)
    }

    fn has_sfx(&self) -> (r: bool) {
        false
    }

    fn drum_pattern_from_seed(&self, seed: &[u8; 8]) -> (r: DrumPattern) {
        DrumPattern::from_seed(seed)
    }

    fn section_defs(&self) -> (r: Vec<SectionDef>) {
        Vec::new()
    }

    fn section_defs_from_seed(&self, seed: u32) -> (r: Vec<SectionDef>) {
        self.section_defs()
    }
}

} // verus!
