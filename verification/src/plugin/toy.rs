//! Bright kalimba-like mode on the major pentatonic scale, 95–114 BPM.

use vstd::prelude::*;

use crate::drum::{DrumPattern, DrumStep};
use crate::plugin::samba::SAMBA_SCALE;
use crate::plugin::{chord_row_to_vec, tempo_with, Plugin, SectionDef};

verus! {

pub const TOY_BPM_BASE: i32 = 105;

/// Tempo spread: `(seed >> 8) % 20`, centred, gives 95–114 BPM.
pub const TOY_BPM_VARIATION: i32 = 20;

pub const TOY_SCALE: [u8; 5] = [0, 2, 4, 7, 9];

pub const TOY_CHORD_PROGRESSIONS: [[usize; 4]; 4] = [
    [0, 2, 3, 2],
    [0, 3, 4, 3],
    [0, 2, 4, 2],
    [0, 4, 3, 0],
];

/// Bright kalimba-like mode on the major pentatonic scale, 95–114 BPM.
#[derive(Debug, Clone, Copy, PartialEq, Eq)]
pub struct ToyPlugin {}

impl Plugin for ToyPlugin {
    open spec fn spec_mode(&self) -> Seq<char> {
        "toy"@
    }

    open spec fn spec_scale(&self) -> Seq<u8> {
        SAMBA_SCALE@
    }

    open spec fn spec_chord_progression(&self, seed: u32) -> Seq<usize> {
        TOY_CHORD_PROGRESSIONS@[(seed as int) % 4]@
    }

    open spec fn spec_tempo(&self, seed: u32) -> int {
        crate::plugin::seeded_tempo(TOY_BPM_BASE as int, TOY_BPM_VARIATION as int, seed)
    }

    open spec fn spec_has_sfx(&self) -> bool {
        false
    }

    open spec fn spec_drum_step(&self, seed: Seq<u8>, i: int) -> DrumStep {
        crate::drum::default_drum_step(seed, i)
    }

    open spec fn spec_sections(&self, seed: u32) -> Seq<SectionDef> {
        Seq::empty()
    }

    fn mode(&self) -> (r: &'static str) {
        "toy"
    }

    fn mode_string(&self) -> (r: String) {
        String::from_str("toy")
    }

    fn scale(&self) -> (r: [u8; 5]) {
        SAMBA_SCALE
    }

    fn chord_progression_from_seed(&self, seed: u32) -> (r: Vec<usize>) {
        let idx = (seed as usize) % TOY_CHORD_PROGRESSIONS.len();
        chord_row_to_vec(TOY_CHORD_PROGRESSIONS[idx])
    }

    fn tempo_from_seed(&self, seed: u32) -> (r: i32) {
        tempo_with(TOY_BPM_BASE, TOY_BPM_VARIATION, seed)
    }

    fn has_sfx(&self) -> (r: bool) {
        false
    }

    fn drum_pattern_from_seed(&self, seed: &[u8; 8]) -> (r: DrumPattern) {
        DrumPattern::from_seed(seed)
    }

    fn section_defs(&self) -> (r: Vec<SectionDef>) {
        Vec::new()
    }

    fn section_defs_from_seed(&self, seed: u32) -> (r: Vec<SectionDef>) {
        self.section_defs()
    }
}

} // verus!
