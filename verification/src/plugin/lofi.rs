//! Warm, laid-back mode: 74–82 BPM, jazz-flavoured minor loops.

use vstd::prelude::*;

use crate::drum::{DrumPattern, DrumStep};
use crate::constants::PENTATONIC_MINOR;
use crate::plugin::{chord_row_to_vec, tempo_with, Plugin, SectionDef};

verus! {

pub const LOFI_BPM_BASE: i32 = 78;

/// Tempo spread: `(seed >> 8) % 9`, centred, gives 74–82 BPM.
pub const LOFI_BPM_VARIATION: i32 = 9;

pub const LOFI_CHORD_PROGRESSIONS: [[usize; 4]; 4] = [
    [0, 4, 3, 4],
    [0, 2, 4, 3],
    [0, 3, 2, 4],
    [0, 2, 3, 1],
];

/// Warm, laid-back mode: 74–82 BPM, jazz-flavoured minor loops.
#[derive(Debug, Clone, Copy, PartialEq, Eq)]
pub struct LofiPlugin {}

impl Plugin for LofiPlugin {
    open spec fn spec_mode(&self) -> Seq<char> {
        "lofi"@
    }

    open spec fn spec_scale(&self) -> Seq<u8> {
        PENTATONIC_MINOR@
    }

    open spec fn spec_chord_progression(&self, seed: u32) -> Seq<usize> {
        LOFI_CHORD_PROGRESSIONS@[(seed as int) % 4]@
    }

    open spec fn spec_tempo(&self, seed: u32) -> int {
        crate::plugin::seeded_tempo(LOFI_BPM_BASE as int, LOFI_BPM_VARIATION as int, seed)
    }

    open spec fn spec_has_sfx(&self) -> bool {
        false
    }

    open spec fn spec_drum_step(&self, seed: Seq<u8>, i: int) -> DrumStep {
        crate::drum::default_drum_step(seed, i)
    }

    open spec fn spec_sections(&self, seed: u32) -> Seq<SectionDef> {
        Seq::empty()
    }

    fn mode(&self) -> (r: &'static str) {
        "lofi"
    }

    fn mode_string(&self) -> (r: String) {
        String::from_str("lofi")
    }

    fn scale(&self) -> (r: [u8; 5]) {
        PENTATONIC_MINOR
    }

    fn chord_progression_from_seed(&self, seed: u32) -> (r: Vec<usize>) {
        let idx = (seed as usize) % LOFI_CHORD_PROGRESSIONS.len();
        chord_row_to_vec(LOFI_CHORD_PROGRESSIONS[idx])
    }

    fn tempo_from_seed(&self, seed: u32) -> (r: i32) {
        tempo_with(LOFI_BPM_BASE, LOFI_BPM_VARIATION, seed)
    }

    fn has_sfx(&self) -> (r: bool) {
        false
    }

    fn drum_pattern_from_seed(&self, seed: &[u8; 8]) -> (r: DrumPattern) {
        DrumPattern::from_seed(seed)
    }

    fn section_defs(&self) -> (r: Vec<SectionDef>) {
        Vec::new()
    }

    fn section_defs_from_seed(&self, seed: u32) -> (r: Vec<SectionDef>) {
        self.section_defs()
    }
}

} // verus!
