//! Square and triangle waves with noise drums and video-game effects,
//! 150–179 BPM, on the minor pentatonic scale.

use vstd::prelude::*;

use crate::constants::{CHORD_PROGRESSIONS, PENTATONIC_MINOR};
use crate::drum::{DrumPattern, DrumStep};
use crate::plugin::{chord_row_to_vec, tempo_with, Mode, Plugin, SectionDef, StemMask};

verus! {

pub const CHIPTUNE_BPM_BASE: i32 = 165;

/// Tempo spread: `(seed >> 8) % 30`, centred, gives 150–179 BPM.
pub const CHIPTUNE_BPM_VARIATION: i32 = 30;

/// Silence after each chorus, in milliseconds, picked by seed bits 21–22.
pub const CHORUS_SILENCES_MS: [u32; 4] = [300, 500, 700, 1000];

/// Square + triangle waves, 150–179 BPM, pentatonic minor.
#[derive(Debug, Clone, Copy, PartialEq, Eq)]
pub struct ChiptunePlugin {}

impl ChiptunePlugin {
    pub fn new() -> (r: Self)
        ensures
            r == (ChiptunePlugin {}),
    {
        ChiptunePlugin {}
    }

    /// Which of the five effects, if any, accompanies the melody note whose
    /// first byte is at `byte_index`: one effect every 24 notes, cycling
    /// through coin, jump, power-up, laser and 1-UP.
    pub fn sfx_kind(byte_index: u64) -> (r: Option<u64>)
        ensures
            r == (if (byte_index / 3) % 24 != 0 {
                None
            } else {
                Some(((byte_index / 3) / 24) % 5)
            }),
    {
        let note_num = byte_index / 3;
        if note_num % 24 != 0 {
            None
        } else {
            Some((note_num / 24) % 5)
        }
    }
}

/// Bits `k..` of the section seed as quotients.
pub proof fn lemma_section_bits(seed: u32)
    ensures
        (seed >> 16u32) & 3u32 == (seed / 65536) % 4,
        (seed >> 18u32) & 1u32 == (seed / 262144) % 2,
        (seed >> 19u32) & 1u32 == (seed / 524288) % 2,
        (seed >> 20u32) & 1u32 == (seed / 1048576) % 2,
        (seed >> 21u32) & 3u32 == (seed / 2097152) % 4,
        (seed >> 23u32) & 3u32 == (seed / 8388608) % 4,
        (seed >> 25u32) & 1u32 == (seed / 33554432) % 2,
        (seed >> 26u32) & 1u32 == (seed / 67108864) % 2,
{
    assert((seed >> 16u32) & 3u32 == (seed / 65536) % 4) by (bit_vector);
    assert((seed >> 18u32) & 1u32 == (seed / 262144) % 2) by (bit_vector);
    assert((seed >> 19u32) & 1u32 == (seed / 524288) % 2) by (bit_vector);
    assert((seed >> 20u32) & 1u32 == (seed / 1048576) % 2) by (bit_vector);
    assert((seed >> 21u32) & 3u32 == (seed / 2097152) % 4) by (bit_vector);
    assert((seed >> 23u32) & 3u32 == (seed / 8388608) % 4) by (bit_vector);
    assert((seed >> 25u32) & 1u32 == (seed / 33554432) % 2) by (bit_vector);
    assert((seed >> 26u32) & 1u32 == (seed / 67108864) % 2) by (bit_vector);
}

/// Verse length (bits 16–17): 24, 28 or 32 beats.
pub open spec fn verse_beats(seed: u32) -> u64 {
    let b = (seed as int / 65536) % 4;
    if b == 0 {
        24
    } else if b == 1 {
        28
    } else {
        32
    }
}

/// Intro and outro length (bit 18): 16 or 8 beats.
pub open spec fn bookend_beats(seed: u32) -> u64 {
    if (seed as int / 262144) % 2 == 0 {
        16
    } else {
        8
    }
}

/// Pre-chorus length (bit 19): 16 or 12 beats.
pub open spec fn prechorus_beats(seed: u32) -> u64 {
    if (seed as int / 524288) % 2 == 0 {
        16
    } else {
        12
    }
}

/// Chorus length (bit 20): 32 or 28 beats.
pub open spec fn chorus_beats(seed: u32) -> u64 {
    if (seed as int / 1048576) % 2 == 0 {
        32
    } else {
        28
    }
}

/// Silence after each chorus (bits 21–22), in milliseconds.
pub open spec fn chorus_silence_ms(seed: u32) -> u32 {
    CHORUS_SILENCES_MS@[(seed as int / 2097152) % 4]
}

/// Whether the voice sings in the verses (bits 23–24 both set).
pub open spec fn voice_in_verse(seed: u32) -> bool {
    (seed as int / 8388608) % 4 == 3
}

/// Whether the song has a bridge (bit 25 clear).
pub open spec fn has_bridge(seed: u32) -> bool {
    (seed as int / 33554432) % 2 == 0
}

/// Bridge length (bit 26): 16 or 12 beats.
pub open spec fn bridge_beats(seed: u32) -> u64 {
    if (seed as int / 67108864) % 2 == 0 {
        16
    } else {
        12
    }
}

/// Square and triangle only: the mask of the intro and the outro.
pub open spec fn bookend_stems() -> StemMask {
    StemMask { voice: false, square: true, triangle: true, noise: false, sfx: false }
}

pub open spec fn intro_section(seed: u32) -> SectionDef {
    SectionDef { beats: bookend_beats(seed), stems: bookend_stems(), silence_after_ms: 800 }
}

pub open spec fn verse_section(seed: u32) -> SectionDef {
    SectionDef {
        beats: verse_beats(seed),
        stems: StemMask {
            voice: voice_in_verse(seed),
            square: true,
            triangle: true,
            noise: true,
            sfx: true,
        },
        silence_after_ms: 0,
    }
}

pub open spec fn prechorus_section(seed: u32) -> SectionDef {
    SectionDef { beats: prechorus_beats(seed), stems: crate::plugin::all_stems(), silence_after_ms: 0 }
}

pub open spec fn chorus_section(seed: u32) -> SectionDef {
    SectionDef {
        beats: chorus_beats(seed),
        stems: crate::plugin::all_stems(),
        silence_after_ms: chorus_silence_ms(seed),
    }
}

pub open spec fn bridge_section(seed: u32) -> SectionDef {
    SectionDef {
        beats: bridge_beats(seed),
        stems: StemMask { voice: false, square: false, triangle: true, noise: true, sfx: false },
        silence_after_ms: 800,
    }
}

pub open spec fn outro_section(seed: u32) -> SectionDef {
    SectionDef { beats: bookend_beats(seed), stems: bookend_stems(), silence_after_ms: 1500 }
}

/// intro → verse → pre-chorus → chorus → verse → pre-chorus → chorus →
/// [bridge →] chorus → outro
pub open spec fn chiptune_sections(seed: u32) -> Seq<SectionDef> {
    seq![
        intro_section(seed),
        verse_section(seed),
        prechorus_section(seed),
        chorus_section(seed),
        verse_section(seed),
        prechorus_section(seed),
        chorus_section(seed),
    ] + (if has_bridge(seed) {
        seq![bridge_section(seed)]
    } else {
        Seq::empty()
    }) + seq![chorus_section(seed), outro_section(seed)]
}

impl Plugin for ChiptunePlugin {
    open spec fn spec_mode(&self) -> Seq<char> {
        "chiptune"@
    }

    open spec fn spec_scale(&self) -> Seq<u8> {
        PENTATONIC_MINOR@
    }

    open spec fn spec_chord_progression(&self, seed: u32) -> Seq<usize> {
        CHORD_PROGRESSIONS@[(seed as int) % 4]@
    }

    open spec fn spec_tempo(&self, seed: u32) -> int {
        crate::plugin::seeded_tempo(CHIPTUNE_BPM_BASE as int, CHIPTUNE_BPM_VARIATION as int, seed)
    }

    open spec fn spec_has_sfx(&self) -> bool {
        true
    }

    open spec fn spec_drum_step(&self, seed: Seq<u8>, i: int) -> DrumStep {
        crate::drum::default_drum_step(seed, i)
    }

    open spec fn spec_sections(&self, seed: u32) -> Seq<SectionDef> {
        chiptune_sections(seed)
    }

    fn mode(&self) -> (r: &'static str) {
        "chiptune"
    }

    fn mode_string(&self) -> (r: String) {
        String::from_str("chiptune")
    }

    fn scale(&self) -> (r: [u8; 5]) {
        PENTATONIC_MINOR
    }

    fn chord_progression_from_seed(&self, seed: u32) -> (r: Vec<usize>) {
        let idx = (seed as usize) % CHORD_PROGRESSIONS.len();
        chord_row_to_vec(CHORD_PROGRESSIONS[idx])
    }

    fn tempo_from_seed(&self, seed: u32) -> (r: i32) {
        tempo_with(CHIPTUNE_BPM_BASE, CHIPTUNE_BPM_VARIATION, seed)
    }

    fn has_sfx(&self) -> (r: bool) {
        true
    }

    fn drum_pattern_from_seed(&self, seed: &[u8; 8]) -> (r: DrumPattern) {
        DrumPattern::from_seed(seed)
    }

    fn section_defs(&self) -> (r: Vec<SectionDef>) {
        Vec::new()
    }

    fn section_defs_from_seed(&self, seed: u32) -> (r: Vec<SectionDef>) {
        proof {
            lemma_section_bits(seed);
        }
        let verse_beats: u64 = match (seed >> 16) & 3 {
            0 => 24,
            1 => 28,
            _ => 32,
        };
        let bookend_beats: u64 = if (seed >> 18) & 1 == 0 { 16 } else { 8 };
        let prechorus_beats: u64 = if (seed >> 19) & 1 == 0 { 16 } else { 12 };
        let chorus_beats: u64 = if (seed >> 20) & 1 == 0 { 32 } else { 28 };
        let chorus_silence: u32 = CHORUS_SILENCES_MS[((seed >> 21) & 3) as usize];
        let voice_in_verse = (seed >> 23) & 3 == 3;
        let has_bridge = (seed >> 25) & 1 == 0;
        let bridge_beats: u64 = if (seed >> 26) & 1 == 0 { 16 } else { 12 };

        let intro = SectionDef {
            beats: bookend_beats,
            stems: StemMask { voice: false, square: true, triangle: true, noise: false, sfx: false },
            silence_after_ms: 800,
        };
        let verse = SectionDef {
            beats: verse_beats,
            stems: StemMask {
                voice: voice_in_verse,
                square: true,
                triangle: true,
                noise: true,
                sfx: true,
            },
            silence_after_ms: 0,
        };
        let pre_chorus = SectionDef {
            beats: prechorus_beats,
            stems: StemMask::all(),
            silence_after_ms: 0,
        };
        let chorus = SectionDef {
            beats: chorus_beats,
            stems: StemMask::all(),
            silence_after_ms: chorus_silence,
        };
        let bridge = SectionDef {
            beats: bridge_beats,
            stems: StemMask { voice: false, square: false, triangle: true, noise: true, sfx: false },
            silence_after_ms: 800,
        };
        let outro = SectionDef {
            beats: bookend_beats,
            stems: StemMask { voice: false, square: true, triangle: true, noise: false, sfx: false },
            silence_after_ms: 1500,
        };

        let mut sections = Vec::new();
        sections.push(intro);
        sections.push(verse);
        sections.push(pre_chorus);
        sections.push(chorus);
        sections.push(verse);
        sections.push(pre_chorus);
        sections.push(chorus);
        if has_bridge {
            sections.push(bridge);
        }
        sections.push(chorus);
        sections.push(outro);
        assert(sections@ =~= chiptune_sections(seed));
        sections
    }
}

} // verus!

verus! {

/// The chiptune song form, read off the seed's bits: intro, verse,
/// pre-chorus, chorus, verse, pre-chorus, chorus, a bridge when bit 25 is
/// clear, a last chorus, outro.
/// - Intro and outro: square and triangle only, 16 beats (bit 18 clear) or
///   8; 0.8 s of silence after the intro, 1.5 s after the outro.
/// - Verses: 24, 28 or 32 beats (bits 16–17 at 0, 1, else); every stem but
///   the voice, which sings only when bits 23–24 are both set; no silence.
/// - Pre-choruses: every stem, 16 beats (bit 19 clear) or 12, no silence.
/// - Every chorus, the last one too: every stem, 32 beats (bit 20 clear) or
///   28, then 0.3, 0.5, 0.7 or 1.0 s of silence as bits 21–22 say.
/// - The bridge: only the triangle and the noise (a breakdown of bass and
///   drums), 16 beats (bit 26 clear) or 12, then 0.8 s of silence.
pub proof fn lemma_chiptune_form(seed: u32)
    ensures
        ({
            let s = Mode::Chiptune.spec_sections(seed);
            let n = s.len() as int;
            let bridge = (seed as int / 33554432) % 2 == 0;
            let bookends = StemMask { voice: false, square: true, triangle: true, noise: false, sfx: false };
            let every = StemMask { voice: true, square: true, triangle: true, noise: true, sfx: true };
            let silence = seq![300u32, 500, 700, 1000][(seed as int / 2097152) % 4];
            let chorus = SectionDef {
                beats: if (seed as int / 1048576) % 2 == 0 { 32 } else { 28 },
                stems: every,
                silence_after_ms: silence,
            };
            &&& n == if bridge { 10int } else { 9int }
            &&& s[0].stems == bookends
            &&& s[0].beats == (if (seed as int / 262144) % 2 == 0 { 16u64 } else { 8u64 })
            &&& s[0].silence_after_ms == 800
            &&& s[n - 1].stems == bookends
            &&& s[n - 1].beats == s[0].beats
            &&& s[n - 1].silence_after_ms == 1500
            &&& s[1] == s[4]
            &&& s[1].beats == (if (seed as int / 65536) % 4 == 0 {
                24u64
            } else if (seed as int / 65536) % 4 == 1 {
                28u64
            } else {
                32u64
            })
            &&& s[1].stems == (StemMask {
                voice: (seed as int / 8388608) % 4 == 3,
                square: true,
                triangle: true,
                noise: true,
                sfx: true,
            })
            &&& s[1].silence_after_ms == 0
            &&& s[2] == s[5]
            &&& s[2] == (SectionDef {
                beats: if (seed as int / 524288) % 2 == 0 { 16 } else { 12 },
                stems: every,
                silence_after_ms: 0,
            })
            &&& s[3] == chorus
            &&& s[6] == chorus
            &&& s[n - 2] == chorus
            &&& bridge ==> s[7] == (SectionDef {
                beats: if (seed as int / 67108864) % 2 == 0 { 16 } else { 12 },
                stems: StemMask { voice: false, square: false, triangle: true, noise: true, sfx: false },
                silence_after_ms: 800,
            })
        }),
{
}

/// The chiptune chord loop is picked by the seed's last two bits, one of
/// four loops, all starting on the root: i – m7 – P5 – m7, i – oct – m7 –
/// oct (the fifth scale degree), i – P5 – m7 – P5, or i – m3 – oct – P5.
/// Seeds that agree in those two bits get the same loop, and seeds that
/// differ in them get different loops.
pub proof fn lemma_chiptune_chords(s1: u32, s2: u32)
    ensures
        s1 % 4 == 0 ==> Mode::Chiptune.spec_chord_progression(s1) == seq![0usize, 3, 2, 3],
        s1 % 4 == 1 ==> Mode::Chiptune.spec_chord_progression(s1) == seq![0usize, 4, 3, 4],
        s1 % 4 == 2 ==> Mode::Chiptune.spec_chord_progression(s1) == seq![0usize, 2, 3, 2],
        s1 % 4 == 3 ==> Mode::Chiptune.spec_chord_progression(s1) == seq![0usize, 1, 4, 2],
        (Mode::Chiptune.spec_chord_progression(s1) == Mode::Chiptune.spec_chord_progression(s2)) == (s1 % 4
            == s2 % 4),
{
    let p1 = Mode::Chiptune.spec_chord_progression(s1);
    let p2 = Mode::Chiptune.spec_chord_progression(s2);
    assert(CHORD_PROGRESSIONS@[0]@ =~= seq![0usize, 3, 2, 3]);
    assert(CHORD_PROGRESSIONS@[1]@ =~= seq![0usize, 4, 3, 4]);
    assert(CHORD_PROGRESSIONS@[2]@ =~= seq![0usize, 2, 3, 2]);
    assert(CHORD_PROGRESSIONS@[3]@ =~= seq![0usize, 1, 4, 2]);
    if s1 % 4 != s2 % 4 {
        assert(p1[1] != p2[1] || p1[2] != p2[2] || p1[3] != p2[3]);
    }
}

} // verus!
