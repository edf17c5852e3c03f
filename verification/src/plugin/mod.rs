//! Music modes: each one fixes a scale, chord loops, a tempo range, drum
//! tables and, for some, a song structure.

use vstd::prelude::*;

use crate::drum::{DrumPattern, DrumStep};

pub mod chiptune;
pub mod koto;
pub mod lofi;
pub mod medieval;
pub mod metal;
pub mod persian;
pub mod rap;
pub mod rock;
pub mod samba;
pub mod toy;
pub mod trap;

use chiptune::ChiptunePlugin;
use koto::KotoPlugin;
use lofi::LofiPlugin;
use medieval::MedievalPlugin;
use metal::MetalPlugin;
use persian::PersianPlugin;
use rap::RapPlugin;
use rock::RockPlugin;
use samba::SambaPlugin;
use toy::ToyPlugin;
use trap::TrapPlugin;

verus! {

/// Controls which stems are audible in a song section.
#[derive(Debug, Clone, Copy, PartialEq, Eq)]
pub struct StemMask {
    pub voice: bool,
    pub square: bool,
    pub triangle: bool,
    pub noise: bool,
    pub sfx: bool,
}

/// The mask under which every stem is audible.
pub open spec fn all_stems() -> StemMask {
    StemMask { voice: true, square: true, triangle: true, noise: true, sfx: true }
}

impl StemMask {
    /// Every stem audible.
    pub fn all() -> (r: Self)
        ensures
            r == all_stems(),
    {
        StemMask { voice: true, square: true, triangle: true, noise: true, sfx: true }
    }
}

impl Default for StemMask {
    fn default() -> (r: Self)
        ensures
            r == all_stems(),
    {
        StemMask::all()
    }
}

/// One entry in a mode's song-structure table.
#[derive(Debug, Clone, Copy, PartialEq, Eq)]
pub struct SectionDef {
    /// Length of this section in beats.
    pub beats: u64,
    /// Which stems are audible during this section.
    pub stems: StemMask,
    /// Milliseconds of silence inserted after this section ends.
    pub silence_after_ms: u32,
}

/// Copy a chord loop into a vector.
pub fn chord_row_to_vec(row: [usize; 4]) -> (r: Vec<usize>)
    ensures
        r@ == row@,
{
    vstd::slice::slice_to_vec(row.as_slice())
}

/// `seed >> 8`, the seed bits that pick the tempo, as a quotient.
pub proof fn lemma_tempo_bits(seed: u32)
    ensures
        seed >> 8u32 == seed / 256,
{
    assert(seed >> 8u32 == seed / 256) by (bit_vector);
}

/// Tempo `base + (seed >> 8) % variation - variation / 2`, the rule every mode uses.
pub open spec fn seeded_tempo(base: int, variation: int, seed: u32) -> int {
    base + (seed as int / 256) % variation - variation / 2
}

/// Compute `seeded_tempo` for a mode's base and variation.
pub fn tempo_with(base: i32, variation: i32, seed: u32) -> (r: i32)
    requires
        0 < variation <= 100,
        0 <= base <= 1000,
    ensures
        r == seeded_tempo(base as int, variation as int, seed),
{
    proof {
        lemma_tempo_bits(seed);
    }
    let v = ((seed >> 8) % (variation as u32)) as i32 - variation / 2;
    base + v
}

/// What a music mode decides, apart from how it sounds.
pub trait Plugin {
    /// The mode name.
    spec fn spec_mode(&self) -> Seq<char>;

    /// The melody scale, in semitones above the root.
    spec fn spec_scale(&self) -> Seq<u8>;

    /// The chord loop chosen by a seed.
    spec fn spec_chord_progression(&self, seed: u32) -> Seq<usize>;

    /// The tempo chosen by a seed.
    spec fn spec_tempo(&self, seed: u32) -> int;

    /// Whether the mode plays effects on the sfx stem.
    spec fn spec_has_sfx(&self) -> bool;

    /// Step `i` of the drum pattern drawn from an 8-byte seed.
    spec fn spec_drum_step(&self, seed: Seq<u8>, i: int) -> DrumStep;

    /// The song structure chosen by a seed (empty: no structure).
    spec fn spec_sections(&self, seed: u32) -> Seq<SectionDef>;

    /// Return the mode name
    fn mode(&self) -> (r: &'static str)
        ensures
            r@ == self.spec_mode(),
    ;

    /// Return the mode name as an owned string
    fn mode_string(&self) -> (r: String)
        ensures
            r@ == self.spec_mode(),
    ;

    /// Return the melody scale
    fn scale(&self) -> (r: [u8; 5])
        ensures
            r@ == self.spec_scale(),
    ;

    /// Generate a chord progression from a seed
    fn chord_progression_from_seed(&self, seed: u32) -> (r: Vec<usize>)
        ensures
            r@ == self.spec_chord_progression(seed),
    ;

    /// Generate a tempo from a seed
    fn tempo_from_seed(&self, seed: u32) -> (r: i32)
        ensures
            r as int == self.spec_tempo(seed),
    ;

    /// Whether this mode produces effects on the sfx stem.
    fn has_sfx(&self) -> (r: bool)
        ensures
            r == self.spec_has_sfx(),
    ;

    /// Build a 16-step drum pattern from an 8-byte seed.
    fn drum_pattern_from_seed(&self, seed: &[u8; 8]) -> (r: DrumPattern)
        ensures
            forall|i: int| 0 <= i < 16 ==> r.steps@[i] == self.spec_drum_step(seed@, i),
    ;

    /// The fixed section table of the mode; no mode has one.
    fn section_defs(&self) -> (r: Vec<SectionDef>)
        ensures
            r@.len() == 0,
    ;

    /// Generate the section table from the song seed.
    fn section_defs_from_seed(&self, seed: u32) -> (r: Vec<SectionDef>)
        ensures
            r@ == self.spec_sections(seed),
    ;
}

/// The built-in music modes.
#[derive(Debug, Clone, Copy, PartialEq, Eq)]
pub enum Mode {
    Chiptune,
    Lofi,
    Rock,
    Metal,
    Persian,
    Rap,
    Trap,
    Medieval,
    Koto,
    Toy,
    Samba,
}

impl Plugin for Mode {
    open spec fn spec_mode(&self) -> Seq<char> {
        match *self {
            Mode::Chiptune => ChiptunePlugin {}.spec_mode(),
            Mode::Lofi => LofiPlugin {}.spec_mode(),
            Mode::Rock => RockPlugin {}.spec_mode(),
            Mode::Metal => MetalPlugin {}.spec_mode(),
            Mode::Persian => PersianPlugin {}.spec_mode(),
            Mode::Rap => RapPlugin {}.spec_mode(),
            Mode::Trap => TrapPlugin {}.spec_mode(),
            Mode::Medieval => MedievalPlugin {}.spec_mode(),
            Mode::Koto => KotoPlugin {}.spec_mode(),
            Mode::Toy => ToyPlugin {}.spec_mode(),
            Mode::Samba => SambaPlugin {}.spec_mode(),
        }
    }

    open spec fn spec_scale(&self) -> Seq<u8> {
        match *self {
            Mode::Chiptune => ChiptunePlugin {}.spec_scale(),
            Mode::Lofi => LofiPlugin {}.spec_scale(),
            Mode::Rock => RockPlugin {}.spec_scale(),
            Mode::Metal => MetalPlugin {}.spec_scale(),
            Mode::Persian => PersianPlugin {}.spec_scale(),
            Mode::Rap => RapPlugin {}.spec_scale(),
            Mode::Trap => TrapPlugin {}.spec_scale(),
            Mode::Medieval => MedievalPlugin {}.spec_scale(),
            Mode::Koto => KotoPlugin {}.spec_scale(),
            Mode::Toy => ToyPlugin {}.spec_scale(),
            Mode::Samba => SambaPlugin {}.spec_scale(),
        }
    }

    open spec fn spec_chord_progression(&self, seed: u32) -> Seq<usize> {
        match *self {
            Mode::Chiptune => ChiptunePlugin {}.spec_chord_progression(seed),
            Mode::Lofi => LofiPlugin {}.spec_chord_progression(seed),
            Mode::Rock => RockPlugin {}.spec_chord_progression(seed),
            Mode::Metal => MetalPlugin {}.spec_chord_progression(seed),
            Mode::Persian => PersianPlugin {}.spec_chord_progression(seed),
            Mode::Rap => RapPlugin {}.spec_chord_progression(seed),
            Mode::Trap => TrapPlugin {}.spec_chord_progression(seed),
            Mode::Medieval => MedievalPlugin {}.spec_chord_progression(seed),
            Mode::Koto => KotoPlugin {}.spec_chord_progression(seed),
            Mode::Toy => ToyPlugin {}.spec_chord_progression(seed),
            Mode::Samba => SambaPlugin {}.spec_chord_progression(seed),
        }
    }

    open spec fn spec_tempo(&self, seed: u32) -> int {
        match *self {
            Mode::Chiptune => ChiptunePlugin {}.spec_tempo(seed),
            Mode::Lofi => LofiPlugin {}.spec_tempo(seed),
            Mode::Rock => RockPlugin {}.spec_tempo(seed),
            Mode::Metal => MetalPlugin {}.spec_tempo(seed),
            Mode::Persian => PersianPlugin {}.spec_tempo(seed),
            Mode::Rap => RapPlugin {}.spec_tempo(seed),
            Mode::Trap => TrapPlugin {}.spec_tempo(seed),
            Mode::Medieval => MedievalPlugin {}.spec_tempo(seed),
            Mode::Koto => KotoPlugin {}.spec_tempo(seed),
            Mode::Toy => ToyPlugin {}.spec_tempo(seed),
            Mode::Samba => SambaPlugin {}.spec_tempo(seed),
        }
    }

    open spec fn spec_has_sfx(&self) -> bool {
        *self == Mode::Chiptune
    }

    open spec fn spec_drum_step(&self, seed: Seq<u8>, i: int) -> DrumStep {
        match *self {
            Mode::Chiptune => ChiptunePlugin {}.spec_drum_step(seed, i),
            Mode::Lofi => LofiPlugin {}.spec_drum_step(seed, i),
            Mode::Rock => RockPlugin {}.spec_drum_step(seed, i),
            Mode::Metal => MetalPlugin {}.spec_drum_step(seed, i),
            Mode::Persian => PersianPlugin {}.spec_drum_step(seed, i),
            Mode::Rap => RapPlugin {}.spec_drum_step(seed, i),
            Mode::Trap => TrapPlugin {}.spec_drum_step(seed, i),
            Mode::Medieval => MedievalPlugin {}.spec_drum_step(seed, i),
            Mode::Koto => KotoPlugin {}.spec_drum_step(seed, i),
            Mode::Toy => ToyPlugin {}.spec_drum_step(seed, i),
            Mode::Samba => SambaPlugin {}.spec_drum_step(seed, i),
        }
    }

    open spec fn spec_sections(&self, seed: u32) -> Seq<SectionDef> {
        match *self {
            Mode::Chiptune => ChiptunePlugin {}.spec_sections(seed),
            _ => Seq::empty(),
        }
    }

    fn mode(&self) -> (r: &'static str) {
        match self {
            Mode::Chiptune => ChiptunePlugin {}.mode(),
            Mode::Lofi => LofiPlugin {}.mode(),
            Mode::Rock => RockPlugin {}.mode(),
            Mode::Metal => MetalPlugin {}.mode(),
            Mode::Persian => PersianPlugin {}.mode(),
            Mode::Rap => RapPlugin {}.mode(),
            Mode::Trap => TrapPlugin {}.mode(),
            Mode::Medieval => MedievalPlugin {}.mode(),
            Mode::Koto => KotoPlugin {}.mode(),
            Mode::Toy => ToyPlugin {}.mode(),
            Mode::Samba => SambaPlugin {}.mode(),
        }
    }

    fn mode_string(&self) -> (r: String) {
        match self {
            Mode::Chiptune => ChiptunePlugin {}.mode_string(),
            Mode::Lofi => LofiPlugin {}.mode_string(),
            Mode::Rock => RockPlugin {}.mode_string(),
            Mode::Metal => MetalPlugin {}.mode_string(),
            Mode::Persian => PersianPlugin {}.mode_string(),
            Mode::Rap => RapPlugin {}.mode_string(),
            Mode::Trap => TrapPlugin {}.mode_string(),
            Mode::Medieval => MedievalPlugin {}.mode_string(),
            Mode::Koto => KotoPlugin {}.mode_string(),
            Mode::Toy => ToyPlugin {}.mode_string(),
            Mode::Samba => SambaPlugin {}.mode_string(),
        }
    }

    fn scale(&self) -> (r: [u8; 5]) {
        match self {
            Mode::Chiptune => ChiptunePlugin {}.scale(),
            Mode::Lofi => LofiPlugin {}.scale(),
            Mode::Rock => RockPlugin {}.scale(),
            Mode::Metal => MetalPlugin {}.scale(),
            Mode::Persian => PersianPlugin {}.scale(),
            Mode::Rap => RapPlugin {}.scale(),
            Mode::Trap => TrapPlugin {}.scale(),
            Mode::Medieval => MedievalPlugin {}.scale(),
            Mode::Koto => KotoPlugin {}.scale(),
            Mode::Toy => ToyPlugin {}.scale(),
            Mode::Samba => SambaPlugin {}.scale(),
        }
    }

    fn chord_progression_from_seed(&self, seed: u32) -> (r: Vec<usize>) {
        match self {
            Mode::Chiptune => ChiptunePlugin {}.chord_progression_from_seed(seed),
            Mode::Lofi => LofiPlugin {}.chord_progression_from_seed(seed),
            Mode::Rock => RockPlugin {}.chord_progression_from_seed(seed),
            Mode::Metal => MetalPlugin {}.chord_progression_from_seed(seed),
            Mode::Persian => PersianPlugin {}.chord_progression_from_seed(seed),
            Mode::Rap => RapPlugin {}.chord_progression_from_seed(seed),
            Mode::Trap => TrapPlugin {}.chord_progression_from_seed(seed),
            Mode::Medieval => MedievalPlugin {}.chord_progression_from_seed(seed),
            Mode::Koto => KotoPlugin {}.chord_progression_from_seed(seed),
            Mode::Toy => ToyPlugin {}.chord_progression_from_seed(seed),
            Mode::Samba => SambaPlugin {}.chord_progression_from_seed(seed),
        }
    }

    fn tempo_from_seed(&self, seed: u32) -> (r: i32) {
        match self {
            Mode::Chiptune => ChiptunePlugin {}.tempo_from_seed(seed),
            Mode::Lofi => LofiPlugin {}.tempo_from_seed(seed),
            Mode::Rock => RockPlugin {}.tempo_from_seed(seed),
            Mode::Metal => MetalPlugin {}.tempo_from_seed(seed),
            Mode::Persian => PersianPlugin {}.tempo_from_seed(seed),
            Mode::Rap => RapPlugin {}.tempo_from_seed(seed),
            Mode::Trap => TrapPlugin {}.tempo_from_seed(seed),
            Mode::Medieval => MedievalPlugin {}.tempo_from_seed(seed),
            Mode::Koto => KotoPlugin {}.tempo_from_seed(seed),
            Mode::Toy => ToyPlugin {}.tempo_from_seed(seed),
            Mode::Samba => SambaPlugin {}.tempo_from_seed(seed),
        }
    }

    fn has_sfx(&self) -> (r: bool) {
        match self {
            Mode::Chiptune => ChiptunePlugin {}.has_sfx(),
            _ => false,
        }
    }

    fn drum_pattern_from_seed(&self, seed: &[u8; 8]) -> (r: DrumPattern) {
        match self {
            Mode::Chiptune => ChiptunePlugin {}.drum_pattern_from_seed(seed),
            Mode::Lofi => LofiPlugin {}.drum_pattern_from_seed(seed),
            Mode::Rock => RockPlugin {}.drum_pattern_from_seed(seed),
            Mode::Metal => MetalPlugin {}.drum_pattern_from_seed(seed),
            Mode::Persian => PersianPlugin {}.drum_pattern_from_seed(seed),
            Mode::Rap => RapPlugin {}.drum_pattern_from_seed(seed),
            Mode::Trap => TrapPlugin {}.drum_pattern_from_seed(seed),
            Mode::Medieval => MedievalPlugin {}.drum_pattern_from_seed(seed),
            Mode::Koto => KotoPlugin {}.drum_pattern_from_seed(seed),
            Mode::Toy => ToyPlugin {}.drum_pattern_from_seed(seed),
            Mode::Samba => SambaPlugin {}.drum_pattern_from_seed(seed),
        }
    }

    fn section_defs(&self) -> (r: Vec<SectionDef>) {
        Vec::new()
    }

    fn section_defs_from_seed(&self, seed: u32) -> (r: Vec<SectionDef>) {
        match self {
            Mode::Chiptune => ChiptunePlugin {}.section_defs_from_seed(seed),
            Mode::Lofi => LofiPlugin {}.section_defs_from_seed(seed),
            Mode::Rock => RockPlugin {}.section_defs_from_seed(seed),
            Mode::Metal => MetalPlugin {}.section_defs_from_seed(seed),
            Mode::Persian => PersianPlugin {}.section_defs_from_seed(seed),
            Mode::Rap => RapPlugin {}.section_defs_from_seed(seed),
            Mode::Trap => TrapPlugin {}.section_defs_from_seed(seed),
            Mode::Medieval => MedievalPlugin {}.section_defs_from_seed(seed),
            Mode::Koto => KotoPlugin {}.section_defs_from_seed(seed),
            Mode::Toy => ToyPlugin {}.section_defs_from_seed(seed),
            Mode::Samba => SambaPlugin {}.section_defs_from_seed(seed),
        }
    }
}

} // verus!

verus! {

/// What every built-in mode guarantees: a tempo between 72 and 179 BPM, a
/// four-chord loop of scale degrees below five, and a song structure of at
/// most ten sections of 8 to 32 beats each.
pub proof fn lemma_mode_facts(m: Mode, seed: u32)
    ensures
        72 <= m.spec_tempo(seed) <= 179,
        m.spec_chord_progression(seed).len() == 4,
        forall|i: int| 0 <= i < 4 ==> #[trigger] m.spec_chord_progression(seed)[i] < 5,
        m.spec_scale().len() == 5,
        m.spec_sections(seed).len() <= 10,
        forall|i: int|
            0 <= i < m.spec_sections(seed).len() ==> 8 <= #[trigger] m.spec_sections(seed)[i].beats
                <= 32,
{
    let k = (seed as int) % 4;
    assert(0 <= k < 4);
    if m == Mode::Chiptune {
        let s = chiptune::chiptune_sections(seed);
        assert(forall|i: int| 0 <= i < s.len() ==> 8 <= #[trigger] s[i].beats <= 32);
    }
}

} // verus!

verus! {

/// The tempo range of each mode: chiptune 150–179, lofi 74–82, rock
/// 115–145, metal 140–175, persian 72–90, rap 84–99, trap 125–154, medieval
/// 80–100, koto 80–99, toy 95–114, samba 100–115 BPM.
pub proof fn lemma_tempo_ranges(seed: u32)
    ensures
        150 <= Mode::Chiptune.spec_tempo(seed) <= 179,
        74 <= Mode::Lofi.spec_tempo(seed) <= 82,
        115 <= Mode::Rock.spec_tempo(seed) <= 145,
        140 <= Mode::Metal.spec_tempo(seed) <= 175,
        72 <= Mode::Persian.spec_tempo(seed) <= 90,
        84 <= Mode::Rap.spec_tempo(seed) <= 99,
        125 <= Mode::Trap.spec_tempo(seed) <= 154,
        80 <= Mode::Medieval.spec_tempo(seed) <= 100,
        80 <= Mode::Koto.spec_tempo(seed) <= 99,
        95 <= Mode::Toy.spec_tempo(seed) <= 114,
        100 <= Mode::Samba.spec_tempo(seed) <= 115,
{
}

/// Every step of every mode's drum pattern carries its own place in the bar.
pub proof fn lemma_drum_offsets(m: Mode, seed: Seq<u8>, i: int)
    requires
        seed.len() == 8,
        0 <= i < 16,
    ensures
        m.spec_drum_step(seed, i).offset == i,
{
}

} // verus!

verus! {

/// Trap claps land on beats 2 and 4 (steps 4 and 12) and nowhere else, and
/// the one open hat rings on step 6 or step 14, whatever the seed.
pub proof fn lemma_trap_claps(seed: Seq<u8>, i: int)
    requires
        seed.len() == 8,
        0 <= i < 16,
    ensures
        Mode::Trap.spec_drum_step(seed, i).snare == (i == 4 || i == 12),
        Mode::Trap.spec_drum_step(seed, i).open_hat == (i == (if seed[5] % 2 == 1 { 6int } else { 14int })),
{
    assert(trap::TRAP_CLAP_ROW@[i] == (if i == 4 || i == 12 { 1u8 } else { 0u8 }));
}

/// The rap kick ("boom") always lands on beat 1.
pub proof fn lemma_rap_boom_on_one(seed: Seq<u8>)
    requires
        seed.len() == 8,
    ensures
        Mode::Rap.spec_drum_step(seed, 0).kick,
{
    let k = (seed[0] % 3) as int;
    assert(rap::RAP_KICK_PATTERNS@[k]@[0] == 1u8);
}

/// The samba surdo always plays beats 2 and 4 (steps 4 and 12).
pub proof fn lemma_samba_surdo(seed: Seq<u8>)
    requires
        seed.len() == 8,
    ensures
        Mode::Samba.spec_drum_step(seed, 4).kick,
        Mode::Samba.spec_drum_step(seed, 12).kick,
{
    let k = (seed[0] % 3) as int;
    assert(samba::SAMBA_KICK_PATTERNS@[k]@[4] == 1u8);
    assert(samba::SAMBA_KICK_PATTERNS@[k]@[12] == 1u8);
}

} // verus!

verus! {

/// Each mode has a name of its own: two modes with the same name are the
/// same mode.
pub proof fn lemma_mode_names_distinct(a: Mode, b: Mode)
    requires
        a.spec_mode() == b.spec_mode(),
    ensures
        a == b,
{
    reveal_strlit("chiptune");
    reveal_strlit("lofi");
    reveal_strlit("rock");
    reveal_strlit("metal");
    reveal_strlit("persian");
    reveal_strlit("rap");
    reveal_strlit("trap");
    reveal_strlit("medieval");
    reveal_strlit("koto");
    reveal_strlit("toy");
    reveal_strlit("samba");
    if a != b {
        let (x, y) = (a.spec_mode(), b.spec_mode());
        assert(x.len() != y.len() || x[0] != y[0] || x[1] != y[1] || x[2] != y[2]);
    }
}

} // verus!

verus! {

/// Every mode picks its chord loop by the seed's last two bits, from four
/// different four-chord loops that all start on the root: seeds that agree
/// in those two bits get the same loop, and seeds that differ in them get
/// different loops.
pub proof fn lemma_chord_loops(m: Mode, s1: u32, s2: u32)
    ensures
        m.spec_chord_progression(s1).len() == 4,
        m.spec_chord_progression(s1)[0] == 0,
        (m.spec_chord_progression(s1) == m.spec_chord_progression(s2)) == (s1 % 4 == s2 % 4),
{
    let p1 = m.spec_chord_progression(s1);
    let p2 = m.spec_chord_progression(s2);
    if s1 % 4 == s2 % 4 {
        assert(p1 == p2);
    } else {
        assert(p1[1] != p2[1] || p1[2] != p2[2] || p1[3] != p2[3]);
    }
}

/// The tempo of each mode, as the seed's bits 8 and up choose it: the
/// lowest tempo of the mode's range plus those bits taken modulo the number
/// of tempos in the range, so that consecutive values of those bits give
/// consecutive tempos, from chiptune 150–179, lofi 74–82, rock 115–145,
/// metal 140–175, persian 72–90, rap 84–99, trap 125–154, medieval 80–100,
/// koto 80–99, toy 95–114 and samba 100–115 BPM.
pub proof fn lemma_tempo_steps(seed: u32)
    ensures
        Mode::Chiptune.spec_tempo(seed) == 150 + (seed as int / 256) % 30,
        Mode::Lofi.spec_tempo(seed) == 74 + (seed as int / 256) % 9,
        Mode::Rock.spec_tempo(seed) == 115 + (seed as int / 256) % 31,
        Mode::Metal.spec_tempo(seed) == 140 + (seed as int / 256) % 36,
        Mode::Persian.spec_tempo(seed) == 72 + (seed as int / 256) % 19,
        Mode::Rap.spec_tempo(seed) == 84 + (seed as int / 256) % 16,
        Mode::Trap.spec_tempo(seed) == 125 + (seed as int / 256) % 30,
        Mode::Medieval.spec_tempo(seed) == 80 + (seed as int / 256) % 21,
        Mode::Koto.spec_tempo(seed) == 80 + (seed as int / 256) % 20,
        Mode::Toy.spec_tempo(seed) == 95 + (seed as int / 256) % 20,
        Mode::Samba.spec_tempo(seed) == 100 + (seed as int / 256) % 16,
{
}

} // verus!
