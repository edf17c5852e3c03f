//! Split melody notes into arpeggios over the tones of the current chord.

use vstd::prelude::*;

use crate::constants::{HARMONY_BASE, MELODY_BASE};
use crate::metadata::SongMetadata;
use crate::note::{MelodyNote, Note};
use crate::plugin::{Mode, Plugin};

verus! {

/// Order in which an arpeggio visits the chord tones.
#[derive(Debug, Clone, Copy, PartialEq, Eq)]
pub enum ArpeggioPattern {
    Up,
    Down,
    /// Ping-pong: 0, 1, …, N-1, N-2, …, 1, then again (endpoints not doubled).
    UpDown,
}

impl Default for ArpeggioPattern {
    fn default() -> (r: Self)
        ensures
            r == ArpeggioPattern::Up,
    {
        ArpeggioPattern::Up
    }
}

#[derive(Debug, Clone, Copy, PartialEq, Eq)]
pub struct ArpeggiatorConfig {
    /// How many sub-notes each melody note is split into (zero counts as one).
    pub subdivisions: u8,
    pub pattern: ArpeggioPattern,
}

impl Default for ArpeggiatorConfig {
    fn default() -> (r: Self)
        ensures
            r == (ArpeggiatorConfig { subdivisions: 0, pattern: ArpeggioPattern::Up }),
    {
        ArpeggiatorConfig { subdivisions: 0, pattern: ArpeggioPattern::Up }
    }
}

/// Expands each melody note into `subdivisions` shorter sub-notes cycling
/// through the active chord tones; bass notes pass through unchanged.
#[derive(Debug, Clone, Copy, PartialEq, Eq)]
pub struct Arpeggiator {
    config: ArpeggiatorConfig,
}

impl Default for Arpeggiator {
    fn default() -> (r: Self)
        ensures
            r.spec_config() == (ArpeggiatorConfig { subdivisions: 0, pattern: ArpeggioPattern::Up }),
    {
        Arpeggiator { config: ArpeggiatorConfig::default() }
    }
}

/// Which of `n` chord tones the `i`-th sub-note plays.
pub open spec fn tone_index_of(pattern: ArpeggioPattern, i: int, n: int) -> int {
    match pattern {
        ArpeggioPattern::Up => i % n,
        ArpeggioPattern::Down => (n - 1) - i % n,
        ArpeggioPattern::UpDown => {
            let cycle = (n - 1) * 2;
            let pos = i % cycle;
            if pos < n {
                pos
            } else {
                cycle - pos
            }
        },
    }
}

/// `x` clamped to the MIDI range.
pub open spec fn midi_of(x: int) -> i32 {
    crate::constants::clamp_midi(x) as i32
}

/// The `i`-th sub-note of a melody note split into `n` over the chord on
/// scale degree `chord_deg`.
pub open spec fn arpeggio_note(meta: SongMetadata, scale: Seq<u8>, note: MelodyNote, chord_deg: int, pattern: ArpeggioPattern, n: int, i: int) -> MelodyNote {
    let deg = (chord_deg + tone_index_of(pattern, i, 3)) % 5;
    let harm = if deg > 0 {
        deg - 1
    } else {
        4
    };
    MelodyNote {
        midi: midi_of(MELODY_BASE + meta.root_semitone + scale[deg] + note.octave * 12),
        harmony_midi: midi_of(HARMONY_BASE + meta.root_semitone + scale[harm] + note.octave * 12),
        duration_sixteenths: note.duration_sixteenths,
        subdivisions: (note.subdivisions * n) as u32,
        degree: deg as usize,
        octave: note.octave,
        byte_index: note.byte_index,
    }
}

/// Clamp a wide MIDI number to the MIDI range.
fn clamp_wide_midi(x: i64) -> (r: i32)
    ensures
        r == crate::constants::clamp_midi(x as int),
{
    if x < 21 {
        21
    } else if x > 108 {
        108
    } else {
        x as i32
    }
}

/// The notes a note becomes: a melody note split into `subdivisions` notes
/// (at least one) cycling through the chord's tones, a bass note unchanged.
pub open spec fn expanded(config: ArpeggiatorConfig, meta: SongMetadata, scale: Seq<u8>, note: Note, chord_pos: usize) -> Seq<Note> {
    match note {
        Note::Melody(m) => {
            let n = if config.subdivisions == 0 {
                1
            } else {
                config.subdivisions as int
            };
            Seq::new(
                n as nat,
                |i: int|
                    Note::Melody(
                        arpeggio_note(
                            meta,
                            scale,
                            m,
                            crate::note::chord_at(meta, chord_pos),
                            config.pattern,
                            n,
                            i,
                        ),
                    ),
            )
        },
        Note::Bass(_) => seq![note],
    }
}

/// The notes a run of notes becomes, the `k`-th note at chord count
/// `chord_positions[k]`: each note expanded in turn, concatenated.
pub open spec fn expanded_all(config: ArpeggiatorConfig, meta: SongMetadata, scale: Seq<u8>, notes: Seq<Note>, chord_positions: Seq<usize>) -> Seq<Note>
    decreases notes.len(),
{
    if notes.len() == 0 {
        seq![]
    } else {
        expanded_all(config, meta, scale, notes.drop_last(), chord_positions.take(notes.len() - 1))
            + expanded(config, meta, scale, notes.last(), chord_positions[notes.len() - 1])
    }
}

/// What `expand_note` asks of a note and the song it is played in.
pub open spec fn expandable(meta: SongMetadata, note: Note) -> bool {
    note matches Note::Melody(m) ==> {
        &&& meta.has_chords()
        &&& i32::MIN <= m.octave * 12 <= i32::MAX
        &&& m.subdivisions * 256 <= u32::MAX
    }
}

impl Arpeggiator {
    /// The configuration in force.
    pub closed spec fn spec_config(self) -> ArpeggiatorConfig {
        self.config
    }

    pub fn with_config(self, config: ArpeggiatorConfig) -> (r: Self)
        ensures
            r.spec_config() == config,
    {
        Self { config }
    }

    pub fn config(&self) -> (r: &ArpeggiatorConfig)
        ensures
            *r == self.spec_config(),
    {
        &self.config
    }

    pub fn set_config(&mut self, config: ArpeggiatorConfig)
        ensures
            final(self).spec_config() == config,
    {
        self.config = config;
    }

    /// Which of `num_tones` chord tones the `i`-th sub-note plays.
    pub fn tone_index(&self, i: usize, num_tones: usize) -> (r: usize)
        requires
            num_tones >= 1,
            self.spec_config().pattern == ArpeggioPattern::UpDown ==> 2 <= num_tones
                <= usize::MAX / 2,
        ensures
            r == tone_index_of(self.spec_config().pattern, i as int, num_tones as int),
            r < num_tones,
    {
        match self.config.pattern {
            ArpeggioPattern::Up => i % num_tones,
            ArpeggioPattern::Down => (num_tones - 1) - i % num_tones,
            ArpeggioPattern::UpDown => {
                // period = 2*(N-1): e.g. N=3 → 0,1,2,1, 0,1,2,1, …
                let cycle = (num_tones - 1) * 2;
                let pos = i % cycle;
                if pos < num_tones {
                    pos
                } else {
                    cycle - pos
                }
            },
        }
    }

    /// Expand a note whose chord count (melody time / beat / `CHORD_BEATS`,
    /// truncated) is `chord_pos`. Bass notes are kept unchanged.
    pub fn expand_note(&self, metadata: &SongMetadata, plugin: &Mode, note: &Note, chord_pos: usize) -> (r: Vec<Note>)
        requires
            note is Melody ==> metadata.has_chords(),
            note matches Note::Melody(m) ==> {
                &&& i32::MIN <= m.octave * 12 <= i32::MAX
                &&& m.subdivisions * 256 <= u32::MAX
            },
        ensures
            match *note {
                Note::Melody(m) => {
                    let n = if self.spec_config().subdivisions == 0 {
                        1
                    } else {
                        self.spec_config().subdivisions as int
                    };
                    &&& r@.len() == n
                    &&& forall|i: int|
                        0 <= i < n ==> #[trigger] r@[i] == Note::Melody(
                            arpeggio_note(
                                *metadata,
                                plugin.spec_scale(),
                                m,
                                crate::note::chord_at(*metadata, chord_pos),
                                self.spec_config().pattern,
                                n,
                                i,
                            ),
                        )
                },
                Note::Bass(_) => r@ == seq![*note],
            },
            r@ == expanded(self.spec_config(), *metadata, plugin.spec_scale(), *note, chord_pos),
    {
        match note {
            Note::Melody(m) => {
                let n: usize = if self.config.subdivisions == 0 {
                    1
                } else {
                    self.config.subdivisions as usize
                };
                let scale = plugin.scale();
                proof {
                    crate::plugin::lemma_mode_facts(*plugin, 0);
                }
                let chord_idx = chord_pos % metadata.chord_progression.len();
                let chord_deg = metadata.chord_progression[chord_idx];
                // Cycle through 3 consecutive scale degrees starting at the
                // chord root.
                let num_tones: usize = 3;
                let mut out: Vec<Note> = Vec::new();
                let mut i: usize = 0;
                while i < n
                    invariant
                        0 <= i <= n,
                        1 <= n <= 255,
                        n == (if self.spec_config().subdivisions == 0 {
                            1
                        } else {
                            self.spec_config().subdivisions as int
                        }),
                        scale@ == plugin.spec_scale(),
                        scale@.len() == 5,
                        num_tones == 3,
                        chord_deg == crate::note::chord_at(*metadata, chord_pos),
                        chord_deg < 5,
                        i32::MIN <= m.octave * 12 <= i32::MAX,
                        m.subdivisions * 256 <= u32::MAX,
                        out@.len() == i,
                        forall|j: int|
                            0 <= j < i ==> #[trigger] out@[j] == Note::Melody(
                                arpeggio_note(
                                    *metadata,
                                    plugin.spec_scale(),
                                    *m,
                                    chord_deg as int,
                                    self.spec_config().pattern,
                                    n as int,
                                    j,
                                ),
                            ),
                    decreases n - i,
                {
                    let offset = self.tone_index(i, num_tones);
                    let deg = (chord_deg + offset) % 5;
                    let harm_deg = if deg > 0 {
                        deg - 1
                    } else {
                        4
                    };
                    let shift = (m.octave * 12) as i64;
                    assert(m.subdivisions * n <= u32::MAX) by (nonlinear_arith)
                        requires
                            m.subdivisions * 256 <= u32::MAX,
                            n <= 255,
                    ;
                    let midi = clamp_wide_midi(
                        MELODY_BASE as i64 + metadata.root_semitone as i64 + scale[deg] as i64 + shift,
                    );
                    let harmony_midi = clamp_wide_midi(
                        HARMONY_BASE as i64 + metadata.root_semitone as i64 + scale[harm_deg] as i64
                            + shift,
                    );
                    out.push(
                        Note::Melody(
                            MelodyNote {
                                midi,
                                harmony_midi,
                                duration_sixteenths: m.duration_sixteenths,
                                subdivisions: m.subdivisions * (n as u32),
                                degree: deg,
                                octave: m.octave,
                                byte_index: m.byte_index,
                            },
                        ),
                    );
                    i += 1;
                }
                out
            },
            Note::Bass(_) => {
                let mut notes: Vec<Note> = Vec::new();
                notes.push(*note);
                notes
            },
        }
    }

    /// Expand a run of notes, the `k`-th at chord count `chord_positions[k]`,
    /// and concatenate what each becomes. Bass notes are kept unchanged.
    pub fn expand_notes(&self, metadata: &SongMetadata, plugin: &Mode, notes: &[Note], chord_positions: &[usize]) -> (r: Vec<Note>)
        requires
            notes@.len() == chord_positions@.len(),
            forall|k: int| 0 <= k < notes@.len() ==> expandable(*metadata, #[trigger] notes@[k]),
        ensures
            r@ == expanded_all(self.spec_config(), *metadata, plugin.spec_scale(), notes@, chord_positions@),
    {
        let mut out: Vec<Note> = Vec::new();
        let mut k: usize = 0;
        while k < notes.len()
            invariant
                0 <= k <= notes@.len(),
                notes@.len() == chord_positions@.len(),
                forall|j: int| 0 <= j < notes@.len() ==> expandable(*metadata, #[trigger] notes@[j]),
                out@ == expanded_all(
                    self.spec_config(),
                    *metadata,
                    plugin.spec_scale(),
                    notes@.take(k as int),
                    chord_positions@.take(k as int),
                ),
            decreases notes@.len() - k,
        {
            assert(expandable(*metadata, notes@[k as int]));
            let mut more = self.expand_note(metadata, plugin, &notes[k], chord_positions[k]);
            out.append(&mut more);
            proof {
                let ns = notes@.take(k + 1);
                let ps = chord_positions@.take(k + 1);
                assert(ns.drop_last() =~= notes@.take(k as int));
                assert(ps.take(ns.len() - 1) =~= chord_positions@.take(k as int));
                assert(ns.last() == notes@[k as int]);
                assert(ps[ns.len() - 1] == chord_positions@[k as int]);
            }
            k += 1;
        }
        assert(notes@.take(notes@.len() as int) =~= notes@);
        assert(chord_positions@.take(chord_positions@.len() as int) =~= chord_positions@);
        out
    }
}

/// The tone an arpeggio plays is always one of the chord's tones, and the
/// ping-pong pattern repeats every `2 * (n - 1)` sub-notes.
pub proof fn lemma_tone_index_bounds(pattern: ArpeggioPattern, i: nat, n: nat)
    requires
        n >= 1,
        pattern == ArpeggioPattern::UpDown ==> n >= 2,
    ensures
        0 <= tone_index_of(pattern, i as int, n as int) < n,
        pattern == ArpeggioPattern::UpDown ==> tone_index_of(pattern, i + 2 * (n - 1), n as int)
            == tone_index_of(pattern, i as int, n as int),
{
    if pattern == ArpeggioPattern::UpDown {
        let cycle = (n - 1) * 2;
        assert((i + cycle) % (cycle as int) == (i as int) % (cycle as int)) by (nonlinear_arith)
            requires
                cycle > 0,
        ;
    }
}


/// How the three arpeggio patterns walk `n` chord tones, sub-note by
/// sub-note: Up starts on the lowest tone and climbs one tone at a time,
/// wrapping; Down is Up mirrored, starting on the top tone and falling one
/// tone at a time, wrapping; UpDown climbs from the lowest tone to the top
/// one, then falls back towards the lowest without playing either end
/// twice.
pub proof fn lemma_arpeggio_directions(i: nat, n: nat)
    requires
        n >= 1,
    ensures
        tone_index_of(ArpeggioPattern::Up, 0, n as int) == 0,
        tone_index_of(ArpeggioPattern::Up, i + 1int, n as int) == (tone_index_of(ArpeggioPattern::Up, i as int, n as int) + 1) % (n as int),
        tone_index_of(ArpeggioPattern::Down, i as int, n as int) == n - 1 - tone_index_of(ArpeggioPattern::Up, i as int, n as int),
        tone_index_of(ArpeggioPattern::Down, 0, n as int) == n - 1,
        tone_index_of(ArpeggioPattern::Down, i + 1int, n as int) == (tone_index_of(ArpeggioPattern::Down, i as int, n as int) + n - 1) % (n as int),
        n >= 2 && i < n ==> tone_index_of(ArpeggioPattern::UpDown, i as int, n as int) == i,
        n >= 2 && n <= i < 2 * n - 2 ==> tone_index_of(ArpeggioPattern::UpDown, i as int, n as int) == 2 * n - 2 - i,
{
    let ni = n as int;
    let ii = i as int;
    assert((ii + 1) % ni == (ii % ni + 1) % ni) by (nonlinear_arith)
        requires
            ni >= 1,
            ii >= 0,
    {
        vstd::arithmetic::div_mod::lemma_add_mod_noop(ii, 1, ni);
        if ni == 1 {
            assert((ii + 1) % 1 == 0);
            assert((ii % 1 + 1) % 1 == 0);
        }
    }
    assert(0int % ni == 0) by (nonlinear_arith)
        requires
            ni >= 1,
    ;
    let u = ii % ni;
    assert(0 <= u < ni) by (nonlinear_arith)
        requires
            ni >= 1,
            u == ii % ni,
    ;
    assert((ni - 1 - u + ni - 1) % ni == ni - 1 - (u + 1) % ni) by (nonlinear_arith)
        requires
            0 <= u < ni,
    {
        if u + 1 < ni {
            assert((ni - 1 - u + ni - 1) == (ni - 2 - u) + ni);
            vstd::arithmetic::div_mod::lemma_mod_add_multiples_vanish(ni - 2 - u, ni);
            vstd::arithmetic::div_mod::lemma_small_mod((ni - 2 - u) as nat, ni as nat);
            vstd::arithmetic::div_mod::lemma_small_mod((u + 1) as nat, ni as nat);
        } else {
            vstd::arithmetic::div_mod::lemma_small_mod((ni - 1) as nat, ni as nat);
            vstd::arithmetic::div_mod::lemma_mod_self_0(ni);
        }
    }
    if n >= 2 && i < 2 * n - 2 {
        let cycle = (ni - 1) * 2;
        assert(ii % cycle == ii) by {
            vstd::arithmetic::div_mod::lemma_small_mod(i, cycle as nat);
        }
    }
}

} // verus!

verus! {

/// What the sub-notes of an arpeggio are, for a melody note split `n` ways
/// over the chord on scale degree `chord_deg`: each plays one of the chord's
/// three tones (the chord root and the next two scale degrees, wrapping
/// round the five-note scale), the first sub-note of an upward arpeggio
/// being the chord root and that of a downward one its top tone; its pitch
/// is its scale degree above the song's root in the note's octave, with a
/// harmony an octave lower on the scale degree below (the top of the scale
/// below the bottom degree), both clamped to the MIDI range; each keeps the
/// note's length, octave and byte, and counts `n` times the note's
/// subdivisions.
pub proof fn lemma_arpeggio_sub_notes(
    meta: SongMetadata,
    scale: Seq<u8>,
    m: MelodyNote,
    chord_deg: int,
    pattern: ArpeggioPattern,
    n: int,
    i: int,
)
    requires
        0 <= chord_deg < 5,
        0 <= i,
    ensures
        ({
            let a = arpeggio_note(meta, scale, m, chord_deg, pattern, n, i);
            let d = a.degree as int;
            let below = if d > 0 { d - 1 } else { 4 };
            &&& d == chord_deg % 5 || d == (chord_deg + 1) % 5 || d == (chord_deg + 2) % 5
            &&& pattern == ArpeggioPattern::Up && i == 0 ==> d == chord_deg
            &&& pattern == ArpeggioPattern::Down && i == 0 ==> d == (chord_deg + 2) % 5
            &&& a.midi == crate::constants::clamp_midi(60 + meta.root_semitone + scale[d] + m.octave * 12)
            &&& a.harmony_midi == crate::constants::clamp_midi(48 + meta.root_semitone + scale[below] + m.octave * 12)
            &&& a.duration_sixteenths == m.duration_sixteenths
            &&& a.octave == m.octave
            &&& a.byte_index == m.byte_index
            &&& a.subdivisions == (m.subdivisions * n) as u32
        }),
{
    lemma_tone_index_bounds(pattern, i as nat, 3);
    lemma_arpeggio_directions(i as nat, 3);
    let t = tone_index_of(pattern, i, 3);
    assert(0 <= (chord_deg + t) % 5 < 5);
}

} // verus!
