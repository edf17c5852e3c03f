//! Incremental note construction: feed bytes as they arrive, poll for the
//! melody and bass notes they encode.
//!
//! Two bytes make a melody note (the first steers the melodic walk, the
//! second picks the length), the next byte makes a bass note, and for long
//! files some bytes after each bass note are skipped. Time is kept by the
//! caller, who tells each call where in the chord loop the melody and the
//! bass stand (see [`NoteContext`]).

use vstd::prelude::*;

use std::collections::VecDeque;

use crate::constants::{clamp_midi_note, BASS_BASE, DURATIONS, HARMONY_BASE, MELODY_BASE};
use crate::consumer::Consume;
use crate::metadata::SongMetadata;
use crate::plugin::{Mode, Plugin};

verus! {

/// Note for the melody. Its length is `duration_sixteenths` sixteenth notes
/// divided by `subdivisions`.
#[derive(Debug, Clone, Copy, PartialEq, Eq)]
pub struct MelodyNote {
    pub midi: i32,
    pub harmony_midi: i32,
    pub duration_sixteenths: u32,
    pub subdivisions: u32,
    pub degree: usize,
    pub octave: i32,
    pub byte_index: u64,
}

/// Note for the bass, `duration_sixteenths` sixteenth notes long.
#[derive(Debug, Clone, Copy, PartialEq, Eq)]
pub struct BassNote {
    pub midi: i32,
    pub duration_sixteenths: u32,
    pub byte_index: u64,
}

/// Either a melody or a bass note
#[derive(Debug, Clone, Copy, PartialEq, Eq)]
pub enum Note {
    Melody(MelodyNote),
    Bass(BassNote),
}

/// The melody note at MIDI 0 that lasts nothing.
pub open spec fn empty_melody_note() -> MelodyNote {
    MelodyNote {
        midi: 0,
        harmony_midi: 0,
        duration_sixteenths: 0,
        subdivisions: 1,
        degree: 0,
        octave: 0,
        byte_index: 0,
    }
}

impl Default for Note {
    fn default() -> (r: Self)
        ensures
            r == Note::Melody(empty_melody_note()),
    {
        Note::Melody(
            MelodyNote {
                midi: 0,
                harmony_midi: 0,
                duration_sixteenths: 0,
                subdivisions: 1,
                degree: 0,
                octave: 0,
                byte_index: 0,
            },
        )
    }
}

/// Which byte of a beat the reader expects next.
#[derive(Debug, Clone, Copy, PartialEq, Eq)]
pub enum ReaderState {
    MelodyUpperByte,
    MelodyLowerByte,
    BassByte,
    Skip(u64),
}

/// The melodic walk carried from one melody note to the next.
#[derive(Debug, Clone, Copy, PartialEq, Eq)]
pub struct MelodyWalkState {
    pub degree: isize,
    pub octave: i32,
    pub direction: isize,
}

impl Default for MelodyWalkState {
    fn default() -> (r: Self)
        ensures
            r == (MelodyWalkState { degree: 0, octave: 0, direction: 1 }),
    {
        MelodyWalkState { degree: 0, octave: 0, direction: 1 }
    }
}

/// A walk on a five-note scale: a degree of it, an octave shift of at most
/// one, and a direction of one step up or down.
pub open spec fn walk_wf(w: MelodyWalkState) -> bool {
    &&& 0 <= w.degree < 5
    &&& -1 <= w.octave <= 1
    &&& (w.direction == 1 || w.direction == -1)
}

/// Where the caller's clocks stand when the next note is made: the chord
/// counts (`time / beat / CHORD_BEATS`, truncated) of the melody and of the
/// bass, and whether the melody is within a beat and a half of the end of
/// its chord or within two beats of the end of its phrase.
#[derive(Debug, Clone, Copy, PartialEq, Eq)]
pub struct NoteContext {
    pub melody_chord_pos: usize,
    pub near_chord_end: bool,
    pub near_phrase_end: bool,
    pub bass_chord_pos: usize,
}

/// Everything a note generator remembers apart from the waiting bytes.
#[derive(Debug, Clone, Copy, PartialEq, Eq)]
pub struct GenState {
    pub position: u64,
    pub state: ReaderState,
    pub upper: u8,
    pub bass_step: u64,
    pub walk: MelodyWalkState,
}

/// Sign of `x`: -1, 0 or 1.
pub open spec fn signum(x: int) -> int {
    if x > 0 {
        1
    } else if x < 0 {
        -1
    } else {
        0
    }
}

/// The chord a chord count falls on.
pub open spec fn chord_at(meta: SongMetadata, pos: usize) -> int {
    meta.chord_progression@[(pos as int) % (meta.chord_progression@.len() as int)] as int
}

/// One step of the melodic walk: snap to the chord root at a chord
/// boundary, head for it at the end of a phrase, and otherwise move as the
/// upper byte says, folding into the next octave (at most one away) or
/// bouncing back at the edge.
pub open spec fn next_walk(w: MelodyWalkState, upper: u8, chord_deg: int, ctx: NoteContext) -> MelodyWalkState {
    if ctx.near_chord_end {
        MelodyWalkState { degree: chord_deg as isize, octave: 0, direction: w.direction }
    } else if ctx.near_phrase_end {
        let step = signum(chord_deg - w.degree);
        let d = w.degree + step;
        MelodyWalkState {
            degree: (if d < 0 {
                0
            } else if d > 4 {
                4
            } else {
                d
            }) as isize,
            octave: w.octave,
            direction: if step != 0 {
                step as isize
            } else {
                w.direction
            },
        }
    } else {
        let c = upper % 8;
        let delta: int = if c < 4 {
            w.direction as int
        } else if c < 6 {
            -w.direction
        } else if c == 6 {
            0
        } else {
            2 * w.direction
        };
        let dir: int = if 4 <= c < 6 {
            -w.direction
        } else {
            w.direction as int
        };
        let nd = w.degree + delta;
        if nd >= 5 {
            if w.octave < 1 {
                MelodyWalkState { degree: (nd - 5) as isize, octave: (w.octave + 1) as i32, direction: dir as isize }
            } else {
                MelodyWalkState { degree: 3, octave: w.octave, direction: -1isize }
            }
        } else if nd < 0 {
            if w.octave > -1 {
                MelodyWalkState { degree: (nd + 5) as isize, octave: (w.octave - 1) as i32, direction: dir as isize }
            } else {
                MelodyWalkState { degree: 1, octave: w.octave, direction: 1isize }
            }
        } else {
            MelodyWalkState { degree: nd as isize, octave: w.octave, direction: dir as isize }
        }
    }
}

/// The melody note sounded at walk position `w`.
pub open spec fn melody_note_of(meta: SongMetadata, scale: Seq<u8>, w: MelodyWalkState, lower: u8, byte_index: u64) -> MelodyNote {
    let harm = if w.degree > 0 {
        w.degree - 1
    } else {
        0
    };
    MelodyNote {
        midi: crate::constants::clamp_midi(
            MELODY_BASE + meta.root_semitone + scale[w.degree as int] + 12 * w.octave,
        ) as i32,
        harmony_midi: crate::constants::clamp_midi(
            HARMONY_BASE + meta.root_semitone + scale[harm] + 12 * w.octave,
        ) as i32,
        duration_sixteenths: DURATIONS@[(lower % 6) as int] as u32,
        subdivisions: 1,
        degree: w.degree as usize,
        octave: w.octave,
        byte_index,
    }
}

/// The bass note of a byte: the chord's colour tone when its low three bits
/// are clear, else the root on even bass steps and the fifth on odd ones.
pub open spec fn bass_note_of(meta: SongMetadata, scale: Seq<u8>, bass_step: u64, b: u8, chord_pos: usize, byte_index: u64) -> BassNote {
    let deg = chord_at(meta, chord_pos);
    let root = BASS_BASE + meta.root_semitone + scale[deg];
    let color = BASS_BASE + meta.root_semitone + scale[(deg + 1) % 5];
    let midi = if b % 8 == 0 {
        color
    } else if bass_step % 2 == 0 {
        root
    } else {
        root + 7
    };
    BassNote { midi: crate::constants::clamp_midi(midi) as i32, duration_sixteenths: 8, byte_index }
}

/// Read one byte: the new state and the note it completes, if any.
pub open spec fn feed(g: GenState, b: u8, meta: SongMetadata, scale: Seq<u8>, ctx: NoteContext) -> (GenState, Option<Note>) {
    let pos = (g.position + 1) as u64;
    match g.state {
        ReaderState::MelodyUpperByte => (
            GenState { position: pos, state: ReaderState::MelodyLowerByte, upper: b, ..g },
            None,
        ),
        ReaderState::MelodyLowerByte => {
            let w = next_walk(g.walk, g.upper, chord_at(meta, ctx.melody_chord_pos), ctx);
            (
                GenState { position: pos, state: ReaderState::BassByte, walk: w, ..g },
                Some(Note::Melody(melody_note_of(meta, scale, w, b, g.position))),
            )
        },
        ReaderState::BassByte => (
            GenState {
                position: pos,
                state: if meta.beat_skip_bytes == 0 {
                    ReaderState::MelodyUpperByte
                } else {
                    ReaderState::Skip(meta.beat_skip_bytes)
                },
                bass_step: (g.bass_step + 1) as u64,
                ..g
            },
            Some(
                Note::Bass(
                    bass_note_of(meta, scale, g.bass_step, b, ctx.bass_chord_pos, g.position),
                ),
            ),
        ),
        ReaderState::Skip(n) => (
            GenState {
                position: pos,
                state: if n > 1 {
                    ReaderState::Skip((n - 1) as u64)
                } else {
                    ReaderState::MelodyUpperByte
                },
                ..g
            },
            None,
        ),
    }
}

/// Read bytes until one completes a note: the new state, the note (none if
/// the bytes run out first) and how many bytes were read.
pub open spec fn run(g: GenState, bytes: Seq<u8>, meta: SongMetadata, scale: Seq<u8>, ctx: NoteContext) -> (GenState, Option<Note>, nat)
    decreases bytes.len(),
{
    if bytes.len() == 0 {
        (g, None, 0)
    } else {
        let (g2, ev) = feed(g, bytes[0], meta, scale, ctx);
        if ev is Some {
            (g2, ev, 1)
        } else {
            let (g3, ev3, c) = run(g2, bytes.drop_first(), meta, scale, ctx);
            (g3, ev3, c + 1)
        }
    }
}

/// Read up to `k` notes one after the other: the state after them, the
/// notes, and how many bytes were read.
pub open spec fn run_notes(g: GenState, bytes: Seq<u8>, meta: SongMetadata, scale: Seq<u8>, ctx: NoteContext, k: nat) -> (GenState, Seq<Note>, nat)
    decreases k,
{
    if k == 0 {
        (g, Seq::empty(), 0)
    } else {
        let (g1, ev, c) = run(g, bytes, meta, scale, ctx);
        match ev {
            None => (g1, Seq::empty(), c),
            Some(n) => {
                let (g2, ns, c2) = run_notes(g1, bytes.skip(c as int), meta, scale, ctx, (k - 1) as nat);
                (g2, seq![n] + ns, c + c2)
            },
        }
    }
}

/// Drives interleaved melody/bass note generation from a growable byte stream
#[derive(Debug)]
pub struct NoteGenerator {
    stream: VecDeque<u8>,
    position: u64,
    state: ReaderState,
    melody_upper_byte: u8,
    bass_step: u64,
    melody_state: MelodyWalkState,
}

/// The state of a generator that has read nothing.
pub open spec fn initial_gen_state() -> GenState {
    GenState {
        position: 0,
        state: ReaderState::MelodyUpperByte,
        upper: 0,
        bass_step: 0,
        walk: MelodyWalkState { degree: 0, octave: 0, direction: 1 },
    }
}

impl Default for NoteGenerator {
    fn default() -> (r: Self)
        ensures
            r.gen_state() == initial_gen_state(),
            r.stream().len() == 0,
    {
        NoteGenerator {
            stream: VecDeque::new(),
            position: 0,
            state: ReaderState::MelodyUpperByte,
            melody_upper_byte: 0,
            bass_step: 0,
            melody_state: MelodyWalkState { degree: 0, octave: 0, direction: 1 },
        }
    }
}

impl Clone for NoteGenerator {
    fn clone(&self) -> (r: Self)
        ensures
            r.stream() == self.stream(),
            r.gen_state() == self.gen_state(),
    {
        proof {
            use_type_invariant(self);
        }
        NoteGenerator {
            stream: self.stream.clone(),
            position: self.position,
            state: self.state,
            melody_upper_byte: self.melody_upper_byte,
            bass_step: self.bass_step,
            melody_state: self.melody_state,
        }
    }
}

impl Consume for NoteGenerator {
    type Item = u8;

    open spec fn buffered(&self) -> Seq<u8> {
        self.stream()
    }

    // Add a single byte to the buffer
    fn push(&mut self, byte: u8)
        ensures
            final(self).gen_state() == old(self).gen_state(),
    {
        proof {
            use_type_invariant(&*self);
        }
        let mut st: VecDeque<u8> = VecDeque::new();
        core::mem::swap(&mut st, &mut self.stream);
        st.push_back(byte);
        self.stream = st;
    }

    // Add bytes to the buffer
    fn extend(&mut self, bytes: &[u8])
        ensures
            final(self).gen_state() == old(self).gen_state(),
    {
        proof {
            use_type_invariant(&*self);
        }
        let mut st: VecDeque<u8> = VecDeque::new();
        core::mem::swap(&mut st, &mut self.stream);
        crate::consumer::deque_extend(&mut st, bytes);
        self.stream = st;
    }

    // Capacity of the byte buffer
    fn capacity(&self) -> (r: usize) {
        crate::consumer::deque_capacity(&self.stream)
    }

    // Length of the byte buffer
    fn len(&self) -> usize {
        self.stream.len()
    }

    // If the byte buffer is empty
    fn is_empty(&self) -> bool {
        self.stream.len() == 0
    }
}

/// Low three bits of a byte as a remainder.
pub proof fn lemma_low3(b: u8)
    ensures
        (b & 0x07u8 == 0u8) == (b % 8 == 0),
{
    assert((b & 0x07u8 == 0u8) == (b % 8 == 0)) by (bit_vector);
}

impl NoteGenerator {
    /// The walk stays on the scale, and every bass note took a byte.
    #[verifier::type_invariant]
    spec fn inv(self) -> bool {
        &&& walk_wf(self.melody_state)
        &&& self.bass_step <= self.position
    }

    /// Take the oldest waiting byte out of the buffer.
    fn pop_byte(&mut self) -> (r: Option<u8>)
        ensures
            old(self).stream@.len() == 0 ==> r is None && final(self).stream@ == old(self).stream@,
            old(self).stream@.len() > 0 ==> r == Some(old(self).stream@[0])
                && final(self).stream@ == old(self).stream@.drop_first(),
            final(self).position == old(self).position,
            final(self).state == old(self).state,
            final(self).melody_upper_byte == old(self).melody_upper_byte,
            final(self).bass_step == old(self).bass_step,
            final(self).melody_state == old(self).melody_state,
    {
        proof {
            use_type_invariant(&*self);
        }
        let mut st: VecDeque<u8> = VecDeque::new();
        core::mem::swap(&mut st, &mut self.stream);
        let r = st.pop_front();
        self.stream = st;
        r
    }

    /// The bytes waiting to be read.
    pub closed spec fn stream(&self) -> Seq<u8> {
        self.stream@
    }

    /// Everything else the generator remembers.
    pub closed spec fn gen_state(&self) -> GenState {
        GenState {
            position: self.position,
            state: self.state,
            upper: self.melody_upper_byte,
            bass_step: self.bass_step,
            walk: self.melody_state,
        }
    }

    /// How many bytes have been read so far.
    pub fn position(&self) -> (r: u64)
        ensures
            r == self.gen_state().position,
    {
        self.position
    }

    /// Generate the next note from the byte buffer, returning `None` if the
    /// buffer runs out first.
    pub fn note(&mut self, metadata: &SongMetadata, plugin: &Mode, ctx: &NoteContext) -> (r: Option<Note>)
        requires
            metadata.has_chords(),
            old(self).gen_state().position + old(self).stream().len() <= u64::MAX,
        ensures
            ({
                let (g, ev, c) = run(
                    old(self).gen_state(),
                    old(self).stream(),
                    *metadata,
                    plugin.spec_scale(),
                    *ctx,
                );
                &&& r == ev
                &&& final(self).gen_state() == g
                &&& c <= old(self).stream().len()
                &&& final(self).stream() == old(self).stream().skip(c as int)
            }),
            walk_wf(final(self).gen_state().walk),
            final(self).stream().len() <= old(self).stream().len(),
            r is None ==> final(self).stream().len() == 0,
            r is Some ==> final(self).stream().len() < old(self).stream().len(),
            r matches Some(Note::Melody(m)) ==> m.subdivisions == 1 && -1 <= m.octave <= 1,
            final(self).gen_state().position == old(self).gen_state().position + (old(self).stream().len() - final(self).stream().len()),
            final(self).gen_state().bass_step <= old(self).gen_state().bass_step + (old(self).stream().len() - final(self).stream().len()),
    {
        proof {
            use_type_invariant(&*self);
            lemma_run_facts(old(self).gen_state(), old(self).stream(), *metadata, plugin.spec_scale(), *ctx);
        }
        let scale = plugin.scale();
        let ghost g0 = self.gen_state();
        let ghost s0 = self.stream@;
        let ghost meta = *metadata;
        let ghost c = *ctx;
        let ghost mut k: nat = 0;
        loop
            invariant
                metadata.has_chords(),
                scale@ == plugin.spec_scale(),
                plugin.spec_scale().len() == 5,
                walk_wf(self.melody_state),
                old(self).gen_state() == g0,
                old(self).stream() == s0,
                meta == *metadata,
                c == *ctx,
                k <= s0.len(),
                self.stream@ == s0.skip(k as int),
                self.position == g0.position + k,
                g0.position + s0.len() <= u64::MAX,
                self.bass_step == g0.bass_step,
                g0.bass_step <= g0.position,
                run(g0, s0, meta, scale@, c).0 == run(self.gen_state(), self.stream@, meta, scale@, c).0,
                run(g0, s0, meta, scale@, c).1 == run(self.gen_state(), self.stream@, meta, scale@, c).1,
                run(g0, s0, meta, scale@, c).2 == run(self.gen_state(), self.stream@, meta, scale@, c).2 + k,
            decreases s0.len() - k,
        {
            proof {
                crate::plugin::lemma_mode_facts(*plugin, 0);
            }
            let ghost before = self.stream@;
            let byte = match self.pop_byte() {
                Some(b) => b,
                None => {
                    assert(self.stream@.len() == 0);
                    assert(run(self.gen_state(), self.stream@, meta, scale@, c) == (self.gen_state(), None::<Note>, 0nat));
                    assert(run(g0, s0, meta, scale@, c).0 == self.gen_state());
                    assert(run(g0, s0, meta, scale@, c).2 == k);
                    return None;
                },
            };
            let ghost g = self.gen_state();
            proof {
                assert(s0.skip(k as int).drop_first() =~= s0.skip(k as int + 1));
            }
            match self.state {
                ReaderState::MelodyUpperByte => {
                    self.melody_upper_byte = byte;
                    self.position += 1;
                    self.state = ReaderState::MelodyLowerByte;
                    proof {
                        k = k + 1;
                    }
                },
                ReaderState::MelodyLowerByte => {
                    let melody = self.melody_note(metadata, &scale, self.melody_upper_byte, byte, ctx);
                    self.position += 1;
                    self.state = ReaderState::BassByte;
                    proof {
                        assert(before[0] == byte);
                        assert(feed(g, byte, meta, scale@, c) == (self.gen_state(), Some(Note::Melody(melody))));
                        assert(run(g, before, meta, scale@, c) == (self.gen_state(), Some(Note::Melody(melody)), 1nat));
                    }
                    return Some(Note::Melody(melody));
                },
                ReaderState::BassByte => {
                    let bass = self.bass_note(metadata, &scale, byte, ctx);
                    self.position += 1;
                    self.bass_step += 1;
                    self.state = if metadata.beat_skip_bytes == 0 {
                        ReaderState::MelodyUpperByte
                    } else {
                        ReaderState::Skip(metadata.beat_skip_bytes)
                    };
                    proof {
                        assert(before[0] == byte);
                        assert(feed(g, byte, meta, scale@, c) == (self.gen_state(), Some(Note::Bass(bass))));
                        assert(run(g, before, meta, scale@, c) == (self.gen_state(), Some(Note::Bass(bass)), 1nat));
                    }
                    return Some(Note::Bass(bass));
                },
                ReaderState::Skip(n) => {
                    self.position += 1;
                    self.state = if n > 1 {
                        ReaderState::Skip(n - 1)
                    } else {
                        ReaderState::MelodyUpperByte
                    };
                    proof {
                        k = k + 1;
                    }
                },
            }
        }
    }

    /// Generate all notes from the byte buffer, all at the same clock.
    pub fn notes(&mut self, metadata: &SongMetadata, plugin: &Mode, ctx: &NoteContext) -> (r: Vec<Note>)
        requires
            metadata.has_chords(),
            old(self).gen_state().position + old(self).stream().len() <= u64::MAX,
        ensures
            ({
                let (g, ns, c) = run_notes(
                    old(self).gen_state(),
                    old(self).stream(),
                    *metadata,
                    plugin.spec_scale(),
                    *ctx,
                    old(self).stream().len(),
                );
                &&& r@ == ns
                &&& final(self).gen_state() == g
                &&& c == old(self).stream().len()
            }),
            final(self).stream().len() == 0,
            walk_wf(final(self).gen_state().walk),
            final(self).gen_state().position == old(self).gen_state().position + old(self).stream().len(),
    {
        proof {
            use_type_invariant(&*self);
        }
        let ghost g0 = self.gen_state();
        let ghost s0 = self.stream();
        let ghost big_k = s0.len();
        let ghost scale = plugin.spec_scale();
        let ghost mut k: nat = 0;
        let ghost mut used: nat = 0;
        let mut notes = Vec::new();
        loop
            invariant
                metadata.has_chords(),
                g0 == old(self).gen_state(),
                s0 == old(self).stream(),
                big_k == s0.len(),
                scale == plugin.spec_scale(),
                walk_wf(self.gen_state().walk),
                self.gen_state().position + self.stream().len() == old(self).gen_state().position + old(self).stream().len(),
                old(self).gen_state().position + old(self).stream().len() <= u64::MAX,
                used + self.stream().len() == s0.len(),
                k <= used,
                notes@.len() == k,
                ({
                    let (ga, nsa, ca) = run_notes(self.gen_state(), self.stream(), *metadata, scale, *ctx, (big_k - k) as nat);
                    run_notes(g0, s0, *metadata, scale, *ctx, big_k) == (ga, notes@ + nsa, used + ca)
                }),
            decreases self.stream().len(),
        {
            let ghost gb = self.gen_state();
            let ghost sb = self.stream();
            match self.note(metadata, plugin, ctx) {
                None => {
                    proof {
                        let (g1, ev, c) = run(gb, sb, *metadata, scale, *ctx);
                        assert(c == sb.len());
                        if big_k - k == 0 {
                            assert(sb.len() == 0);
                        }
                        assert(notes@ + Seq::<Note>::empty() =~= notes@);
                    }
                    return notes;
                },
                Some(n) => {
                    proof {
                        let (g1, ev, c) = run(gb, sb, *metadata, scale, *ctx);
                        assert(c >= 1);
                        assert(big_k - k > 0);
                        let (g2, ns, c2) = run_notes(g1, sb.skip(c as int), *metadata, scale, *ctx, (big_k - k - 1) as nat);
                        assert(notes@.push(n) + ns =~= notes@ + (seq![n] + ns));
                        k = k + 1;
                        used = used + c;
                    }
                    notes.push(n);
                },
            }
        }
    }

    /// Read notes into `notes` until it is full or the bytes run out; return
    /// how many were written.
    pub fn notes_buf(&mut self, metadata: &SongMetadata, plugin: &Mode, ctx: &NoteContext, notes: &mut [Note]) -> (r: usize)
        requires
            metadata.has_chords(),
            old(self).gen_state().position + old(self).stream().len() <= u64::MAX,
        ensures
            ({
                let (g, ns, c) = run_notes(
                    old(self).gen_state(),
                    old(self).stream(),
                    *metadata,
                    plugin.spec_scale(),
                    *ctx,
                    old(notes)@.len() as nat,
                );
                &&& r == ns.len()
                &&& final(notes)@.take(r as int) == ns
                &&& final(self).gen_state() == g
                &&& c <= old(self).stream().len()
                &&& final(self).stream() == old(self).stream().skip(c as int)
            }),
            r <= old(notes)@.len(),
            final(notes)@.len() == old(notes)@.len(),
            forall|i: int| r <= i < old(notes)@.len() ==> final(notes)@[i] == old(notes)@[i],
            walk_wf(final(self).gen_state().walk),
    {
        proof {
            use_type_invariant(&*self);
        }
        let ghost g0 = self.gen_state();
        let ghost s0 = self.stream();
        let ghost scale = plugin.spec_scale();
        let ghost mut used: nat = 0;
        let mut notes_written: usize = 0;
        let limit = notes.len();
        while notes_written < limit
            invariant
                limit == notes@.len(),
                notes@.len() == old(notes)@.len(),
                notes_written <= limit,
                forall|i: int| notes_written <= i < old(notes)@.len() ==> notes@[i] == old(notes)@[i],
                metadata.has_chords(),
                g0 == old(self).gen_state(),
                s0 == old(self).stream(),
                scale == plugin.spec_scale(),
                walk_wf(self.gen_state().walk),
                self.gen_state().position + self.stream().len() == old(self).gen_state().position + old(self).stream().len(),
                old(self).gen_state().position + old(self).stream().len() <= u64::MAX,
                used <= s0.len(),
                self.stream() == s0.skip(used as int),
                ({
                    let (ga, nsa, ca) = run_notes(self.gen_state(), self.stream(), *metadata, scale, *ctx, (limit - notes_written) as nat);
                    run_notes(g0, s0, *metadata, scale, *ctx, limit as nat) == (ga, notes@.take(notes_written as int) + nsa, used + ca)
                }),
            decreases limit - notes_written,
        {
            let ghost gb = self.gen_state();
            let ghost sb = self.stream();
            match self.note(metadata, plugin, ctx) {
                None => {
                    proof {
                        let (g1, ev, c) = run(gb, sb, *metadata, scale, *ctx);
                        assert(notes@.take(notes_written as int) + Seq::<Note>::empty() =~= notes@.take(notes_written as int));
                        assert(s0.skip(used as int).skip(c as int) =~= s0.skip((used + c) as int));
                    }
                    return notes_written;
                },
                Some(n) => {
                    proof {
                        let (g1, ev, c) = run(gb, sb, *metadata, scale, *ctx);
                        let (g2, ns, c2) = run_notes(g1, sb.skip(c as int), *metadata, scale, *ctx, (limit - notes_written - 1) as nat);
                        assert(s0.skip(used as int).skip(c as int) =~= s0.skip((used + c) as int));
                        used = used + c;
                    }
                    let ghost before = notes@;
                    notes[notes_written] = n;
                    proof {
                        let (g1, ev, c) = run(gb, sb, *metadata, scale, *ctx);
                        let (g2, ns, c2) = run_notes(g1, sb.skip(c as int), *metadata, scale, *ctx, (limit - notes_written - 1) as nat);
                        assert(notes@.take(notes_written + 1) =~= before.take(notes_written as int).push(n));
                        assert(before.take(notes_written as int).push(n) + ns =~= before.take(notes_written as int) + (seq![n] + ns));
                    }
                },
            }
            notes_written += 1;
        }
        proof {
            assert(notes@.take(notes_written as int) + Seq::<Note>::empty() =~= notes@.take(notes_written as int));
        }
        notes_written
    }

    /// Advance the melodic walk and make the melody note of a byte pair.
    fn melody_note(&mut self, metadata: &SongMetadata, scale: &[u8; 5], upper_byte: u8, lower_byte: u8, ctx: &NoteContext) -> (r: MelodyNote)
        requires
            metadata.has_chords(),
            walk_wf(old(self).melody_state),
        ensures
            final(self).melody_state == next_walk(
                old(self).melody_state,
                upper_byte,
                chord_at(*metadata, ctx.melody_chord_pos),
                *ctx,
            ),
            walk_wf(final(self).melody_state),
            r == melody_note_of(*metadata, scale@, final(self).melody_state, lower_byte, old(self).position),
            final(self).stream@ == old(self).stream@,
            final(self).position == old(self).position,
            final(self).state == old(self).state,
            final(self).melody_upper_byte == old(self).melody_upper_byte,
            final(self).bass_step == old(self).bass_step,
    {
        proof {
            use_type_invariant(&*self);
        }
        let duration_sixteenths = DURATIONS[(lower_byte as usize) % DURATIONS.len()] as u32;
        let chord_idx = ctx.melody_chord_pos % metadata.chord_progression.len();
        let chord_deg = metadata.chord_progression[chord_idx];
        let len: isize = 5;
        let mut w = self.melody_state;
        if ctx.near_chord_end {
            // Chord boundary: snap to chord root.
            w.degree = chord_deg as isize;
            w.octave = 0;
        } else if ctx.near_phrase_end {
            // Phrase end: steer degree back toward the chord root so each
            // phrase resolves before the next one begins.
            let target = chord_deg as isize;
            let diff = target - w.degree;
            let step: isize = if diff > 0 {
                1
            } else if diff < 0 {
                -1
            } else {
                0
            };
            w.direction = if step != 0 {
                step
            } else {
                w.direction
            };
            let d = w.degree + step;
            w.degree = if d < 0 {
                0
            } else if d > len - 1 {
                len - 1
            } else {
                d
            };
        } else {
            let step_choice = (upper_byte % 8) as u32;
            let delta = if step_choice < 4 {
                w.direction
            } else if step_choice < 6 {
                let dlt = -w.direction;
                w.direction = -w.direction;
                dlt
            } else if step_choice == 6 {
                0
            } else {
                w.direction * 2
            };

            let mut new_degree = w.degree + delta;

            // The step is at most two degrees, so one fold brings the degree
            // back onto the scale.
            if new_degree >= len {
                new_degree -= len;
                if w.octave < 1 {
                    w.octave += 1;
                } else {
                    new_degree = len - 2;
                    w.direction = -1;
                }
            } else if new_degree < 0 {
                new_degree += len;
                if w.octave > -1 {
                    w.octave -= 1;
                } else {
                    new_degree = 1;
                    w.direction = 1;
                }
            }

            w.degree = new_degree;
        }

        self.melody_state = w;
        let deg = w.degree as usize;
        let octave_shift = w.octave * 12;
        let midi = clamp_midi_note(
            MELODY_BASE + metadata.root_semitone as i32 + scale[deg] as i32 + octave_shift,
        );

        // Generate the harmony note
        let harm_degree = deg.saturating_sub(1);
        let harmony_midi = clamp_midi_note(
            HARMONY_BASE + metadata.root_semitone as i32 + scale[harm_degree] as i32 + octave_shift,
        );

        MelodyNote {
            midi,
            harmony_midi,
            duration_sixteenths,
            subdivisions: 1,
            degree: deg,
            octave: w.octave,
            byte_index: self.position,
        }
    }

    /// Make the bass note of a byte.
    fn bass_note(&self, metadata: &SongMetadata, scale: &[u8; 5], b: u8, ctx: &NoteContext) -> (r: BassNote)
        requires
            metadata.has_chords(),
        ensures
            r == bass_note_of(*metadata, scale@, self.bass_step, b, ctx.bass_chord_pos, self.position),
    {
        let chord_idx = ctx.bass_chord_pos % metadata.chord_progression.len();
        let chord_deg = metadata.chord_progression[chord_idx];

        let chord_root = BASS_BASE + metadata.root_semitone as i32 + scale[chord_deg] as i32;
        let chord_fifth = chord_root + 7;
        let chord_color = BASS_BASE + metadata.root_semitone as i32 + scale[(chord_deg + 1) % scale.len()] as i32;

        proof {
            lemma_low3(b);
        }
        let midi = if self.bass_step % 2 == 0 {
            if (b & 0x07) == 0 {
                chord_color
            } else {
                chord_root
            }
        } else if (b & 0x07) == 0 {
            chord_color
        } else {
            chord_fifth
        };

        BassNote { midi: clamp_midi_note(midi), duration_sixteenths: 8, byte_index: self.position }
    }
}

/// The walk stays on the scale.
pub proof fn lemma_next_walk_wf(w: MelodyWalkState, upper: u8, chord_deg: int, ctx: NoteContext)
    requires
        walk_wf(w),
        0 <= chord_deg < 5,
    ensures
        walk_wf(next_walk(w, upper, chord_deg, ctx)),
{
}

/// What reading up to the next note does to the counters: it reads at most
/// the bytes there are, all of them when no note comes, at least one when a
/// note comes; the position moves by the bytes read, the bass counter by at
/// most that, and the walk stays on the scale.
pub proof fn lemma_run_facts(g: GenState, bytes: Seq<u8>, meta: SongMetadata, scale: Seq<u8>, ctx: NoteContext)
    requires
        meta.has_chords(),
        walk_wf(g.walk),
        g.position + bytes.len() <= u64::MAX,
        g.bass_step <= g.position,
    ensures
        ({
            let (g2, ev, c) = run(g, bytes, meta, scale, ctx);
            &&& c <= bytes.len()
            &&& ev is None ==> c == bytes.len()
            &&& ev is Some ==> c >= 1
            &&& g2.position == g.position + c
            &&& g2.bass_step <= g.bass_step + c
            &&& g2.bass_step <= g.bass_step + 1
            &&& g2.bass_step <= g2.position
            &&& walk_wf(g2.walk)
            &&& (ev matches Some(Note::Melody(m)) ==> m.subdivisions == 1 && -1 <= m.octave <= 1)
        }),
    decreases bytes.len(),
{
    if bytes.len() > 0 {
        let ch = chord_at(meta, ctx.melody_chord_pos);
        assert(0 <= (ctx.melody_chord_pos as int) % (meta.chord_progression@.len() as int) < meta.chord_progression@.len());
        lemma_next_walk_wf(g.walk, g.upper, ch, ctx);
        let (g2, ev) = feed(g, bytes[0], meta, scale, ctx);
        if ev is None {
            lemma_run_facts(g2, bytes.drop_first(), meta, scale, ctx);
        }
    }
}

} // verus!

verus! {

/// Bytes may arrive in any chunks: reading up to the next note from `a`
/// followed by `b` gives the note `a` alone gives when `a` holds one, and
/// otherwise carries on into `b` from where `a` left the reader.
pub proof fn lemma_chunks_read_as_one(
    g: GenState,
    a: Seq<u8>,
    b: Seq<u8>,
    meta: SongMetadata,
    scale: Seq<u8>,
    ctx: NoteContext,
)
    ensures
        ({
            let (g1, ev1, c1) = run(g, a, meta, scale, ctx);
            let (g2, ev2, c2) = run(g1, b, meta, scale, ctx);
            &&& ev1 is Some ==> run(g, a + b, meta, scale, ctx) == (g1, ev1, c1)
            &&& ev1 is None ==> run(g, a + b, meta, scale, ctx) == (g2, ev2, c1 + c2)
        }),
    decreases a.len(),
{
    if a.len() > 0 {
        let (g0, ev0) = feed(g, a[0], meta, scale, ctx);
        assert((a + b)[0] == a[0]);
        assert((a + b).drop_first() =~= a.drop_first() + b);
        if ev0 is None {
            lemma_chunks_read_as_one(g0, a.drop_first(), b, meta, scale, ctx);
        }
    } else {
        assert(a + b =~= b);
    }
}

} // verus!

verus! {

/// What reading up to the next note reads, whatever the state: no more
/// than the bytes there are, all of them when no note comes, at least one
/// when a note comes.
pub(crate) proof fn lemma_run_counts(g: GenState, bytes: Seq<u8>, meta: SongMetadata, scale: Seq<u8>, ctx: NoteContext)
    ensures
        ({
            let (g2, ev, c) = run(g, bytes, meta, scale, ctx);
            &&& c <= bytes.len()
            &&& ev is None ==> c == bytes.len()
            &&& ev is Some ==> c >= 1
        }),
    decreases bytes.len(),
{
    if bytes.len() > 0 {
        let (g2, ev) = feed(g, bytes[0], meta, scale, ctx);
        if ev is None {
            lemma_run_counts(g2, bytes.drop_first(), meta, scale, ctx);
        }
    }
}

/// Reading notes until none comes: asking for more notes than there are
/// bytes changes nothing, since each note takes at least one byte.
proof fn lemma_run_notes_enough(
    g: GenState,
    bytes: Seq<u8>,
    meta: SongMetadata,
    scale: Seq<u8>,
    ctx: NoteContext,
    k1: nat,
    k2: nat,
)
    requires
        k1 >= bytes.len(),
        k2 >= bytes.len(),
    ensures
        run_notes(g, bytes, meta, scale, ctx, k1) == run_notes(g, bytes, meta, scale, ctx, k2),
    decreases k1,
{
    lemma_run_counts(g, bytes, meta, scale, ctx);
    if k1 > 0 && k2 > 0 {
        let (g1, ev, c) = run(g, bytes, meta, scale, ctx);
        if ev is Some {
            lemma_run_notes_enough(g1, bytes.skip(c as int), meta, scale, ctx, (k1 - 1) as nat, (k2 - 1) as nat);
        }
    }
}

/// Bytes may arrive in any chunks: reading every note out of `a`, then
/// every note out of `b` from where that left the reader, gives the notes
/// of `a + b` read in one go, in the same order, and leaves the reader in
/// the same state (position, melodic walk, bass counter) having read the
/// same number of bytes.
pub proof fn lemma_rounds_read_as_one(
    g: GenState,
    a: Seq<u8>,
    b: Seq<u8>,
    meta: SongMetadata,
    scale: Seq<u8>,
    ctx: NoteContext,
)
    ensures
        ({
            let (ga, na, ca) = run_notes(g, a, meta, scale, ctx, a.len());
            let (gb, nb, cb) = run_notes(ga, b, meta, scale, ctx, b.len());
            let (gab, nab, cab) = run_notes(g, a + b, meta, scale, ctx, (a + b).len());
            &&& nab == na + nb
            &&& gab == gb
            &&& cab == ca + cb
        }),
    decreases a.len(),
{
    lemma_chunks_read_as_one(g, a, b, meta, scale, ctx);
    lemma_run_counts(g, a, meta, scale, ctx);
    let k = (a + b).len();
    let (g1, ev1, c1) = run(g, a, meta, scale, ctx);
    if a.len() == 0 {
        assert(a + b =~= b);
    } else if ev1 is Some {
        let a2 = a.skip(c1 as int);
        assert((a + b).skip(c1 as int) =~= a2 + b);
        lemma_rounds_read_as_one(g1, a2, b, meta, scale, ctx);
        lemma_run_notes_enough(g1, a2 + b, meta, scale, ctx, (k - 1) as nat, (a2 + b).len());
        lemma_run_notes_enough(g1, a2, meta, scale, ctx, (a.len() - 1) as nat, a2.len());
        let (ga2, na2, ca2) = run_notes(g1, a2, meta, scale, ctx, a2.len());
        let (gb2, nb2, cb2) = run_notes(ga2, b, meta, scale, ctx, b.len());
        assert(seq![ev1->0] + (na2 + nb2) =~= (seq![ev1->0] + na2) + nb2);
    } else {
        lemma_run_counts(g1, b, meta, scale, ctx);
        let (g2, ev2, c2) = run(g1, b, meta, scale, ctx);
        if ev2 is Some {
            assert((a + b).skip((c1 + c2) as int) =~= b.skip(c2 as int));
            lemma_run_notes_enough(g2, b.skip(c2 as int), meta, scale, ctx, (k - 1) as nat, (b.len() - 1) as nat);
        }
    }
}

/// Reading from a skip: the bytes to skip are read, then reading carries on
/// from the start of the next beat.
pub(crate) proof fn lemma_skip_run(g: GenState, bytes: Seq<u8>, meta: SongMetadata, scale: Seq<u8>, ctx: NoteContext, n: u64)
    requires
        g.state == ReaderState::Skip(n),
        n >= 1,
        bytes.len() >= n,
        g.position + n <= u64::MAX,
    ensures
        ({
            let g1 = GenState { position: (g.position + n) as u64, state: ReaderState::MelodyUpperByte, ..g };
            let (g2, ev, c) = run(g1, bytes.skip(n as int), meta, scale, ctx);
            run(g, bytes, meta, scale, ctx) == (g2, ev, (c + n) as nat)
        }),
    decreases n,
{
    let (g0, ev0) = feed(g, bytes[0], meta, scale, ctx);
    if n == 1 {
        assert(bytes.drop_first() =~= bytes.skip(1));
    } else {
        lemma_skip_run(g0, bytes.drop_first(), meta, scale, ctx, (n - 1) as u64);
        assert(bytes.drop_first().skip(n - 1) =~= bytes.skip(n as int));
    }
}

/// When the next note from `g` is the next note from `g1` after `n` more
/// bytes, so are all the notes after it.
proof fn lemma_run_notes_shift(
    g: GenState,
    g1: GenState,
    bytes: Seq<u8>,
    n: nat,
    meta: SongMetadata,
    scale: Seq<u8>,
    ctx: NoteContext,
    k: nat,
)
    requires
        k >= 1,
        n <= bytes.len(),
        ({
            let (g2, ev, c) = run(g1, bytes.skip(n as int), meta, scale, ctx);
            run(g, bytes, meta, scale, ctx) == (g2, ev, c + n)
        }),
    ensures
        ({
            let (g3, ns, c) = run_notes(g1, bytes.skip(n as int), meta, scale, ctx, k);
            run_notes(g, bytes, meta, scale, ctx, k) == (g3, ns, c + n)
        }),
{
    lemma_run_counts(g1, bytes.skip(n as int), meta, scale, ctx);
    let (g2, ev, c) = run(g1, bytes.skip(n as int), meta, scale, ctx);
    assert(bytes.skip((c + n) as int) =~= bytes.skip(n as int).skip(c as int));
}

/// One beat of the stream, read note by note whatever the caller's clocks
/// say: from the start of a beat, the next note is a melody note on the
/// beat's second byte and takes two bytes; the note after it is a bass note
/// of two beats on the beat's third byte and takes one byte; the reader then
/// has the beat's skipped bytes ahead, or starts the next beat. The beat's
/// first byte steers the melodic walk over the melody's chord, its second
/// byte sets the melody note's length, and its third byte picks the bass
/// note over the bass's chord, on the next bass step.
pub proof fn lemma_beat_notes(
    g: GenState,
    bytes: Seq<u8>,
    meta: SongMetadata,
    scale: Seq<u8>,
    c1: NoteContext,
    c2: NoteContext,
)
    requires
        g.state == ReaderState::MelodyUpperByte,
        bytes.len() >= 3,
        g.position + 3 <= u64::MAX,
    ensures
        ({
            let (ga, ea, na) = run(g, bytes, meta, scale, c1);
            let (gb, eb, nb) = run(ga, bytes.skip(2), meta, scale, c2);
            &&& na == 2
            &&& ea matches Some(Note::Melody(m)) && m.byte_index == g.position + 1
            &&& ga.position == g.position + 2
            &&& nb == 1
            &&& eb matches Some(Note::Bass(bn)) && bn.byte_index == g.position + 2 && bn.duration_sixteenths == 8
            &&& gb.position == g.position + 3
            &&& gb.state == (if meta.beat_skip_bytes == 0 {
                ReaderState::MelodyUpperByte
            } else {
                ReaderState::Skip(meta.beat_skip_bytes)
            })
            &&& ga.walk == next_walk(g.walk, bytes[0], chord_at(meta, c1.melody_chord_pos), c1)
            &&& ea == Some(Note::Melody(melody_note_of(meta, scale, ga.walk, bytes[1], (g.position + 1) as u64)))
            &&& eb == Some(Note::Bass(bass_note_of(meta, scale, g.bass_step, bytes[2], c2.bass_chord_pos, (g.position + 2) as u64)))
            &&& gb.bass_step == (g.bass_step + 1) as u64
            &&& gb.walk == ga.walk
        }),
{
    let (g0, e0) = feed(g, bytes[0], meta, scale, c1);
    assert(bytes.drop_first()[0] == bytes[1]);
    let (g1, e1) = feed(g0, bytes[1], meta, scale, c1);
    assert(run(g0, bytes.drop_first(), meta, scale, c1) == (g1, e1, 1nat));
    assert(bytes.skip(2)[0] == bytes[2]);
}

/// A stream of whole beats, read from the start of a beat (as a fresh
/// generator stands), gives exactly two notes per beat and then none: for
/// beat `j`, note `2j` is a melody note on the beat's second byte and note
/// `2j + 1` a bass note of two beats on its third byte. Every byte is read,
/// and the reader ends at the start of a beat.
#[verifier::spinoff_prover]
pub proof fn lemma_beats_make_two_notes_each(
    g: GenState,
    bytes: Seq<u8>,
    meta: SongMetadata,
    scale: Seq<u8>,
    ctx: NoteContext,
    k: nat,
    fuel: nat,
)
    requires
        g.state == ReaderState::MelodyUpperByte,
        bytes.len() == (3 + meta.beat_skip_bytes) * k,
        g.position + bytes.len() <= u64::MAX,
        fuel >= 2 * k + 1,
    ensures
        ({
            let s = meta.beat_skip_bytes;
            let (g2, ns, c) = run_notes(g, bytes, meta, scale, ctx, fuel);
            &&& ns.len() == 2 * k
            &&& c == bytes.len()
            &&& g2.position == g.position + bytes.len()
            &&& g2.state == ReaderState::MelodyUpperByte
            &&& forall|i: int|
                #![trigger ns[i]]
                0 <= i < ns.len() ==> {
                    let at = g.position + (3 + s) * (i / 2);
                    if i % 2 == 0 {
                        ns[i] matches Note::Melody(m) && m.byte_index == at + 1
                    } else {
                        ns[i] matches Note::Bass(bn) && bn.byte_index == at + 2 && bn.duration_sixteenths == 8
                    }
                }
        }),
    decreases k,
{
    let s = meta.beat_skip_bytes;
    if k == 0 {
        assert(bytes.len() == 0) by (nonlinear_arith)
            requires
                bytes.len() == (3 + s) * k,
                k == 0,
        ;
    } else {
        assert(bytes.len() == 3 + s + (3 + s) * (k - 1)) by (nonlinear_arith)
            requires
                bytes.len() == (3 + s) * k,
                k >= 1,
        ;
        lemma_beat_notes(g, bytes, meta, scale, ctx, ctx);
        let (ga, ea, na) = run(g, bytes, meta, scale, ctx);
        let (gb, eb, nb) = run(ga, bytes.skip(2), meta, scale, ctx);
        let rest = bytes.skip(3);
        assert(bytes.skip(2).skip(1) =~= rest);
        let f2 = (fuel - 2) as nat;
        let gd = GenState { position: (gb.position + s) as u64, state: ReaderState::MelodyUpperByte, ..gb };
        let rest2 = rest.skip(s as int);
        assert(rest2.len() == (3 + s) * (k - 1));
        if s == 0 {
            assert(rest2 =~= rest);
            assert(gd == gb);
        } else {
            lemma_skip_run(gb, rest, meta, scale, ctx, s);
            lemma_run_notes_shift(gb, gd, rest, s as nat, meta, scale, ctx, f2);
        }
        lemma_beats_make_two_notes_each(gd, rest2, meta, scale, ctx, (k - 1) as nat, f2);
        let (g3, ns3, c3) = run_notes(gd, rest2, meta, scale, ctx, f2);
        let (g4, ns4, c4) = run_notes(ga, bytes.skip(2), meta, scale, ctx, (fuel - 1) as nat);
        assert(ns4 == seq![eb->0] + ns3);
        let (g5, ns5, c5) = run_notes(g, bytes, meta, scale, ctx, fuel);
        assert(ns5 == seq![ea->0] + ns4);
        assert forall|i: int| #![trigger ns5[i]] 0 <= i < ns5.len() implies {
            let at = g.position + (3 + s) * (i / 2);
            if i % 2 == 0 {
                ns5[i] matches Note::Melody(m) && m.byte_index == at + 1
            } else {
                ns5[i] matches Note::Bass(bn) && bn.byte_index == at + 2 && bn.duration_sixteenths == 8
            }
        } by {
            if i < 2 {
                assert((3 + s) * (i / 2) == 0) by (nonlinear_arith)
                    requires
                        0 <= i < 2,
                ;
                if i == 0 {
                    assert(ns5[0] == ea->0);
                } else {
                    assert(ns5[1] == eb->0);
                }
            } else {
                let i2 = i - 2;
                assert(ns5[i] == ns3[i2]);
                assert(i2 % 2 == i % 2);
                assert(i2 / 2 == i / 2 - 1);
                assert(gd.position == g.position + 3 + s);
                assert((3 + s) * (i / 2) == (3 + s) + (3 + s) * (i2 / 2)) by (nonlinear_arith)
                    requires
                        i2 / 2 == i / 2 - 1,
                ;
                assert(0 <= i2 < ns3.len());
            }
        }
    }
}

} // verus!

verus! {

/// How a bass byte becomes a note, in terms of the chord it falls on: a byte
/// whose low three bits are clear plays the chord's colour tone (the next
/// scale degree above the chord root); any other byte plays the chord root
/// on even bass steps and the fifth above it (seven semitones higher) on odd
/// ones, so the line alternates root and fifth. Pitches are then clamped to
/// the MIDI range, every bass note lasts two beats, and it carries the
/// position of its byte.
pub proof fn lemma_bass_root_and_fifth(meta: SongMetadata, scale: Seq<u8>, step: u64, b: u8, chord_pos: usize, byte_index: u64)
    ensures
        ({
            let deg = chord_at(meta, chord_pos);
            let root = BASS_BASE + meta.root_semitone + scale[deg];
            let n = bass_note_of(meta, scale, step, b, chord_pos, byte_index);
            &&& b % 8 == 0 ==> n.midi == crate::constants::clamp_midi(
                BASS_BASE + meta.root_semitone + scale[(deg + 1) % 5],
            )
            &&& b % 8 != 0 && step % 2 == 0 ==> n.midi == crate::constants::clamp_midi(root)
            &&& b % 8 != 0 && step % 2 == 1 ==> n.midi == crate::constants::clamp_midi(root + 7)
            &&& n.duration_sixteenths == 8
            &&& n.byte_index == byte_index
        }),
{
}

} // verus!

verus! {

/// Where the walk stands as one number: five scale steps to the octave.
pub open spec fn walk_height(w: MelodyWalkState) -> int {
    5 * w.octave + w.degree
}

/// How the melodic walk moves, note by note, with the melody's chord on
/// scale degree `chord_deg`:
/// - within a beat and a half of the chord's end, it lands on the chord
///   root in the middle octave, keeping its direction;
/// - else within two beats of the phrase's end, it takes one scale step
///   towards the chord root (staying put when already there) in the same
///   octave, and heads that way;
/// - otherwise the upper byte's low three bits choose the move: 0–3 one step
///   on in the current direction, 4–5 one step back and turn round, 6 stay,
///   7 two steps on; as long as that keeps it within the three octaves, the
///   walk's height (five steps an octave) moves by exactly that.
pub proof fn lemma_walk_moves(w: MelodyWalkState, upper: u8, chord_deg: int, ctx: NoteContext)
    requires
        walk_wf(w),
        0 <= chord_deg < 5,
    ensures
        ({
            let v = next_walk(w, upper, chord_deg, ctx);
            let c = upper % 8;
            let delta: int = if c < 4 {
                w.direction as int
            } else if c < 6 {
                -w.direction
            } else if c == 6 {
                0
            } else {
                2 * w.direction
            };
            &&& ctx.near_chord_end ==> v.degree == chord_deg && v.octave == 0 && v.direction == w.direction
            &&& !ctx.near_chord_end && ctx.near_phrase_end ==> {
                &&& v.octave == w.octave
                &&& w.degree == chord_deg ==> v.degree == w.degree && v.direction == w.direction
                &&& w.degree < chord_deg ==> v.degree == w.degree + 1 && v.direction == 1
                &&& w.degree > chord_deg ==> v.degree == w.degree - 1 && v.direction == -1
            }
            &&& !ctx.near_chord_end && !ctx.near_phrase_end && -5 <= walk_height(w) + delta < 10 ==> {
                &&& walk_height(v) == walk_height(w) + delta
                &&& v.direction == (if 4 <= c < 6 { -w.direction } else { w.direction as int })
            }
            &&& walk_wf(v)
        }),
{
    lemma_next_walk_wf(w, upper, chord_deg, ctx);
}

/// A melody note sounds its walk position: the scale degree above the song's
/// root in the walk's octave, with a harmony on the scale degree below (the
/// same degree at the bottom of the scale) an octave lower, both clamped to
/// the MIDI range; the lower byte picks its length, 2, 2, 4, 4, 4 or 8
/// sixteenths by its value modulo six, and it is not split.
pub proof fn lemma_melody_note_pitch(meta: SongMetadata, scale: Seq<u8>, w: MelodyWalkState, lower: u8, byte_index: u64)
    requires
        walk_wf(w),
    ensures
        ({
            let n = melody_note_of(meta, scale, w, lower, byte_index);
            let below = if w.degree > 0 { w.degree - 1 } else { 0 };
            &&& n.midi == crate::constants::clamp_midi(60 + meta.root_semitone + scale[w.degree as int] + 12 * w.octave)
            &&& n.harmony_midi == crate::constants::clamp_midi(
                48 + meta.root_semitone + scale[below] + 12 * w.octave,
            )
            &&& n.duration_sixteenths == (if lower % 6 < 2 { 2u32 } else if lower % 6 < 5 { 4u32 } else { 8u32 })
            &&& n.subdivisions == 1
            &&& n.degree == w.degree
            &&& n.octave == w.octave
            &&& n.byte_index == byte_index
        }),
{
    assert(DURATIONS@ =~= seq![2u8, 2, 4, 4, 4, 8]);
}

} // verus!

verus! {

/// The chord a chord count falls on runs through the song's chord loop in
/// order, one chord per count, and starts again after the last one.
pub proof fn lemma_chord_loop_order(meta: SongMetadata, k: usize, p: usize)
    requires
        meta.chord_progression@.len() > 0,
        k < meta.chord_progression@.len(),
        p + meta.chord_progression@.len() <= usize::MAX,
    ensures
        chord_at(meta, k) == meta.chord_progression@[k as int],
        chord_at(meta, (p + meta.chord_progression@.len()) as usize) == chord_at(meta, p),
{
    let n = meta.chord_progression@.len() as int;
    assert((k as int) % n == k as int) by (nonlinear_arith)
        requires
            0 <= k < n,
    ;
    assert((p + n) % n == (p as int) % n) by (nonlinear_arith)
        requires
            n > 0,
            p >= 0,
    ;
}

} // verus!
