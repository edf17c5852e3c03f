//! Where the melody and the bass stand in the song, counted in sixteenth
//! notes from its start, and what that says of the next note's place in the
//! chord loop and in the song form.

use vstd::prelude::*;

use crate::metadata::SongMetadata;
use crate::note::{
    lemma_beat_notes, lemma_chunks_read_as_one, lemma_run_counts, lemma_skip_run, run, GenState, Note,
    NoteContext, NoteGenerator, ReaderState,
};
use crate::plugin::{Mode, Plugin};

verus! {

/// Sixteenths in one chord of the loop (`CHORD_BEATS` beats of four).
pub const CHORD_SIXTEENTHS: u64 = 16;

/// `x` as a `usize`, the largest one where it does not fit.
pub open spec fn saturating_usize(x: int) -> usize {
    if x > usize::MAX {
        usize::MAX
    } else {
        x as usize
    }
}

/// `x + y`, the largest `u64` where it does not fit.
pub open spec fn saturating_u64(x: int, y: int) -> u64 {
    if x + y > u64::MAX {
        u64::MAX
    } else {
        (x + y) as u64
    }
}

/// The two voices' clocks, in sixteenths.
#[derive(Debug, Clone, Copy, PartialEq, Eq)]
pub struct NoteClock {
    pub melody: u64,
    pub bass: u64,
}

impl Default for NoteClock {
    fn default() -> (r: Self)
        ensures
            r == (NoteClock { melody: 0, bass: 0 }),
    {
        NoteClock::new()
    }
}

/// The chord count at `sixteenths`: whole chords gone by.
pub open spec fn chord_count_of(sixteenths: u64) -> usize {
    saturating_usize(sixteenths as int / 16)
}

/// Where the next note falls, with `chords` chords in the loop: the chord
/// counts of the melody and of the bass, whether less than a beat and a half
/// of the melody's chord is left, and whether less than two beats of its
/// pass through the chord loop (its phrase) are left.
pub open spec fn context_of(c: NoteClock, chords: int) -> NoteContext {
    NoteContext {
        melody_chord_pos: chord_count_of(c.melody),
        near_chord_end: 16 - c.melody % 16 < 6,
        near_phrase_end: chords > 0 && 16 * chords - (c.melody as int) % (16 * chords) < 8,
        bass_chord_pos: chord_count_of(c.bass),
    }
}

/// The clocks after `note` has sounded: its voice moves on by its length.
pub open spec fn advanced(c: NoteClock, note: Note) -> NoteClock {
    match note {
        Note::Melody(m) => NoteClock { melody: saturating_u64(c.melody as int, m.duration_sixteenths as int), ..c },
        Note::Bass(b) => NoteClock { bass: saturating_u64(c.bass as int, b.duration_sixteenths as int), ..c },
    }
}

impl NoteClock {
    /// Both voices at the start of the song.
    pub fn new() -> (r: Self)
        ensures
            r == (NoteClock { melody: 0, bass: 0 }),
    {
        NoteClock { melody: 0, bass: 0 }
    }

    /// Where the next note falls in the chord loop of `metadata`.
    pub fn context(&self, metadata: &SongMetadata) -> (r: NoteContext)
        ensures
            r == context_of(*self, metadata.chord_progression@.len() as int),
    {
        let chords = metadata.chord_progression.len() as u128;
        let in_chord = self.melody % CHORD_SIXTEENTHS;
        let near_phrase_end = if chords == 0 {
            false
        } else {
            let phrase = 16 * chords;
            phrase - (self.melody as u128) % phrase < 8
        };
        NoteContext {
            melody_chord_pos: saturate(self.melody / CHORD_SIXTEENTHS),
            near_chord_end: CHORD_SIXTEENTHS - in_chord < 6,
            near_phrase_end,
            bass_chord_pos: saturate(self.bass / CHORD_SIXTEENTHS),
        }
    }

    /// The melody's chord count: the chord its next note falls in, and the
    /// chord a melody note just read is split over.
    pub fn melody_chord_pos(&self) -> (r: usize)
        ensures
            r == chord_count_of(self.melody),
    {
        saturate(self.melody / CHORD_SIXTEENTHS)
    }

    /// Whole beats of melody gone by.
    pub fn melody_beat(&self) -> (r: u64)
        ensures
            r == self.melody / 4,
    {
        self.melody / 4
    }

    /// Move the clock of the voice that plays `note` on by the note's length.
    /// Pass notes as they are read, not the arpeggio notes they are split into.
    pub fn advance(&mut self, note: &Note)
        ensures
            *final(self) == advanced(*old(self), *note),
    {
        match note {
            Note::Melody(m) => {
                self.melody = self.melody.saturating_add(m.duration_sixteenths as u64);
            },
            Note::Bass(b) => {
                self.bass = self.bass.saturating_add(b.duration_sixteenths as u64);
            },
        }
    }
}

/// `x` as a `usize`, the largest one where it does not fit.
fn saturate(x: u64) -> (r: usize)
    ensures
        r == saturating_usize(x as int),
{
    if x as u128 > usize::MAX as u128 {
        usize::MAX
    } else {
        x as usize
    }
}


/// The place the next note falls at clock `c` in the chord loop of `meta`.
pub open spec fn place(c: NoteClock, meta: SongMetadata) -> NoteContext {
    context_of(c, meta.chord_progression@.len() as int)
}

/// Read up to `k` notes one after the other, each at the place the clock
/// gives it, the clock moving on by each note read: the reader's state and
/// the clock after them, the notes, and how many bytes were read.
pub open spec fn run_clocked(g: GenState, clock: NoteClock, bytes: Seq<u8>, meta: SongMetadata, scale: Seq<u8>, k: nat) -> (GenState, NoteClock, Seq<Note>, nat)
    decreases k,
{
    if k == 0 {
        (g, clock, Seq::empty(), 0)
    } else {
        let (g1, ev, c) = run(g, bytes, meta, scale, place(clock, meta));
        match ev {
            None => (g1, clock, Seq::empty(), c),
            Some(n) => {
                let (g2, cl2, ns, c2) = run_clocked(g1, advanced(clock, n), bytes.skip(c as int), meta, scale, (k - 1) as nat);
                (g2, cl2, seq![n] + ns, c + c2)
            },
        }
    }
}

impl NoteClock {
    /// Read every note waiting in `generator`, each at the place this clock
    /// gives it, and move the clock on by each note read.
    pub fn read_notes(&mut self, generator: &mut NoteGenerator, metadata: &SongMetadata, plugin: &Mode) -> (r: Vec<Note>)
        requires
            metadata.has_chords(),
            old(generator).gen_state().position + old(generator).stream().len() <= u64::MAX,
        ensures
            ({
                let (g, cl, ns, c) = run_clocked(
                    old(generator).gen_state(),
                    *old(self),
                    old(generator).stream(),
                    *metadata,
                    plugin.spec_scale(),
                    old(generator).stream().len(),
                );
                &&& r@ == ns
                &&& final(generator).gen_state() == g
                &&& *final(self) == cl
                &&& c == old(generator).stream().len()
            }),
            final(generator).stream().len() == 0,
            final(generator).gen_state().position == old(generator).gen_state().position + old(
                generator,
            ).stream().len(),
    {
        let ghost g0 = generator.gen_state();
        let ghost s0 = generator.stream();
        let ghost c0 = *self;
        let ghost big_k = s0.len();
        let ghost scale = plugin.spec_scale();
        let ghost mut k: nat = 0;
        let ghost mut used: nat = 0;
        let mut notes = Vec::new();
        loop
            invariant
                metadata.has_chords(),
                g0 == old(generator).gen_state(),
                s0 == old(generator).stream(),
                c0 == *old(self),
                big_k == s0.len(),
                scale == plugin.spec_scale(),
                generator.gen_state().position + generator.stream().len() == g0.position + s0.len(),
                g0.position + s0.len() <= u64::MAX,
                used + generator.stream().len() == s0.len(),
                k <= used,
                notes@.len() == k,
                ({
                    let (ga, cla, nsa, ca) = run_clocked(
                        generator.gen_state(),
                        *self,
                        generator.stream(),
                        *metadata,
                        scale,
                        (big_k - k) as nat,
                    );
                    run_clocked(g0, c0, s0, *metadata, scale, big_k) == (ga, cla, notes@ + nsa, used + ca)
                }),
            decreases generator.stream().len(),
        {
            let ghost gb = generator.gen_state();
            let ghost sb = generator.stream();
            let ghost cb = *self;
            let ctx = self.context(metadata);
            match generator.note(metadata, plugin, &ctx) {
                None => {
                    proof {
                        let (g1, ev, c) = run(gb, sb, *metadata, scale, ctx);
                        lemma_run_counts(gb, sb, *metadata, scale, ctx);
                        if big_k - k == 0 {
                            assert(sb.len() == 0);
                        }
                        assert(notes@ + Seq::<Note>::empty() =~= notes@);
                    }
                    return notes;
                },
                Some(n) => {
                    proof {
                        let (g1, ev, c) = run(gb, sb, *metadata, scale, ctx);
                        lemma_run_counts(gb, sb, *metadata, scale, ctx);
                        assert(c >= 1);
                        assert(big_k - k > 0);
                        let (g2, cl2, ns, c2) = run_clocked(
                            g1,
                            advanced(cb, n),
                            sb.skip(c as int),
                            *metadata,
                            scale,
                            (big_k - k - 1) as nat,
                        );
                        assert(notes@.push(n) + ns =~= notes@ + (seq![n] + ns));
                        k = k + 1;
                        used = used + c;
                    }
                    self.advance(&n);
                    notes.push(n);
                },
            }
        }
    }
}

/// Asking for more notes than there are bytes changes nothing.
proof fn lemma_run_clocked_enough(
    g: GenState,
    clock: NoteClock,
    bytes: Seq<u8>,
    meta: SongMetadata,
    scale: Seq<u8>,
    k1: nat,
    k2: nat,
)
    requires
        k1 >= bytes.len(),
        k2 >= bytes.len(),
    ensures
        run_clocked(g, clock, bytes, meta, scale, k1) == run_clocked(g, clock, bytes, meta, scale, k2),
    decreases k1,
{
    lemma_run_counts(g, bytes, meta, scale, place(clock, meta));
    if k1 > 0 && k2 > 0 {
        let (g1, ev, c) = run(g, bytes, meta, scale, place(clock, meta));
        if ev is Some {
            lemma_run_clocked_enough(
                g1,
                advanced(clock, ev->0),
                bytes.skip(c as int),
                meta,
                scale,
                (k1 - 1) as nat,
                (k2 - 1) as nat,
            );
        }
    }
}

/// Bytes may arrive in any chunks while the voices' clocks move on note by
/// note: reading every note out of `a`, then every note out of `b` from
/// where that left the reader and the clock, gives the notes of `a + b` read
/// in one go, in the same order, and leaves the reader and the clock in the
/// same state having read the same number of bytes.
pub proof fn lemma_clocked_rounds_read_as_one(
    g: GenState,
    clock: NoteClock,
    a: Seq<u8>,
    b: Seq<u8>,
    meta: SongMetadata,
    scale: Seq<u8>,
)
    ensures
        ({
            let (ga, cla, na, ca) = run_clocked(g, clock, a, meta, scale, a.len());
            let (gb, clb, nb, cb) = run_clocked(ga, cla, b, meta, scale, b.len());
            let (gab, clab, nab, cab) = run_clocked(g, clock, a + b, meta, scale, (a + b).len());
            &&& nab == na + nb
            &&& gab == gb
            &&& clab == clb
            &&& cab == ca + cb
        }),
    decreases a.len(),
{
    let ctx = place(clock, meta);
    lemma_chunks_read_as_one(g, a, b, meta, scale, ctx);
    lemma_run_counts(g, a, meta, scale, ctx);
    let k = (a + b).len();
    let (g1, ev1, c1) = run(g, a, meta, scale, ctx);
    if a.len() == 0 {
        assert(a + b =~= b);
    } else if ev1 is Some {
        let a2 = a.skip(c1 as int);
        let cl1 = advanced(clock, ev1->0);
        assert((a + b).skip(c1 as int) =~= a2 + b);
        lemma_clocked_rounds_read_as_one(g1, cl1, a2, b, meta, scale);
        lemma_run_clocked_enough(g1, cl1, a2 + b, meta, scale, (k - 1) as nat, (a2 + b).len());
        lemma_run_clocked_enough(g1, cl1, a2, meta, scale, (a.len() - 1) as nat, a2.len());
        let (ga2, cla2, na2, ca2) = run_clocked(g1, cl1, a2, meta, scale, a2.len());
        let (gb2, clb2, nb2, cb2) = run_clocked(ga2, cla2, b, meta, scale, b.len());
        assert(seq![ev1->0] + (na2 + nb2) =~= (seq![ev1->0] + na2) + nb2);
    } else {
        lemma_run_counts(g1, b, meta, scale, ctx);
        let (g2, ev2, c2) = run(g1, b, meta, scale, ctx);
        if ev2 is Some {
            assert((a + b).skip((c1 + c2) as int) =~= b.skip(c2 as int));
            lemma_run_clocked_enough(
                g2,
                advanced(clock, ev2->0),
                b.skip(c2 as int),
                meta,
                scale,
                (k - 1) as nat,
                (b.len() - 1) as nat,
            );
        }
    }
}

/// When the next note from `g` is the next note from `g1` after `n` more
/// bytes, at the clock's place, so are all the notes after it.
proof fn lemma_run_clocked_shift(
    g: GenState,
    g1: GenState,
    clock: NoteClock,
    bytes: Seq<u8>,
    n: nat,
    meta: SongMetadata,
    scale: Seq<u8>,
    k: nat,
)
    requires
        k >= 1,
        n <= bytes.len(),
        ({
            let (g2, ev, c) = run(g1, bytes.skip(n as int), meta, scale, place(clock, meta));
            run(g, bytes, meta, scale, place(clock, meta)) == (g2, ev, c + n)
        }),
    ensures
        ({
            let (g3, cl3, ns, c) = run_clocked(g1, clock, bytes.skip(n as int), meta, scale, k);
            run_clocked(g, clock, bytes, meta, scale, k) == (g3, cl3, ns, c + n)
        }),
{
    lemma_run_counts(g1, bytes.skip(n as int), meta, scale, place(clock, meta));
    let (g2, ev, c) = run(g1, bytes.skip(n as int), meta, scale, place(clock, meta));
    assert(bytes.skip((c + n) as int) =~= bytes.skip(n as int).skip(c as int));
}

/// What repeated reading with the voices' clocks moving on gives for a
/// stream of whole beats, read from the start of a beat (as a fresh
/// generator stands): exactly two notes per beat and then none. For beat
/// `j`, note `2j` is a melody note on the beat's second byte and note
/// `2j + 1` a bass note of two beats on its third byte. Every byte is read,
/// and the reader ends at the start of a beat.
#[verifier::spinoff_prover]
pub proof fn lemma_clocked_beats_make_two_notes_each(
    g: GenState,
    clock: NoteClock,
    bytes: Seq<u8>,
    meta: SongMetadata,
    scale: Seq<u8>,
    k: nat,
    fuel: nat,
)
    requires
        g.state == ReaderState::MelodyUpperByte,
        bytes.len() == (3 + meta.beat_skip_bytes) * k,
        g.position + bytes.len() <= u64::MAX,
        fuel >= 2 * k + 1,
    ensures
        ({
            let s = meta.beat_skip_bytes;
            let (g2, cl2, ns, c) = run_clocked(g, clock, bytes, meta, scale, fuel);
            &&& ns.len() == 2 * k
            &&& c == bytes.len()
            &&& g2.position == g.position + bytes.len()
            &&& g2.state == ReaderState::MelodyUpperByte
            &&& forall|i: int|
                #![trigger ns[i]]
                0 <= i < ns.len() ==> {
                    let at = g.position + (3 + s) * (i / 2);
                    if i % 2 == 0 {
                        ns[i] matches Note::Melody(m) && m.byte_index == at + 1
                    } else {
                        ns[i] matches Note::Bass(bn) && bn.byte_index == at + 2 && bn.duration_sixteenths == 8
                    }
                }
        }),
    decreases k,
{
    let s = meta.beat_skip_bytes;
    if k == 0 {
        assert(bytes.len() == 0) by (nonlinear_arith)
            requires
                bytes.len() == (3 + s) * k,
                k == 0,
        ;
    } else {
        assert(bytes.len() == 3 + s + (3 + s) * (k - 1)) by (nonlinear_arith)
            requires
                bytes.len() == (3 + s) * k,
                k >= 1,
        ;
        let c1 = place(clock, meta);
        lemma_beat_notes(g, bytes, meta, scale, c1, c1);
        let (ga, ea, na) = run(g, bytes, meta, scale, c1);
        let cla = advanced(clock, ea->0);
        let c2 = place(cla, meta);
        lemma_beat_notes(g, bytes, meta, scale, c1, c2);
        let (gb, eb, nb) = run(ga, bytes.skip(2), meta, scale, c2);
        let clb = advanced(cla, eb->0);
        let rest = bytes.skip(3);
        assert(bytes.skip(2).skip(1) =~= rest);
        let f2 = (fuel - 2) as nat;
        let gd = GenState { position: (gb.position + s) as u64, state: ReaderState::MelodyUpperByte, ..gb };
        let rest2 = rest.skip(s as int);
        assert(rest2.len() == (3 + s) * (k - 1));
        if s == 0 {
            assert(rest2 =~= rest);
            assert(gd == gb);
        } else {
            lemma_skip_run(gb, rest, meta, scale, place(clb, meta), s);
            lemma_run_clocked_shift(gb, gd, clb, rest, s as nat, meta, scale, f2);
        }
        lemma_clocked_beats_make_two_notes_each(gd, clb, rest2, meta, scale, (k - 1) as nat, f2);
        let (g3, cl3, ns3, c3) = run_clocked(gd, clb, rest2, meta, scale, f2);
        let (g4, cl4, ns4, c4) = run_clocked(ga, cla, bytes.skip(2), meta, scale, (fuel - 1) as nat);
        assert(ns4 == seq![eb->0] + ns3);
        let (g5, cl5, ns5, c5) = run_clocked(g, clock, bytes, meta, scale, fuel);
        assert(ns5 == seq![ea->0] + ns4);
        assert forall|i: int| #![trigger ns5[i]] 0 <= i < ns5.len() implies {
            let at = g.position + (3 + s) * (i / 2);
            if i % 2 == 0 {
                ns5[i] matches Note::Melody(m) && m.byte_index == at + 1
            } else {
                ns5[i] matches Note::Bass(bn) && bn.byte_index == at + 2 && bn.duration_sixteenths == 8
            }
        } by {
            if i < 2 {
                assert((3 + s) * (i / 2) == 0) by (nonlinear_arith)
                    requires
                        0 <= i < 2,
                ;
                if i == 0 {
                    assert(ns5[0] == ea->0);
                } else {
                    assert(ns5[1] == eb->0);
                }
            } else {
                let i2 = i - 2;
                assert(ns5[i] == ns3[i2]);
                assert(i2 % 2 == i % 2);
                assert(i2 / 2 == i / 2 - 1);
                assert(gd.position == g.position + 3 + s);
                assert((3 + s) * (i / 2) == (3 + s) + (3 + s) * (i2 / 2)) by (nonlinear_arith)
                    requires
                        i2 / 2 == i / 2 - 1,
                ;
                assert(0 <= i2 < ns3.len());
            }
        }
    }
}

} // verus!

verus! {

/// Where a clock places the next note, with `chords` chords in the loop
/// (16 sixteenths each): the chord count goes up by one every 16
/// sixteenths; the melody is near its chord's end in the chord's last five
/// sixteenths (less than a beat and a half left) and near its phrase's end
/// in the loop's last seven sixteenths (less than two beats left); and a
/// note moves on only its own voice's clock, by its length.
pub proof fn lemma_clock_places(c: NoteClock, chords: int, note: Note)
    requires
        chords > 0,
    ensures
        c.melody as int / 16 < usize::MAX ==> chord_count_of((c.melody + 16) as u64) == chord_count_of(c.melody) + 1
            || c.melody + 16 > u64::MAX,
        context_of(c, chords).near_chord_end == (c.melody % 16 >= 11),
        context_of(c, chords).near_phrase_end == ((c.melody as int) % (16 * chords) >= 16 * chords - 7),
        context_of(c, chords).bass_chord_pos == chord_count_of(c.bass),
        note matches Note::Melody(m) ==> advanced(c, note).bass == c.bass && (c.melody + m.duration_sixteenths
            <= u64::MAX ==> advanced(c, note).melody == c.melody + m.duration_sixteenths),
        note matches Note::Bass(b) ==> advanced(c, note).melody == c.melody && (c.bass + b.duration_sixteenths
            <= u64::MAX ==> advanced(c, note).bass == c.bass + b.duration_sixteenths),
{
    assert((c.melody as int + 16) / 16 == c.melody as int / 16 + 1) by (nonlinear_arith);
    let r = (c.melody as int) % (16 * chords);
    assert(0 <= r < 16 * chords) by (nonlinear_arith)
        requires
            chords > 0,
            r == (c.melody as int) % (16 * chords),
    ;
}

} // verus!
