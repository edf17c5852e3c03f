//! Song metadata derived from a seed and a byte length.

use vstd::prelude::*;

use crate::drum::DrumPattern;
use crate::plugin::{Mode, Plugin, SectionDef};

verus! {

/// Key, tempo, chords, drum loop, length and structure derived from a file seed.
#[derive(Debug)]
pub struct SongMetadata {
    pub seed: Vec<u8>,
    pub rng_seed: u64,
    pub root_semitone: u8,
    pub bpm: i32,
    pub chord_progression: Vec<usize>,
    pub chord_description: String,
    pub total_beats: u64,
    pub beat_skip_bytes: u64,
    pub data_byte_len: u64,
    pub drum_pattern: DrumPattern,
    pub drum_seed: [u8; 8],
    pub sections: Vec<SectionDef>,
}

} // verus!

verus! {

impl SongMetadata {
    /// A chord loop that notes can be drawn from: not empty, and every chord
    /// a degree of a five-note scale.
    pub open spec fn has_chords(&self) -> bool {
        &&& self.chord_progression@.len() > 0
        &&& forall|i: int|
            0 <= i < self.chord_progression@.len() ==> #[trigger] self.chord_progression@[i] < 5
    }
}

} // verus!

verus! {

/// Why metadata could not be generated.
#[derive(Debug, Clone, Copy, PartialEq, Eq)]
pub enum GenerateError {
    EmptyInput,
    InvalidSeed,
}

impl SongMetadata {
    /// `self` and `other` hold the same values, field by field.
    pub open spec fn same_as(&self, other: &SongMetadata) -> bool {
        &&& self.seed@ == other.seed@
        &&& self.rng_seed == other.rng_seed
        &&& self.root_semitone == other.root_semitone
        &&& self.bpm == other.bpm
        &&& self.chord_progression@ == other.chord_progression@
        &&& self.chord_description@ == other.chord_description@
        &&& self.total_beats == other.total_beats
        &&& self.beat_skip_bytes == other.beat_skip_bytes
        &&& self.data_byte_len == other.data_byte_len
        &&& self.drum_pattern == other.drum_pattern
        &&& self.drum_seed == other.drum_seed
        &&& self.sections@ == other.sections@
    }

    /// The metadata of no song: every field empty or zero.
    pub open spec fn is_empty(&self) -> bool {
        &&& self.seed@.len() == 0
        &&& self.rng_seed == 0
        &&& self.root_semitone == 0
        &&& self.bpm == 0
        &&& self.chord_progression@.len() == 0
        &&& self.chord_description@.len() == 0
        &&& self.total_beats == 0
        &&& self.beat_skip_bytes == 0
        &&& self.data_byte_len == 0
        &&& (forall|i: int| 0 <= i < 16 ==> self.drum_pattern.steps@[i] == crate::drum::silent_step())
        &&& self.drum_seed@ == seq![0u8, 0, 0, 0, 0, 0, 0, 0]
        &&& self.sections@.len() == 0
    }
}

impl Default for SongMetadata {
    fn default() -> (r: Self)
        ensures
            r.is_empty(),
    {
        let r = SongMetadata {
            seed: Vec::new(),
            rng_seed: 0,
            root_semitone: 0,
            bpm: 0,
            chord_progression: Vec::new(),
            chord_description: String::new(),
            total_beats: 0,
            beat_skip_bytes: 0,
            data_byte_len: 0,
            drum_pattern: DrumPattern::default(),
            drum_seed: [0u8; 8],
            sections: Vec::new(),
        };
        assert(r.drum_seed@ =~= seq![0u8, 0, 0, 0, 0, 0, 0, 0]);
        r
    }
}

impl Clone for SongMetadata {
    fn clone(&self) -> (r: Self)
        ensures
            r.same_as(self),
    {
        SongMetadata {
            seed: vstd::slice::slice_to_vec(self.seed.as_slice()),
            rng_seed: self.rng_seed,
            root_semitone: self.root_semitone,
            bpm: self.bpm,
            chord_progression: vstd::slice::slice_to_vec(self.chord_progression.as_slice()),
            chord_description: self.chord_description.clone(),
            total_beats: self.total_beats,
            beat_skip_bytes: self.beat_skip_bytes,
            data_byte_len: self.data_byte_len,
            drum_pattern: self.drum_pattern,
            drum_seed: self.drum_seed,
            sections: vstd::slice::slice_to_vec(self.sections.as_slice()),
        }
    }
}

/// Four bytes of `d` from `i` on, read as a big-endian number.
pub open spec fn be_u32(d: Seq<u8>, i: int) -> int {
    d[i] * 16777216 + d[i + 1] * 65536 + d[i + 2] * 256 + d[i + 3]
}

/// The seed of the root note, tempo and song structure: digest bytes 0–3.
pub open spec fn root_seed_of(d: Seq<u8>) -> u32 {
    be_u32(d, 0) as u32
}

/// The seed of the chord loop: digest bytes 4–7.
pub open spec fn chord_seed_of(d: Seq<u8>) -> u32 {
    be_u32(d, 4) as u32
}

/// The seed of the noise generator: digest bytes 12–15 below 2^31.
pub open spec fn rng_seed_of(d: Seq<u8>) -> u64 {
    (be_u32(d, 12) % 0x8000_0000) as u64
}

/// The seed of the drum pattern: digest bytes 8–15.
pub open spec fn drum_seed_of(d: Seq<u8>) -> Seq<u8> {
    d.subrange(8, 16)
}

/// How many beats fit in 150 seconds at `bpm` beats per minute, as the
/// double-precision quotient `150 / (60 / bpm)` truncates: `5 * bpm / 2`
/// rounded down, except at 174 BPM, where rounding gives 434.
pub open spec fn beat_budget(bpm: int) -> int {
    if bpm == 174 {
        434
    } else {
        (5 * bpm) / 2
    }
}

/// The beats of all sections together.
pub open spec fn sections_beats(s: Seq<SectionDef>) -> int
    decreases s.len(),
{
    if s.len() == 0 {
        0
    } else {
        sections_beats(s.drop_last()) + s.last().beats
    }
}

/// Beats the song lasts: its structure's length, or 150 seconds' worth for
/// a mode without structure, but never more than one beat per three bytes.
pub open spec fn desired_total_beats(plugin: Mode, d: Seq<u8>, len: u64) -> int {
    let secs = plugin.spec_sections(root_seed_of(d));
    let want = if secs.len() > 0 {
        sections_beats(secs)
    } else {
        beat_budget(plugin.spec_tempo(root_seed_of(d)))
    };
    let have = len as int / 3;
    if want < have {
        want
    } else {
        have
    }
}

/// Bytes consumed per beat: three, or `len / beats` when the song is cut
/// shorter than the data, so that the whole file is walked through.
pub open spec fn beat_stride(len: u64, beats: int) -> int {
    if beats < len as int / 3 {
        let q = len as int / beats;
        if q > 3 {
            q
        } else {
            3
        }
    } else {
        3
    }
}

/// `m` is the metadata that mode `plugin` derives from digest `d` for a
/// stream of `len` bytes.
#[verifier::opaque]
pub open spec fn is_metadata_for(m: SongMetadata, plugin: Mode, d: Seq<u8>, len: u64) -> bool {
    let root_seed = root_seed_of(d);
    &&& m.seed@ == d
    &&& m.rng_seed == rng_seed_of(d)
    &&& m.root_semitone == root_seed % 12
    &&& m.bpm == plugin.spec_tempo(root_seed)
    &&& m.chord_progression@ == plugin.spec_chord_progression(chord_seed_of(d))
    &&& m.chord_description@ == crate::text::chord_description_of(
        m.root_semitone,
        m.chord_progression@,
    )
    &&& m.total_beats == desired_total_beats(plugin, d, len)
    &&& m.beat_skip_bytes == beat_stride(len, m.total_beats as int) - 3
    &&& m.data_byte_len == len
    &&& (forall|i: int|
        0 <= i < 16 ==> m.drum_pattern.steps@[i] == plugin.spec_drum_step(drum_seed_of(d), i))
    &&& m.drum_seed@ == drum_seed_of(d)
    &&& m.sections@ == plugin.spec_sections(root_seed)
}

} // verus!

verus! {

/// The seed fields of metadata made for digest `d`.
proof fn lemma_metadata_seed_fields(m: SongMetadata, plugin: Mode, d: Seq<u8>, len: u64)
    requires
        is_metadata_for(m, plugin, d, len),
    ensures
        m.seed@ == d,
        m.rng_seed == rng_seed_of(d),
        m.root_semitone == root_seed_of(d) % 12,
        m.drum_seed@ == drum_seed_of(d),
        m.data_byte_len == len,
{
    reveal(is_metadata_for);
}

/// The tempo and chords of metadata made for digest `d`.
proof fn lemma_metadata_music_fields(m: SongMetadata, plugin: Mode, d: Seq<u8>, len: u64)
    requires
        is_metadata_for(m, plugin, d, len),
    ensures
        m.bpm == plugin.spec_tempo(root_seed_of(d)),
        m.chord_progression@ == plugin.spec_chord_progression(chord_seed_of(d)),
        m.chord_description@ == crate::text::chord_description_of(
            m.root_semitone,
            m.chord_progression@,
        ),
{
    reveal(is_metadata_for);
}

/// The length and structure of metadata made for digest `d`.
proof fn lemma_metadata_length_fields(m: SongMetadata, plugin: Mode, d: Seq<u8>, len: u64)
    requires
        is_metadata_for(m, plugin, d, len),
    ensures
        m.total_beats == desired_total_beats(plugin, d, len),
        m.beat_skip_bytes == beat_stride(len, m.total_beats as int) - 3,
        m.sections@ == plugin.spec_sections(root_seed_of(d)),
{
    reveal(is_metadata_for);
}

/// The drum pattern of metadata made for digest `d`.
proof fn lemma_metadata_drum_fields(m: SongMetadata, plugin: Mode, d: Seq<u8>, len: u64)
    requires
        is_metadata_for(m, plugin, d, len),
    ensures
        forall|i: int|
            0 <= i < 16 ==> #[trigger] m.drum_pattern.steps@[i] == plugin.spec_drum_step(
                drum_seed_of(d),
                i,
            ),
{
    reveal(is_metadata_for);
}

/// The same seed digest and length give the same song, field by field:
/// metadata is a function of the mode, the digest and the stream length.
pub proof fn lemma_metadata_deterministic(
    m1: SongMetadata,
    m2: SongMetadata,
    plugin: Mode,
    d: Seq<u8>,
    len: u64,
)
    requires
        is_metadata_for(m1, plugin, d, len),
        is_metadata_for(m2, plugin, d, len),
    ensures
        m1.same_as(&m2),
{
    assert(m1.seed@ == m2.seed@ && m1.rng_seed == m2.rng_seed && m1.root_semitone
        == m2.root_semitone && m1.data_byte_len == m2.data_byte_len && m1.drum_seed == m2.drum_seed) by {
        lemma_metadata_seed_fields(m1, plugin, d, len);
        lemma_metadata_seed_fields(m2, plugin, d, len);
        assert(m1.drum_seed =~= m2.drum_seed);
    }
    assert(m1.bpm == m2.bpm && m1.chord_progression@ == m2.chord_progression@
        && m1.chord_description@ == m2.chord_description@) by {
        lemma_metadata_music_fields(m1, plugin, d, len);
        lemma_metadata_music_fields(m2, plugin, d, len);
    }
    assert(m1.total_beats == m2.total_beats && m1.beat_skip_bytes == m2.beat_skip_bytes
        && m1.sections@ == m2.sections@) by {
        lemma_metadata_length_fields(m1, plugin, d, len);
        lemma_metadata_length_fields(m2, plugin, d, len);
    }
    assert(m1.drum_pattern == m2.drum_pattern) by {
        lemma_metadata_drum_fields(m1, plugin, d, len);
        lemma_metadata_drum_fields(m2, plugin, d, len);
        assert(m1.drum_pattern.steps =~= m2.drum_pattern.steps);
    }
}

/// Beats times the bytes each takes fit in `l` bytes.
proof fn lemma_stride_fits(len: u64, beats: int)
    requires
        0 <= beats <= len / 3,
        beats < len / 3 ==> beats >= 1,
    ensures
        beats * beat_stride(len, beats) <= len,
{
    let l = len as int;
    if beats < l / 3 {
        let q = l / beats;
        assert(beats * q <= l) by (nonlinear_arith)
            requires
                beats >= 1,
                q == l / beats,
                l >= 0,
        ;
        assert(3 * beats <= l);
    }
}

/// A song never reads more bytes than the stream holds: it has at most one
/// beat per three bytes, and its beats times the bytes each one takes (the
/// three it reads and those it skips) fit in the stream.
pub proof fn lemma_song_fits_stream(m: SongMetadata, plugin: Mode, d: Seq<u8>, len: u64)
    requires
        is_metadata_for(m, plugin, d, len),
    ensures
        m.total_beats <= len / 3,
        m.total_beats * (m.beat_skip_bytes + 3) <= len,
{
    let beats = m.total_beats as int;
    let l = len as int;
    assert(beats == desired_total_beats(plugin, d, len) && m.beat_skip_bytes == beat_stride(len, beats) - 3) by {
        reveal(is_metadata_for);
    }
    assert(beats <= l / 3 && (beats < l / 3 ==> beats >= 1)) by {
        let root_seed = root_seed_of(d);
        crate::plugin::lemma_mode_facts(plugin, root_seed);
        let secs = plugin.spec_sections(root_seed);
        if secs.len() > 0 {
            lemma_sections_beats_at_least(secs);
        }
    }
    lemma_stride_fits(len, beats);
}

/// Sections of at least eight beats make a structure of at least eight beats.
proof fn lemma_sections_beats_at_least(s: Seq<SectionDef>)
    requires
        s.len() > 0,
        forall|i: int| 0 <= i < s.len() ==> 8 <= #[trigger] s[i].beats,
    ensures
        sections_beats(s) >= 8,
    decreases s.len(),
{
    let t = s.drop_last();
    assert(8 <= s[s.len() - 1].beats);
    if s.len() > 1 {
        assert forall|i: int| 0 <= i < t.len() implies 8 <= #[trigger] t[i].beats by {
            assert(t[i] == s[i]);
        }
        lemma_sections_beats_at_least(t);
    }
}

/// A song lasts no longer than its mode's structure, or, for a mode without
/// one, than the beats of 150 seconds at its tempo.
pub proof fn lemma_song_length_capped(m: SongMetadata, plugin: Mode, d: Seq<u8>, len: u64)
    requires
        is_metadata_for(m, plugin, d, len),
    ensures
        m.sections@.len() > 0 ==> m.total_beats <= sections_beats(m.sections@),
        m.sections@.len() == 0 ==> m.total_beats <= beat_budget(m.bpm as int),
{
    reveal(is_metadata_for);
}

} // verus!

verus! {

/// Which digest bytes decide what, for metadata made from a 16-byte digest
/// `d`: the root note is the number in bytes 0–3 (big-endian) modulo
/// twelve; the tempo does not depend on byte 3; the chord loop is the one
/// the mode picks for byte 7 alone; the drum seed is bytes 8–15; the noise
/// seed is bytes 12–15 with the top bit dropped; the song keeps the digest
/// and the stream length.
pub proof fn lemma_metadata_digest_bytes(m: SongMetadata, plugin: Mode, d: Seq<u8>, len: u64)
    requires
        is_metadata_for(m, plugin, d, len),
        d.len() == 16,
    ensures
        m.seed@ == d,
        m.data_byte_len == len,
        m.root_semitone == (d[0] * 16777216 + d[1] * 65536 + d[2] * 256 + d[3]) % 12,
        m.bpm == plugin.spec_tempo(((d[0] * 65536 + d[1] * 256 + d[2]) * 256) as u32),
        m.chord_progression@ == plugin.spec_chord_progression(d[7] as u32),
        m.drum_seed@ == d.subrange(8, 16),
        m.rng_seed == (d[12] % 128) * 16777216 + d[13] * 65536 + d[14] * 256 + d[15],
{
    lemma_metadata_seed_fields(m, plugin, d, len);
    lemma_metadata_music_fields(m, plugin, d, len);
    let (a, b, c, e) = (d[0] as int, d[1] as int, d[2] as int, d[3] as int);
    let x = a * 65536 + b * 256 + c;
    assert(0 <= x < 16777216) by (nonlinear_arith)
        requires
            0 <= a < 256,
            0 <= b < 256,
            0 <= c < 256,
            x == a * 65536 + b * 256 + c,
    ;
    let r = be_u32(d, 0);
    assert(r == x * 256 + e);
    assert((x * 256 + e) / 256 == x && (x * 256) / 256 == x) by (nonlinear_arith)
        requires
            0 <= e < 256,
            0 <= x,
    ;
    assert(root_seed_of(d) as int == r);
    let t = (x * 256) as u32;
    assert(t as int == x * 256);
    assert(plugin.spec_tempo(root_seed_of(d)) == plugin.spec_tempo(t)) by {
        assert(root_seed_of(d) as int / 256 == t as int / 256);
        assert(plugin.spec_tempo(root_seed_of(d)) == plugin.spec_tempo(t));
    }
    let cs = be_u32(d, 4);
    assert(cs % 4 == d[7] % 4) by (nonlinear_arith)
        requires
            cs == d[4] * 16777216 + d[5] * 65536 + d[6] * 256 + d[7],
    ;
    assert(chord_seed_of(d) as int == cs);
    crate::plugin::lemma_chord_loops(plugin, chord_seed_of(d), d[7] as u32);
    let rs = be_u32(d, 12);
    assert(rs % 0x8000_0000 == (d[12] % 128) * 16777216 + d[13] * 65536 + d[14] * 256 + d[15]) by (nonlinear_arith)
        requires
            rs == d[12] * 16777216 + d[13] * 65536 + d[14] * 256 + d[15],
            0 <= d[12] < 256,
            0 <= d[13] < 256,
            0 <= d[14] < 256,
            0 <= d[15] < 256,
    ;
}

} // verus!

verus! {

/// A song walks through its whole stream: after its beats, each reading
/// three bytes and skipping the rest of its stride, fewer bytes are left
/// over than it has beats when it is cut shorter than its data, and fewer
/// than three when it is not (then it skips nothing): a short song spreads
/// its beats over all of the data rather than stopping early.
pub proof fn lemma_song_walks_whole_stream(m: SongMetadata, plugin: Mode, d: Seq<u8>, len: u64)
    requires
        is_metadata_for(m, plugin, d, len),
    ensures
        m.total_beats < len / 3 ==> len - m.total_beats * (m.beat_skip_bytes + 3) < m.total_beats,
        m.total_beats == len / 3 ==> m.beat_skip_bytes == 0 && len - m.total_beats * 3 < 3,
{
    let beats = m.total_beats as int;
    let l = len as int;
    assert(beats == desired_total_beats(plugin, d, len) && m.beat_skip_bytes == beat_stride(len, beats) - 3) by {
        reveal(is_metadata_for);
    }
    assert(beats <= l / 3 && (beats < l / 3 ==> beats >= 1)) by {
        let root_seed = root_seed_of(d);
        crate::plugin::lemma_mode_facts(plugin, root_seed);
        let secs = plugin.spec_sections(root_seed);
        if secs.len() > 0 {
            lemma_sections_beats_at_least(secs);
        }
    }
    if beats < l / 3 {
        let q = l / beats;
        assert(l - beats * q < beats && q >= 3) by (nonlinear_arith)
            requires
                beats >= 1,
                q == l / beats,
                l >= 0,
                3 * beats < l - 2,
        ;
        if q == 3 {
            assert(l - beats * 3 < beats);
        }
    } else {
        assert(beats == l / 3);
        assert(l - 3 * (l / 3) < 3) by (nonlinear_arith)
            requires
                l >= 0,
        ;
    }
}

} // verus!
