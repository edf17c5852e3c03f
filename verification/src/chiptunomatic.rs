//! The song engine: the registered modes, the song loaded from a seed, and
//! the decisions taken while a song plays (silence between sections, which
//! stems a section lets through, notes, arpeggios and drum steps).
//!
//! Sound itself is not made here: the caller turns the notes and drum hits
//! into samples and keeps the clocks, and hands back what the engine needs
//! to know of them (where in the chord loop the voices stand, which beat the
//! melody has reached).

use vstd::prelude::*;
use vstd::string::StringSliceAdditionalSpecFns;

use crate::arpeggio::Arpeggiator;
use crate::constants::SAMPLE_RATE;
use crate::consumer::Consume;
use crate::digest::md5_digest;
use crate::drum::{DrumHit, DrumSampler};
use crate::metadata::{GenerateError, SongMetadata};
use crate::note::{Note, NoteContext, NoteGenerator};
use crate::plugin::{Mode, Plugin, SectionDef, StemMask};
use crate::text::{build_chord_description, join_strings};

verus! {

/// Why a mode could not be selected.
#[derive(Debug, Clone, PartialEq, Eq)]
pub enum ChiptunomaticError {
    /// No mode has this name (for a list: none of them), given as written.
    InvalidMode(String),
}

/// Declares `std::io::Error`, the error of reading file metadata, so that
/// it can be carried in [`SongMetadataFromPathError`]; nothing inside it is
/// visible to proofs.
#[verifier::external_type_specification]
#[verifier::external_body]
pub struct ExIoError(std::io::Error);

/// Why metadata could not be made for a file.
#[derive(Debug)]
pub enum SongMetadataFromPathError {
    Io(std::io::Error),
    FileTooLarge,
    Generate(GenerateError),
}

/// The modes a list of names can enable, in the order they are offered.
pub open spec fn default_modes() -> Seq<Mode> {
    seq![
        Mode::Chiptune,
        Mode::Rock,
        Mode::Metal,
        Mode::Rap,
        Mode::Trap,
        Mode::Toy,
        Mode::Samba,
        Mode::Koto,
        Mode::Lofi,
    ]
}

/// Some name in `names` is the name of mode `m`.
pub open spec fn names_mode(names: Seq<Seq<char>>, m: Mode) -> bool {
    exists|j: int| 0 <= j < names.len() && names[j] == m.spec_mode()
}

/// The modes of `order` that `names` names, in the order of `order`.
pub open spec fn modes_named(order: Seq<Mode>, names: Seq<Seq<char>>) -> Seq<Mode>
    decreases order.len(),
{
    if order.len() == 0 {
        Seq::empty()
    } else {
        let rest = modes_named(order.drop_last(), names);
        if names_mode(names, order.last()) {
            rest.push(order.last())
        } else {
            rest
        }
    }
}

/// Some mode of `modes` has the name `name`.
pub open spec fn has_mode_named(modes: Seq<Mode>, name: Seq<char>) -> bool {
    exists|i: int| 0 <= i < modes.len() && modes[i].spec_mode() == name
}

/// `k` is the first place in `modes` of a mode named `name`.
pub open spec fn first_named(modes: Seq<Mode>, name: Seq<char>, k: int) -> bool {
    &&& 0 <= k < modes.len()
    &&& modes[k].spec_mode() == name
    &&& forall|j: int| 0 <= j < k ==> #[trigger] modes[j].spec_mode() != name
}

/// Generate chiptune music from bytes: the engine's state apart from sound.
#[derive(Debug)]
pub struct Chiptunomatic {
    plugins: Vec<Mode>,
    plugin: Mode,
    metadata: SongMetadata,
    sample_rate: u32,
    note_generator: NoteGenerator,
    arpeggiator: Arpeggiator,
    drum_sampler: DrumSampler,
    silence_remaining: u64,
    section_beat_cursor: u64,
    section_idx: usize,
}

impl Chiptunomatic {
    /// The registered modes, in order.
    pub closed spec fn spec_plugins(&self) -> Seq<Mode> {
        self.plugins@
    }

    /// The selected mode.
    pub closed spec fn spec_plugin(&self) -> Mode {
        self.plugin
    }

    /// The loaded song.
    pub closed spec fn spec_metadata(&self) -> SongMetadata {
        self.metadata
    }

    /// Samples per second of the output.
    pub closed spec fn spec_sample_rate(&self) -> u32 {
        self.sample_rate
    }

    /// The reader of the byte stream.
    pub closed spec fn spec_generator(&self) -> NoteGenerator {
        self.note_generator
    }

    /// The arpeggiator notes go through.
    pub closed spec fn spec_arpeggiator(&self) -> Arpeggiator {
        self.arpeggiator
    }

    /// The drum pattern and the step it is at.
    pub closed spec fn spec_drums(&self) -> DrumSampler {
        self.drum_sampler
    }

    /// Silent samples still owed after the last section.
    pub closed spec fn spec_silence(&self) -> u64 {
        self.silence_remaining
    }

    /// The beat at which the current section started.
    pub closed spec fn spec_section_cursor(&self) -> u64 {
        self.section_beat_cursor
    }

    /// How many sections have ended so far.
    pub closed spec fn spec_section_index(&self) -> usize {
        self.section_idx
    }

    /// The drum step counter stays inside the sixteen-step bar.
    pub closed spec fn wf(&self) -> bool {
        self.drum_sampler.spec_step() < 16
    }

    /// The same modes, registered and selected.
    pub open spec fn same_modes(&self, other: &Self) -> bool {
        &&& self.spec_plugins() == other.spec_plugins()
        &&& self.spec_plugin() == other.spec_plugin()
    }

    /// The same song and drum state.
    pub open spec fn same_song(&self, other: &Self) -> bool {
        &&& self.spec_metadata() == other.spec_metadata()
        &&& self.spec_drums() == other.spec_drums()
    }

    /// The same playback position, buffered bytes and settings.
    pub open spec fn same_playback(&self, other: &Self) -> bool {
        &&& self.spec_sample_rate() == other.spec_sample_rate()
        &&& self.spec_generator() == other.spec_generator()
        &&& self.spec_arpeggiator() == other.spec_arpeggiator()
        &&& self.spec_silence() == other.spec_silence()
        &&& self.spec_section_cursor() == other.spec_section_cursor()
        &&& self.spec_section_index() == other.spec_section_index()
    }
}

impl Default for Chiptunomatic {
    fn default() -> (r: Self)
        ensures
            r.wf(),
            r.spec_plugins() == seq![Mode::Chiptune],
            r.spec_plugin() == Mode::Chiptune,
            r.spec_metadata().is_empty(),
            r.spec_sample_rate() == SAMPLE_RATE,
            r.spec_generator().gen_state() == crate::note::initial_gen_state(),
            r.spec_generator().stream().len() == 0,
            r.spec_drums().spec_step() == 0,
            r.spec_silence() == 0,
            r.spec_section_cursor() == 0,
            r.spec_section_index() == 0,
    {
        let plugin = Mode::Chiptune;
        let mut plugins: Vec<Mode> = Vec::new();
        plugins.push(plugin);
        Chiptunomatic {
            plugins,
            plugin,
            metadata: SongMetadata::default(),
            sample_rate: SAMPLE_RATE,
            note_generator: NoteGenerator::default(),
            arpeggiator: Arpeggiator::default(),
            drum_sampler: DrumSampler::default(),
            silence_remaining: 0,
            section_beat_cursor: 0,
            section_idx: 0,
        }
    }
}

impl Clone for Chiptunomatic {
    fn clone(&self) -> (r: Self)
        ensures
            r.wf() == self.wf(),
            r.same_modes(self),
            r.spec_metadata().same_as(&self.spec_metadata()),
            r.spec_drums() == self.spec_drums(),
            r.spec_sample_rate() == self.spec_sample_rate(),
            r.spec_generator().gen_state() == self.spec_generator().gen_state(),
            r.spec_generator().stream() == self.spec_generator().stream(),
            r.spec_arpeggiator() == self.spec_arpeggiator(),
            r.spec_silence() == self.spec_silence(),
            r.spec_section_cursor() == self.spec_section_cursor(),
            r.spec_section_index() == self.spec_section_index(),
    {
        Chiptunomatic {
            plugins: vstd::slice::slice_to_vec(self.plugins.as_slice()),
            plugin: self.plugin,
            metadata: self.metadata.clone(),
            sample_rate: self.sample_rate,
            note_generator: self.note_generator.clone(),
            arpeggiator: self.arpeggiator,
            drum_sampler: self.drum_sampler,
            silence_remaining: self.silence_remaining,
            section_beat_cursor: self.section_beat_cursor,
            section_idx: self.section_idx,
        }
    }
}

/// Four digest bytes from `i` on, big-endian.
fn be_u32_at(d: &[u8; 16], i: usize) -> (r: u32)
    requires
        i + 4 <= 16,
    ensures
        r == crate::metadata::be_u32(d@, i as int),
{
    (d[i] as u32) * 16777216 + (d[i + 1] as u32) * 65536 + (d[i + 2] as u32) * 256 + (d[i
        + 3] as u32)
}

/// Beats in 150 seconds at `bpm`, as `150 / (60 / bpm)` computed in
/// double precision and truncated gives them.
fn beat_budget_of(bpm: i32) -> (r: u64)
    requires
        0 < bpm <= 1000,
    ensures
        r == crate::metadata::beat_budget(bpm as int),
{
    if bpm == 174 {
        434
    } else {
        ((5 * bpm) / 2) as u64
    }
}

/// Total length in beats of a song structure.
fn sum_section_beats(sections: &Vec<SectionDef>) -> (r: u64)
    requires
        sections@.len() <= 10,
        forall|i: int| 0 <= i < sections@.len() ==> #[trigger] sections@[i].beats <= 32,
    ensures
        r == crate::metadata::sections_beats(sections@),
{
    let mut sum: u64 = 0;
    let mut i: usize = 0;
    while i < sections.len()
        invariant
            sections@.len() <= 10,
            forall|k: int| 0 <= k < sections@.len() ==> #[trigger] sections@[k].beats <= 32,
            0 <= i <= sections@.len(),
            sum == crate::metadata::sections_beats(sections@.take(i as int)),
            sum <= 32 * i,
        decreases sections@.len() - i,
    {
        assert(sections@.take(i + 1).drop_last() =~= sections@.take(i as int));
        sum = sum + sections[i].beats;
        i += 1;
    }
    assert(sections@.take(i as int) =~= sections@);
    sum
}

/// A structure of sections of at least eight beats lasts at least eight beats.
proof fn lemma_sections_beats_positive(s: Seq<SectionDef>)
    requires
        s.len() > 0,
        forall|i: int| 0 <= i < s.len() ==> 8 <= #[trigger] s[i].beats,
    ensures
        crate::metadata::sections_beats(s) >= 8,
    decreases s.len(),
{
    let t = s.drop_last();
    assert(8 <= s[s.len() - 1].beats);
    if s.len() > 1 {
        assert forall|i: int| 0 <= i < t.len() implies 8 <= #[trigger] t[i].beats by {
            assert(t[i] == s[i]);
        }
        lemma_sections_beats_positive(t);
    }
}

/// The metadata that mode `plugin` makes of an MD5 digest for a stream of
/// `data_byte_len` bytes: key, tempo and structure from digest bytes 0–3,
/// chords from bytes 4–7, drums from bytes 8–15, noise seed from bytes 12–15.
pub fn song_metadata_from_digest(plugin: &Mode, digest: &[u8; 16], data_byte_len: u64) -> (r:
    SongMetadata)
    requires
        data_byte_len > 0,
    ensures
        crate::metadata::is_metadata_for(r, *plugin, digest@, data_byte_len),
        r.has_chords(),
{
    reveal(crate::metadata::is_metadata_for);
    let root_seed = be_u32_at(digest, 0);
    let chord_seed = be_u32_at(digest, 4);
    let rng_seed = (be_u32_at(digest, 12) % 0x8000_0000u32) as u64;
    let drum_seed: [u8; 8] = [
        digest[8],
        digest[9],
        digest[10],
        digest[11],
        digest[12],
        digest[13],
        digest[14],
        digest[15],
    ];
    proof {
        crate::plugin::lemma_mode_facts(*plugin, root_seed);
        crate::plugin::lemma_mode_facts(*plugin, chord_seed);
        assert(drum_seed@ =~= crate::metadata::drum_seed_of(digest@));
    }
    let root = (root_seed % 12) as u8;
    let bpm = plugin.tempo_from_seed(root_seed);

    // Beats the data can make at three bytes a beat.
    let total_beats = data_byte_len / 3;

    let sections = plugin.section_defs_from_seed(root_seed);

    // A song never lasts longer than its structure, or 150 seconds without one.
    let want = if sections.len() > 0 {
        proof {
            lemma_sections_beats_positive(sections@);
        }
        sum_section_beats(&sections)
    } else {
        beat_budget_of(bpm)
    };
    let desired_total_beats = if want < total_beats {
        want
    } else {
        total_beats
    };

    // A shorter song walks through the whole file by reading more bytes
    // per beat and skipping the extra ones.
    let desired_beat_byte_len = if desired_total_beats < total_beats {
        let q = data_byte_len / desired_total_beats;
        if q > 3 {
            q
        } else {
            3
        }
    } else {
        3
    };

    let chord_progression = plugin.chord_progression_from_seed(chord_seed);
    let drum_pattern = plugin.drum_pattern_from_seed(&drum_seed);
    let chord_description = build_chord_description(root, chord_progression.as_slice());

    SongMetadata {
        seed: vstd::slice::slice_to_vec(digest.as_slice()),
        rng_seed,
        root_semitone: root,
        bpm,
        chord_progression,
        chord_description,
        total_beats: desired_total_beats,
        beat_skip_bytes: desired_beat_byte_len - 3,
        data_byte_len,
        drum_pattern,
        drum_seed,
        sections,
    }
}

impl Chiptunomatic {
    /// Builds [`SongMetadata`] from a bytes seed and stream byte length: the
    /// selected mode applied to the MD5 digest of the seed. An empty stream
    /// makes no song.
    pub fn song_metadata_from_seed(&self, seed: &[u8], data_byte_len: u64) -> (r: Result<
        SongMetadata,
        GenerateError,
    >)
        ensures
            data_byte_len == 0 ==> r == Err::<SongMetadata, GenerateError>(GenerateError::EmptyInput),
            data_byte_len > 0 ==> (r matches Ok(m) && crate::metadata::is_metadata_for(
                m,
                self.spec_plugin(),
                crate::digest::md5_of(seed@),
                data_byte_len,
            ) && m.has_chords()),
    {
        if data_byte_len == 0 {
            return Err(GenerateError::EmptyInput);
        }
        let digest = md5_digest(seed);
        Ok(song_metadata_from_digest(&self.plugin, &digest, data_byte_len))
    }

    /// Install a song: its metadata, and its drum pattern in the drum voice.
    fn set_metadata(&mut self, metadata: SongMetadata)
        requires
            old(self).wf(),
        ensures
            final(self).wf(),
            final(self).spec_metadata() == metadata,
            final(self).spec_drums().spec_pattern() == metadata.drum_pattern,
            final(self).spec_drums().spec_step() == old(self).spec_drums().spec_step(),
            final(self).same_modes(old(self)),
            final(self).same_playback(old(self)),
    {
        self.drum_sampler.set_drum_pattern(metadata.drum_pattern);
        self.metadata = metadata;
    }

    /// Builds [`SongMetadata`] from a bytes seed and stream byte length and
    /// makes it the song being played; returns a copy of it. On error
    /// nothing changes.
    pub fn load_song_metadata_from_seed(&mut self, seed: &[u8], data_byte_len: u64) -> (r: Result<
        SongMetadata,
        GenerateError,
    >)
        requires
            old(self).wf(),
        ensures
            final(self).wf(),
            data_byte_len == 0 ==> r == Err::<SongMetadata, GenerateError>(GenerateError::EmptyInput)
                && *final(self) == *old(self),
            data_byte_len > 0 ==> (r matches Ok(m) && crate::metadata::is_metadata_for(
                final(self).spec_metadata(),
                old(self).spec_plugin(),
                crate::digest::md5_of(seed@),
                data_byte_len,
            ) && m.same_as(&final(self).spec_metadata()) && m.has_chords()
                && final(self).spec_drums().spec_pattern() == m.drum_pattern
                && final(self).spec_drums().spec_step() == old(self).spec_drums().spec_step()
                && final(self).same_modes(old(self)) && final(self).same_playback(old(self))),
    {
        match self.song_metadata_from_seed(seed, data_byte_len) {
            Err(e) => Err(e),
            Ok(m) => {
                self.set_metadata(m);
                Ok(self.metadata.clone())
            },
        }
    }

    /// Builds [`SongMetadata`] from a string seed (its UTF-8 bytes) and a
    /// stream byte length.
    pub fn song_metadata_from_string(&self, s: &str, data_byte_len: u64) -> (r: Result<
        SongMetadata,
        GenerateError,
    >)
        ensures
            data_byte_len == 0 ==> r == Err::<SongMetadata, GenerateError>(GenerateError::EmptyInput),
            data_byte_len > 0 ==> (r matches Ok(m) && crate::metadata::is_metadata_for(
                m,
                self.spec_plugin(),
                crate::digest::md5_of(s.spec_bytes()),
                data_byte_len,
            ) && m.has_chords()),
    {
        self.song_metadata_from_seed(s.as_bytes(), data_byte_len)
    }

    /// Builds [`SongMetadata`] from a string seed and makes it the song being
    /// played; returns a copy of it. On error nothing changes.
    pub fn load_song_metadata_from_string(&mut self, s: &str, data_byte_len: u64) -> (r: Result<
        SongMetadata,
        GenerateError,
    >)
        requires
            old(self).wf(),
        ensures
            final(self).wf(),
            data_byte_len == 0 ==> r == Err::<SongMetadata, GenerateError>(GenerateError::EmptyInput)
                && *final(self) == *old(self),
            data_byte_len > 0 ==> (r matches Ok(m) && crate::metadata::is_metadata_for(
                final(self).spec_metadata(),
                old(self).spec_plugin(),
                crate::digest::md5_of(s.spec_bytes()),
                data_byte_len,
            ) && m.same_as(&final(self).spec_metadata()) && m.has_chords()
                && final(self).spec_drums().spec_pattern() == m.drum_pattern
                && final(self).spec_drums().spec_step() == old(self).spec_drums().spec_step()
                && final(self).same_modes(old(self)) && final(self).same_playback(old(self))),
    {
        self.load_song_metadata_from_seed(s.as_bytes(), data_byte_len)
    }

    /// Builds [`SongMetadata`] for a file from its name (the seed) and its
    /// length in bytes, as read from the file system by the caller.
    pub fn song_metadata_from_file(&self, file_name: &str, file_len: u64) -> (r: Result<
        SongMetadata,
        SongMetadataFromPathError,
    >)
        ensures
            file_len == 0 ==> (r matches Err(SongMetadataFromPathError::Generate(e)) && e
                == GenerateError::EmptyInput),
            file_len > 0 ==> (r matches Ok(m) && crate::metadata::is_metadata_for(
                m,
                self.spec_plugin(),
                crate::digest::md5_of(file_name.spec_bytes()),
                file_len,
            ) && m.has_chords()),
    {
        match self.song_metadata_from_string(file_name, file_len) {
            Ok(m) => Ok(m),
            Err(e) => Err(SongMetadataFromPathError::Generate(e)),
        }
    }

    /// Builds [`SongMetadata`] for a file from its name and length and makes
    /// it the song being played; returns a copy of it. On error nothing
    /// changes.
    pub fn load_song_metadata_from_file(&mut self, file_name: &str, file_len: u64) -> (r: Result<
        SongMetadata,
        SongMetadataFromPathError,
    >)
        requires
            old(self).wf(),
        ensures
            final(self).wf(),
            file_len == 0 ==> (r matches Err(SongMetadataFromPathError::Generate(e)) && e
                == GenerateError::EmptyInput) && *final(self) == *old(self),
            file_len > 0 ==> (r matches Ok(m) && crate::metadata::is_metadata_for(
                final(self).spec_metadata(),
                old(self).spec_plugin(),
                crate::digest::md5_of(file_name.spec_bytes()),
                file_len,
            ) && m.same_as(&final(self).spec_metadata()) && m.has_chords()
                && final(self).spec_drums().spec_pattern() == m.drum_pattern
                && final(self).spec_drums().spec_step() == old(self).spec_drums().spec_step()
                && final(self).same_modes(old(self)) && final(self).same_playback(old(self))),
    {
        match self.load_song_metadata_from_string(file_name, file_len) {
            Ok(m) => Ok(m),
            Err(e) => Err(SongMetadataFromPathError::Generate(e)),
        }
    }
}

/// Some string of `names` equals `name`.
fn list_contains(names: &[String], name: &String) -> (r: bool)
    ensures
        r == (exists|j: int| 0 <= j < names@.len() && names@[j]@ == name@),
{
    let mut i: usize = 0;
    while i < names.len()
        invariant
            0 <= i <= names@.len(),
            forall|j: int| 0 <= j < i ==> names@[j]@ != name@,
        decreases names@.len() - i,
    {
        if names[i] == *name {
            return true;
        }
        i += 1;
    }
    false
}

impl Chiptunomatic {
    /// Register the other built-in modes after the ones already there, in
    /// the order the mode key steps through them after chiptune: rock, metal,
    /// rap, trap, toy, samba, koto, then lofi.
    pub fn register_default_plugins(&mut self)
        requires
            old(self).wf(),
        ensures
            final(self).wf(),
            final(self).spec_plugins() == old(self).spec_plugins() + default_modes().drop_first(),
            final(self).spec_plugin() == old(self).spec_plugin(),
            final(self).same_song(old(self)),
            final(self).same_playback(old(self)),
    {
        self.plugins.push(Mode::Rock);
        self.plugins.push(Mode::Metal);
        self.plugins.push(Mode::Rap);
        self.plugins.push(Mode::Trap);
        self.plugins.push(Mode::Toy);
        self.plugins.push(Mode::Samba);
        self.plugins.push(Mode::Koto);
        self.plugins.push(Mode::Lofi);
        assert(self.plugins@ =~= old(self).plugins@ + default_modes().drop_first());
    }

    /// The same engine with the other built-in modes registered.
    pub fn with_default_plugins(self) -> (r: Self)
        requires
            self.wf(),
        ensures
            r.wf(),
            r.spec_plugins() == self.spec_plugins() + default_modes().drop_first(),
            r.spec_plugin() == self.spec_plugin(),
            r.same_song(&self),
            r.same_playback(&self),
    {
        let mut other = self;
        other.register_default_plugins();
        other
    }

    /// Rebuild the plugin list from a set of mode name strings.
    /// Only modes whose names appear in `modes` are kept.
    /// The active plugin is reset to the first match if the current one is excluded.
    /// Returns `Err` if no valid mode name is found in `modes`.
    pub fn with_plugins_from_list(self, modes: &[String]) -> (r: Result<Self, ChiptunomaticError>)
        requires
            self.wf(),
        ensures
            ({
                let named = modes_named(default_modes(), crate::text::string_views(modes@));
                match r {
                    Ok(s) => {
                        &&& named.len() > 0
                        &&& s.wf()
                        &&& s.spec_plugins() == named
                        &&& s.spec_plugin() == if has_mode_named(
                            named,
                            self.spec_plugin().spec_mode(),
                        ) {
                            self.spec_plugin()
                        } else {
                            named[0]
                        }
                        &&& s.same_song(&self)
                        &&& s.same_playback(&self)
                    },
                    Err(ChiptunomaticError::InvalidMode(msg)) => {
                        &&& named.len() == 0
                        &&& msg@ == crate::text::joined(crate::text::string_views(modes@), ", "@)
                    },
                }
            }),
    {
        let all: [Mode; 9] = [
            Mode::Chiptune,
            Mode::Rock,
            Mode::Metal,
            Mode::Rap,
            Mode::Trap,
            Mode::Toy,
            Mode::Samba,
            Mode::Koto,
            Mode::Lofi,
        ];
        let ghost names = crate::text::string_views(modes@);
        proof {
            assert(all@ =~= default_modes());
        }
        let mut kept: Vec<Mode> = Vec::new();
        let mut i: usize = 0;
        while i < 9
            invariant
                all@ == default_modes(),
                names == crate::text::string_views(modes@),
                0 <= i <= 9,
                kept@ == modes_named(default_modes().take(i as int), names),
            decreases 9 - i,
        {
            let name = all[i].mode_string();
            let listed = list_contains(modes, &name);
            proof {
                assert(default_modes().take(i + 1).drop_last() =~= default_modes().take(i as int));
                assert(default_modes().take(i + 1).last() == all@[i as int]);
                if listed {
                    let j = choose|j: int| 0 <= j < modes@.len() && modes@[j]@ == name@;
                    assert(names[j] == modes@[j]@);
                } else {
                    assert forall|j: int| 0 <= j < names.len() implies names[j] != all@[i as int].spec_mode() by {
                        assert(names[j] == modes@[j]@);
                    }
                }
            }
            if listed {
                kept.push(all[i]);
            }
            i += 1;
        }
        proof {
            assert(default_modes().take(9) =~= default_modes());
        }
        if kept.len() == 0 {
            return Err(ChiptunomaticError::InvalidMode(join_strings(modes, ", ")));
        }
        let current = self.plugin.mode_string();
        let mut present = false;
        let mut k: usize = 0;
        while k < kept.len()
            invariant
                0 <= k <= kept@.len(),
                current@ == self.plugin.spec_mode(),
                present == (exists|j: int| 0 <= j < k && kept@[j].spec_mode() == current@),
            decreases kept@.len() - k,
        {
            if kept[k].mode_string() == current {
                present = true;
            }
            k += 1;
        }
        let mut other = self;
        other.plugins = kept;
        if !present {
            other.plugin = other.plugins[0];
        }
        Ok(other)
    }

    /// Register one more mode after the others.
    pub fn register_plugin(&mut self, plugin: Mode) -> (r: &mut Self)
        requires
            old(self).wf(),
        ensures
            r.wf(),
            r.spec_plugins() == old(self).spec_plugins().push(plugin),
            r.spec_plugin() == old(self).spec_plugin(),
            r.same_song(old(self)),
            r.same_playback(old(self)),
            *final(self) == *final(r),
    {
        self.plugins.push(plugin);
        self
    }

    /// Return the possible modes
    pub fn modes(&self) -> (r: Vec<&'static str>)
        ensures
            r@.len() == self.spec_plugins().len(),
            forall|i: int| 0 <= i < r@.len() ==> #[trigger] r@[i]@ == self.spec_plugins()[i].spec_mode(),
    {
        let mut r: Vec<&'static str> = Vec::new();
        let mut i: usize = 0;
        while i < self.plugins.len()
            invariant
                0 <= i <= self.plugins@.len(),
                r@.len() == i,
                forall|j: int| 0 <= j < i ==> #[trigger] r@[j]@ == self.plugins@[j].spec_mode(),
            decreases self.plugins@.len() - i,
        {
            r.push(self.plugins[i].mode());
            i += 1;
        }
        r
    }

    /// Return the possible modes as owned strings
    pub fn modes_string(&self) -> (r: Vec<String>)
        ensures
            r@.len() == self.spec_plugins().len(),
            forall|i: int| 0 <= i < r@.len() ==> #[trigger] r@[i]@ == self.spec_plugins()[i].spec_mode(),
    {
        let mut r: Vec<String> = Vec::new();
        let mut i: usize = 0;
        while i < self.plugins.len()
            invariant
                0 <= i <= self.plugins@.len(),
                r@.len() == i,
                forall|j: int| 0 <= j < i ==> #[trigger] r@[j]@ == self.plugins@[j].spec_mode(),
            decreases self.plugins@.len() - i,
        {
            r.push(self.plugins[i].mode_string());
            i += 1;
        }
        r
    }

    /// Get the selected mode
    pub fn mode(&self) -> (r: &'static str)
        ensures
            r@ == self.spec_plugin().spec_mode(),
    {
        self.plugin.mode()
    }

    /// Get the selected mode as an owned string
    pub fn mode_string(&self) -> (r: String)
        ensures
            r@ == self.spec_plugin().spec_mode(),
    {
        self.plugin.mode_string()
    }

    /// Whether the selected mode plays effects on the sfx stem.
    pub fn has_sfx(&self) -> (r: bool)
        ensures
            r == self.spec_plugin().spec_has_sfx(),
    {
        self.plugin.has_sfx()
    }

    /// Set the selected mode: the first registered mode of that name.
    pub fn set_mode(&mut self, mode: &String) -> (r: Result<(), ChiptunomaticError>)
        requires
            old(self).wf(),
        ensures
            final(self).wf(),
            final(self).spec_plugins() == old(self).spec_plugins(),
            final(self).same_song(old(self)),
            final(self).same_playback(old(self)),
            has_mode_named(old(self).spec_plugins(), mode@) ==> r is Ok && exists|k: int|
                first_named(old(self).spec_plugins(), mode@, k) && final(self).spec_plugin() == old(
                    self,
                ).spec_plugins()[k],
            !has_mode_named(old(self).spec_plugins(), mode@) ==> (r matches Err(
                ChiptunomaticError::InvalidMode(m),
            ) && m@ == mode@) && final(self).spec_plugin() == old(self).spec_plugin(),
    {
        let mut i: usize = 0;
        while i < self.plugins.len()
            invariant
                0 <= i <= self.plugins@.len(),
                *self == *old(self),
                old(self).wf(),
                forall|j: int| 0 <= j < i ==> #[trigger] self.plugins@[j].spec_mode() != mode@,
            decreases self.plugins@.len() - i,
        {
            if self.plugins[i].mode_string() == *mode {
                self.plugin = self.plugins[i];
                assert(first_named(old(self).spec_plugins(), mode@, i as int));
                return Ok(());
            }
            i += 1;
        }
        Err(ChiptunomaticError::InvalidMode(mode.clone()))
    }

    /// How many bytes of the stream have been read.
    pub fn position(&self) -> (r: u64)
        ensures
            r == self.spec_generator().gen_state().position,
    {
        self.note_generator.position()
    }

    /// Reset the state: back to the start of the song, with no byte waiting
    /// and the drums back on the first step of their pattern.
    pub fn reset(&mut self)
        requires
            old(self).wf(),
        ensures
            final(self).wf(),
            final(self).same_modes(old(self)),
            final(self).spec_metadata() == old(self).spec_metadata(),
            final(self).spec_drums().spec_pattern() == old(self).spec_drums().spec_pattern(),
            final(self).spec_drums().spec_step() == 0,
            final(self).spec_sample_rate() == old(self).spec_sample_rate(),
            final(self).spec_arpeggiator() == old(self).spec_arpeggiator(),
            final(self).spec_generator().gen_state() == crate::note::initial_gen_state(),
            final(self).spec_generator().stream().len() == 0,
            final(self).spec_silence() == 0,
            final(self).spec_section_cursor() == 0,
            final(self).spec_section_index() == 0,
    {
        self.note_generator = NoteGenerator::default();
        self.drum_sampler.reset();
        self.silence_remaining = 0;
        self.section_beat_cursor = 0;
        self.section_idx = 0;
    }
}

/// The stems a song structure lets through in section number `idx` (the
/// structure repeats); every stem when there is no structure.
pub open spec fn section_mask(sections: Seq<SectionDef>, idx: usize) -> StemMask {
    if sections.len() == 0 {
        crate::plugin::all_stems()
    } else {
        sections[(idx as int) % (sections.len() as int)].stems
    }
}

/// The section the melody is in has ended at beat `beat`: it started at
/// `cursor` and lasts its beats.
pub open spec fn section_ended(sections: Seq<SectionDef>, idx: usize, cursor: u64, beat: u64) -> bool {
    &&& sections.len() > 0
    &&& beat >= cursor + sections[(idx as int) % (sections.len() as int)].beats
}

impl Chiptunomatic {
    /// Spend one silent sample of the pause after a section, if one is owed.
    pub fn take_silence(&mut self) -> (r: bool)
        requires
            old(self).wf(),
        ensures
            final(self).wf(),
            r == (old(self).spec_silence() > 0),
            final(self).spec_silence() == if r {
                (old(self).spec_silence() - 1) as u64
            } else {
                old(self).spec_silence()
            },
            final(self).same_modes(old(self)),
            final(self).same_song(old(self)),
            final(self).spec_sample_rate() == old(self).spec_sample_rate(),
            final(self).spec_generator() == old(self).spec_generator(),
            final(self).spec_arpeggiator() == old(self).spec_arpeggiator(),
            final(self).spec_section_cursor() == old(self).spec_section_cursor(),
            final(self).spec_section_index() == old(self).spec_section_index(),
    {
        if self.silence_remaining > 0 {
            self.silence_remaining = self.silence_remaining - 1;
            true
        } else {
            false
        }
    }

    /// Owe `samples` silent samples before the next section plays.
    pub fn start_silence(&mut self, samples: u64)
        requires
            old(self).wf(),
        ensures
            final(self).wf(),
            final(self).spec_silence() == samples,
            final(self).same_modes(old(self)),
            final(self).same_song(old(self)),
            final(self).spec_sample_rate() == old(self).spec_sample_rate(),
            final(self).spec_generator() == old(self).spec_generator(),
            final(self).spec_arpeggiator() == old(self).spec_arpeggiator(),
            final(self).spec_section_cursor() == old(self).spec_section_cursor(),
            final(self).spec_section_index() == old(self).spec_section_index(),
    {
        self.silence_remaining = samples;
    }

    /// The stems the current section lets through.
    pub fn stem_mask(&self) -> (r: StemMask)
        ensures
            r == section_mask(self.spec_metadata().sections@, self.spec_section_index()),
    {
        let n = self.metadata.sections.len();
        if n == 0 {
            StemMask::all()
        } else {
            self.metadata.sections[self.section_idx % n].stems
        }
    }

    /// The melody has reached beat `current_beat`: if that ends the current
    /// section, move to the next one and return the milliseconds of silence
    /// that follow the section that ended.
    pub fn advance_section(&mut self, current_beat: u64) -> (r: Option<u32>)
        requires
            old(self).wf(),
            old(self).spec_section_index() < usize::MAX,
        ensures
            final(self).wf(),
            ({
                let secs = old(self).spec_metadata().sections@;
                let i = (old(self).spec_section_index() as int) % (secs.len() as int);
                if section_ended(
                    secs,
                    old(self).spec_section_index(),
                    old(self).spec_section_cursor(),
                    current_beat,
                ) {
                    &&& r == Some(secs[i].silence_after_ms)
                    &&& final(self).spec_section_cursor() == old(self).spec_section_cursor()
                        + secs[i].beats
                    &&& final(self).spec_section_index() == old(self).spec_section_index() + 1
                } else {
                    &&& r is None
                    &&& final(self).spec_section_cursor() == old(self).spec_section_cursor()
                    &&& final(self).spec_section_index() == old(self).spec_section_index()
                }
            }),
            final(self).same_modes(old(self)),
            final(self).same_song(old(self)),
            final(self).spec_sample_rate() == old(self).spec_sample_rate(),
            final(self).spec_generator() == old(self).spec_generator(),
            final(self).spec_arpeggiator() == old(self).spec_arpeggiator(),
            final(self).spec_silence() == old(self).spec_silence(),
    {
        let n = self.metadata.sections.len();
        if n == 0 {
            return None;
        }
        let section = self.metadata.sections[self.section_idx % n];
        if self.section_beat_cursor <= current_beat && current_beat - self.section_beat_cursor
            >= section.beats {
            self.section_beat_cursor = self.section_beat_cursor + section.beats;
            self.section_idx = self.section_idx + 1;
            Some(section.silence_after_ms)
        } else {
            None
        }
    }

    /// Read the next note of the song from the buffered bytes, with the
    /// voices standing where `ctx` says; `None` when the bytes run out first.
    pub fn next_note(&mut self, ctx: &NoteContext) -> (r: Option<Note>)
        requires
            old(self).wf(),
            old(self).spec_metadata().has_chords(),
            old(self).spec_generator().gen_state().position + old(
                self,
            ).spec_generator().stream().len() <= u64::MAX,
        ensures
            final(self).wf(),
            ({
                let (g, ev, c) = crate::note::run(
                    old(self).spec_generator().gen_state(),
                    old(self).spec_generator().stream(),
                    old(self).spec_metadata(),
                    old(self).spec_plugin().spec_scale(),
                    *ctx,
                );
                &&& r == ev
                &&& final(self).spec_generator().gen_state() == g
                &&& c <= old(self).spec_generator().stream().len()
                &&& final(self).spec_generator().stream() == old(
                    self,
                ).spec_generator().stream().skip(c as int)
            }),
            r is None ==> final(self).spec_generator().stream().len() == 0,
            r matches Some(Note::Melody(m)) ==> m.subdivisions == 1 && -1 <= m.octave <= 1,
            final(self).same_modes(old(self)),
            final(self).same_song(old(self)),
            final(self).spec_sample_rate() == old(self).spec_sample_rate(),
            final(self).spec_arpeggiator() == old(self).spec_arpeggiator(),
            final(self).spec_silence() == old(self).spec_silence(),
            final(self).spec_section_cursor() == old(self).spec_section_cursor(),
            final(self).spec_section_index() == old(self).spec_section_index(),
    {
        self.note_generator.note(&self.metadata, &self.plugin, ctx)
    }

    /// The notes a note is played as, its chord count being `chord_pos`:
    /// arpeggios for a melody note, a bass note as it is.
    pub fn expand_note(&self, note: &Note, chord_pos: usize) -> (r: Vec<Note>)
        requires
            note is Melody ==> self.spec_metadata().has_chords(),
            note matches Note::Melody(m) ==> {
                &&& i32::MIN <= m.octave * 12 <= i32::MAX
                &&& m.subdivisions * 256 <= u32::MAX
            },
        ensures
            r@ == crate::arpeggio::expanded(
                self.spec_arpeggiator().spec_config(),
                self.spec_metadata(),
                self.spec_plugin().spec_scale(),
                *note,
                chord_pos,
            ),
    {
        self.arpeggiator.expand_note(&self.metadata, &self.plugin, note, chord_pos)
    }

    /// The drum pattern and the step it is at.
    pub fn drums(&self) -> (r: &DrumSampler)
        ensures
            *r == self.spec_drums(),
    {
        &self.drum_sampler
    }

    /// Play the next step of the song's drum pattern.
    pub fn next_drum_hit(&mut self) -> (r: DrumHit)
        requires
            old(self).wf(),
            old(self).spec_metadata().seed@.len() > old(self).spec_drums().spec_pattern().steps@[old(
                self,
            ).spec_drums().spec_step() as int].offset % 16 % 8,
        ensures
            final(self).wf(),
            r.step == old(self).spec_drums().spec_pattern().steps@[old(
                self,
            ).spec_drums().spec_step() as int],
            r.pattern == r.step.offset % 16,
            r.color == old(self).spec_metadata().seed@[(r.pattern % 8) as int],
            final(self).spec_drums().spec_pattern() == old(self).spec_drums().spec_pattern(),
            final(self).spec_drums().spec_step() == (old(self).spec_drums().spec_step() + 1) % 16,
            final(self).same_modes(old(self)),
            final(self).spec_metadata() == old(self).spec_metadata(),
            final(self).same_playback(old(self)),
    {
        self.drum_sampler.next_hit(&self.metadata)
    }
}

impl Consume for Chiptunomatic {
    type Item = u8;

    open spec fn buffered(&self) -> Seq<u8> {
        self.spec_generator().stream()
    }

    fn push(&mut self, byte: u8)
        ensures
            final(self).spec_generator().gen_state() == old(self).spec_generator().gen_state(),
            final(self).wf() == old(self).wf(),
            final(self).same_modes(old(self)),
            final(self).same_song(old(self)),
            final(self).spec_sample_rate() == old(self).spec_sample_rate(),
            final(self).spec_arpeggiator() == old(self).spec_arpeggiator(),
            final(self).spec_silence() == old(self).spec_silence(),
            final(self).spec_section_cursor() == old(self).spec_section_cursor(),
            final(self).spec_section_index() == old(self).spec_section_index(),
    {
        self.note_generator.push(byte);
    }

    fn extend(&mut self, bytes: &[u8])
        ensures
            final(self).spec_generator().gen_state() == old(self).spec_generator().gen_state(),
            final(self).wf() == old(self).wf(),
            final(self).same_modes(old(self)),
            final(self).same_song(old(self)),
            final(self).spec_sample_rate() == old(self).spec_sample_rate(),
            final(self).spec_arpeggiator() == old(self).spec_arpeggiator(),
            final(self).spec_silence() == old(self).spec_silence(),
            final(self).spec_section_cursor() == old(self).spec_section_cursor(),
            final(self).spec_section_index() == old(self).spec_section_index(),
    {
        self.note_generator.extend(bytes);
    }

    fn capacity(&self) -> (r: usize) {
        self.note_generator.capacity()
    }

    fn len(&self) -> usize {
        self.note_generator.len()
    }

    fn is_empty(&self) -> bool {
        self.note_generator.is_empty()
    }
}

impl Chiptunomatic {
    /// The registered modes.
    pub fn plugins(&self) -> (r: &Vec<Mode>)
        ensures
            r@ == self.spec_plugins(),
    {
        &self.plugins
    }

    /// The registered modes, to change in place.
    pub fn plugins_mut(&mut self) -> (r: &mut Vec<Mode>)
        ensures
            r@ == old(self).spec_plugins(),
            final(self).spec_plugins() == final(r)@,
            final(self).spec_plugin() == old(self).spec_plugin(),
            final(self).same_song(old(self)),
            final(self).same_playback(old(self)),
            final(self).wf() == old(self).wf(),
    {
        &mut self.plugins
    }

    /// Replace the registered modes.
    pub fn set_plugins(&mut self, plugins: Vec<Mode>) -> (r: &mut Self)
        ensures
            r.spec_plugins() == plugins@,
            r.spec_plugin() == old(self).spec_plugin(),
            r.same_song(old(self)),
            r.same_playback(old(self)),
            r.wf() == old(self).wf(),
            *final(self) == *final(r),
    {
        self.plugins = plugins;
        self
    }

    /// The same engine with other registered modes.
    pub fn with_plugins(self, plugins: Vec<Mode>) -> (r: Self)
        ensures
            r.spec_plugins() == plugins@,
            r.spec_plugin() == self.spec_plugin(),
            r.same_song(&self),
            r.same_playback(&self),
            r.wf() == self.wf(),
    {
        Chiptunomatic { plugins, ..self }
    }

    /// The selected mode.
    pub fn plugin(&self) -> (r: &Mode)
        ensures
            *r == self.spec_plugin(),
    {
        &self.plugin
    }

    /// The selected mode, to change in place.
    pub fn plugin_mut(&mut self) -> (r: &mut Mode)
        ensures
            *r == old(self).spec_plugin(),
            final(self).spec_plugin() == *final(r),
            final(self).spec_plugins() == old(self).spec_plugins(),
            final(self).same_song(old(self)),
            final(self).same_playback(old(self)),
            final(self).wf() == old(self).wf(),
    {
        &mut self.plugin
    }

    /// Select a mode, registered or not.
    pub fn set_plugin(&mut self, plugin: Mode) -> (r: &mut Self)
        ensures
            r.spec_plugin() == plugin,
            r.spec_plugins() == old(self).spec_plugins(),
            r.same_song(old(self)),
            r.same_playback(old(self)),
            r.wf() == old(self).wf(),
            *final(self) == *final(r),
    {
        self.plugin = plugin;
        self
    }

    /// The same engine with another mode selected.
    pub fn with_plugin(self, plugin: Mode) -> (r: Self)
        ensures
            r.spec_plugin() == plugin,
            r.spec_plugins() == self.spec_plugins(),
            r.same_song(&self),
            r.same_playback(&self),
            r.wf() == self.wf(),
    {
        Chiptunomatic { plugin, ..self }
    }

    /// The loaded song.
    pub fn metadata(&self) -> (r: &SongMetadata)
        ensures
            *r == self.spec_metadata(),
    {
        &self.metadata
    }

    /// Samples per second of the output.
    pub fn sample_rate(&self) -> (r: u32)
        ensures
            r == self.spec_sample_rate(),
    {
        self.sample_rate
    }

    /// Set the samples per second of the output.
    pub fn set_sample_rate(&mut self, sample_rate: u32) -> (r: &mut Self)
        ensures
            r.spec_sample_rate() == sample_rate,
            r.same_modes(old(self)),
            r.same_song(old(self)),
            r.spec_generator() == old(self).spec_generator(),
            r.spec_arpeggiator() == old(self).spec_arpeggiator(),
            r.spec_silence() == old(self).spec_silence(),
            r.spec_section_cursor() == old(self).spec_section_cursor(),
            r.spec_section_index() == old(self).spec_section_index(),
            r.wf() == old(self).wf(),
            *final(self) == *final(r),
    {
        self.sample_rate = sample_rate;
        self
    }

    /// The same engine at another sample rate.
    pub fn with_sample_rate(self, sample_rate: u32) -> (r: Self)
        ensures
            r.spec_sample_rate() == sample_rate,
            r.same_modes(&self),
            r.same_song(&self),
            r.spec_generator() == self.spec_generator(),
            r.spec_arpeggiator() == self.spec_arpeggiator(),
            r.spec_silence() == self.spec_silence(),
            r.spec_section_cursor() == self.spec_section_cursor(),
            r.spec_section_index() == self.spec_section_index(),
            r.wf() == self.wf(),
    {
        Chiptunomatic { sample_rate, ..self }
    }

    /// The arpeggiator notes go through.
    pub fn arpeggiator(&self) -> (r: &Arpeggiator)
        ensures
            *r == self.spec_arpeggiator(),
    {
        &self.arpeggiator
    }

    /// The arpeggiator, to configure in place.
    pub fn arpeggiator_mut(&mut self) -> (r: &mut Arpeggiator)
        ensures
            *r == old(self).spec_arpeggiator(),
            final(self).spec_arpeggiator() == *final(r),
            final(self).same_modes(old(self)),
            final(self).same_song(old(self)),
            final(self).spec_sample_rate() == old(self).spec_sample_rate(),
            final(self).spec_generator() == old(self).spec_generator(),
            final(self).spec_silence() == old(self).spec_silence(),
            final(self).spec_section_cursor() == old(self).spec_section_cursor(),
            final(self).spec_section_index() == old(self).spec_section_index(),
            final(self).wf() == old(self).wf(),
    {
        &mut self.arpeggiator
    }

    /// How many sections have ended so far.
    pub fn section_index(&self) -> (r: usize)
        ensures
            r == self.spec_section_index(),
    {
        self.section_idx
    }
}

/// After a list of names is applied, the selected mode is one of the modes
/// it enabled: the one selected before when enabled, else the first enabled.
pub proof fn lemma_selected_mode_enabled(named: Seq<Mode>, before: Mode)
    requires
        named.len() > 0,
    ensures
        ({
            let sel = if has_mode_named(named, before.spec_mode()) {
                before
            } else {
                named[0]
            };
            has_mode_named(named, sel.spec_mode())
        }),
{
    if !has_mode_named(named, before.spec_mode()) {
        assert(named[0].spec_mode() == named[0].spec_mode());
    }
}

} // verus!

verus! {

/// The same name and length always give the same song: two engines in the
/// mode of the same name, whatever else they hold (pending bytes, playback
/// position, other registered modes), make song metadata that agrees field
/// by field. `song_metadata_from_seed` returns `Err(EmptyInput)` on both at
/// length zero, and otherwise metadata meeting `is_metadata_for`, as here.
pub proof fn lemma_same_mode_same_song(
    c1: Chiptunomatic,
    c2: Chiptunomatic,
    seed: Seq<u8>,
    len: u64,
    m1: SongMetadata,
    m2: SongMetadata,
)
    requires
        c1.spec_plugin().spec_mode() == c2.spec_plugin().spec_mode(),
        crate::metadata::is_metadata_for(m1, c1.spec_plugin(), crate::digest::md5_of(seed), len),
        crate::metadata::is_metadata_for(m2, c2.spec_plugin(), crate::digest::md5_of(seed), len),
    ensures
        m1.same_as(&m2),
{
    crate::plugin::lemma_mode_names_distinct(c1.spec_plugin(), c2.spec_plugin());
    crate::metadata::lemma_metadata_deterministic(m1, m2, c1.spec_plugin(), crate::digest::md5_of(seed), len);
}

} // verus!
