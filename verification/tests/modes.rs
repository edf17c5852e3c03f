use chiptunomatic::clock::NoteClock;
use chiptunomatic::arpeggio::{Arpeggiator, ArpeggiatorConfig, ArpeggioPattern};
use chiptunomatic::constants::{clamp_midi_note, MELODY_BASE, PENTATONIC_MINOR};
use chiptunomatic::drum::{DrumPattern, DrumSampler, Steps};
use chiptunomatic::note::{MelodyNote, Note, NoteContext, NoteGenerator};
use chiptunomatic::plugin::chiptune::ChiptunePlugin;
use chiptunomatic::plugin::{Mode, Plugin, StemMask};
use chiptunomatic::consumer::Consume;
use chiptunomatic::SongMetadata;

const ALL: [Mode; 11] = [
    Mode::Chiptune,
    Mode::Lofi,
    Mode::Rock,
    Mode::Metal,
    Mode::Persian,
    Mode::Rap,
    Mode::Trap,
    Mode::Medieval,
    Mode::Koto,
    Mode::Toy,
    Mode::Samba,
];

fn range(m: Mode) -> (i32, i32) {
    match m {
        Mode::Chiptune => (150, 179),
        Mode::Lofi => (74, 82),
        Mode::Rock => (115, 145),
        Mode::Metal => (140, 175),
        Mode::Persian => (72, 90),
        Mode::Rap => (84, 99),
        Mode::Trap => (125, 154),
        Mode::Medieval => (80, 100),
        Mode::Koto => (80, 99),
        Mode::Toy => (95, 114),
        Mode::Samba => (100, 115),
    }
}

#[test]
fn tempo_stays_in_each_mode_range_and_reaches_both_ends() {
    for m in ALL {
        let (lo, hi) = range(m);
        let mut seen_lo = false;
        let mut seen_hi = false;
        for k in 0u32..64 {
            let t = m.tempo_from_seed(k * 256 + 17);
            assert!(lo <= t && t <= hi, "{:?} {}", m, t);
            seen_lo |= t == lo;
            seen_hi |= t == hi;
        }
        assert!(seen_lo && seen_hi, "{:?}", m);
    }
}

#[test]
fn mode_names_and_scales() {
    let names: Vec<&str> = ALL.iter().map(|m| m.mode()).collect();
    assert_eq!(
        names,
        vec!["chiptune", "lofi", "rock", "metal", "persian", "rap", "trap", "medieval", "koto", "toy", "samba"]
    );
    assert_eq!(Mode::Persian.scale(), [0, 1, 4, 5, 7]);
    assert_eq!(Mode::Medieval.scale(), [0, 2, 5, 7, 10]);
    assert_eq!(Mode::Koto.scale(), [0, 2, 3, 7, 8]);
    assert_eq!(Mode::Chiptune.scale(), PENTATONIC_MINOR);
    for m in ALL {
        assert_eq!(m.mode_string(), m.mode());
        assert_eq!(m.has_sfx(), m == Mode::Chiptune);
        assert!(m.section_defs().is_empty());
        for seed in [0u32, 1, 2, 3, 0xdead_beef] {
            let p = m.chord_progression_from_seed(seed);
            assert_eq!(p.len(), 4);
            assert!(p.iter().all(|&d| d < 5));
        }
    }
    assert_eq!(ChiptunePlugin::new().mode(), "chiptune");
}

#[test]
fn chiptune_structure_follows_the_song_form() {
    for seed in [0u32, 0x0001_0000, 0x0002_0000, 0x0004_0000, 0x0180_0000, 0x0200_0000, 0x07ff_ffff] {
        let s = Mode::Chiptune.section_defs_from_seed(seed);
        let bridge = (seed >> 25) & 1 == 0;
        assert_eq!(s.len(), if bridge { 10 } else { 9 });
        assert_eq!(s[0].stems, StemMask { voice: false, square: true, triangle: true, noise: false, sfx: false });
        assert_eq!(s[0].silence_after_ms, 800);
        assert_eq!(s[1], s[4]);
        assert_eq!(s[2], s[5]);
        assert_eq!(s[3], s[6]);
        assert!([24, 28, 32].contains(&s[1].beats));
        assert!([300, 500, 700, 1000].contains(&s[3].silence_after_ms));
        let last = s.len() - 1;
        assert_eq!(s[last].silence_after_ms, 1500);
        assert_eq!(s[last - 1].beats, s[3].beats);
        assert_eq!(s[last - 1], s[3]);
        assert_eq!(s[last - 1].silence_after_ms, [300, 500, 700, 1000][((seed >> 21) & 3) as usize]);
        assert_eq!(s[1].stems.voice, (seed >> 23) & 3 == 3);
    }
    for m in ALL {
        if m != Mode::Chiptune {
            assert!(m.section_defs_from_seed(1234).is_empty());
        }
    }
}

#[test]
fn drum_patterns_know_their_steps() {
    for m in ALL {
        for s in 0u8..20 {
            let seed = [s, s.wrapping_mul(7), s.wrapping_add(3), s, s.wrapping_mul(5), s, s, s];
            let p = m.drum_pattern_from_seed(&seed);
            for i in 0..16 {
                assert_eq!(p.steps[i].offset, i);
            }
            if m == Mode::Trap {
                let claps: Vec<usize> = (0..16).filter(|&i| p.steps[i].snare).collect();
                assert_eq!(claps, vec![4, 12]);
                let open: Vec<usize> = (0..16).filter(|&i| p.steps[i].open_hat).collect();
                assert_eq!(open, vec![if seed[5] % 2 == 1 { 6 } else { 14 }]);
            }
            if m == Mode::Rap {
                assert!(p.steps[0].kick);
            }
            if m == Mode::Samba {
                assert!(p.steps[4].kick && p.steps[12].kick);
            }
        }
    }
}

#[test]
fn default_drum_pattern_from_seed() {
    let p = DrumPattern::from_seed(&[2, 0, 1, 1, 0, 1, 0, 0]);
    let kicks: Vec<usize> = (0..16).filter(|&i| p.steps[i].kick).collect();
    assert_eq!(kicks, vec![0, 4, 8, 12]);
    assert!(p.steps[8].open_hat && p.steps[8].hat);
    assert_eq!(p.open_hat_step(), Some(8));
    assert_eq!(p.kick_row(), vec![1, 0, 0, 0, 1, 0, 0, 0, 1, 0, 0, 0, 1, 0, 0, 0]);
    assert_eq!(p.snare_row(), vec![0, 0, 0, 0, 1, 0, 0, 0, 0, 0, 0, 0, 1, 0, 0, 0]);
    assert_eq!(p.hat_row(), vec![1, 0, 1, 1, 1, 0, 1, 0, 1, 0, 1, 1, 1, 0, 1, 0]);
    let p = DrumPattern::from_seed(&[0, 0, 0, 4, 1, 0, 0, 0]);
    assert_eq!(p.open_hat_step(), None);
    // seed byte 3 = 4: the extra kick is added (4 & 3 == 0) on slot 11 (byte 4 % 3 == 1)
    assert!(p.steps[11].kick);
    assert_eq!(p.step(17), p.steps[1]);
}

#[test]
fn steps_cycle_forever() {
    let p = DrumPattern::from_seed(&[1, 2, 2, 3, 0, 0, 0, 0]);
    let mut s: Steps = p.steps();
    for i in 0..40 {
        assert_eq!(s.next(), Some(p.steps[i % 16]));
    }
    let mut d = DrumSampler::default();
    assert_eq!(d.drum_step(), 0);
    d.set_drum_pattern(p);
    assert_eq!(*d.drum_pattern(), p);
    d.set_drum_step(5);
    assert_eq!(d.drum_step(), 5);
    d.reset();
    assert_eq!(d.drum_step(), 0);
    let _ = Steps::new(p);
}

#[test]
fn effects_every_24_notes() {
    assert_eq!(ChiptunePlugin::sfx_kind(0), Some(0));
    assert_eq!(ChiptunePlugin::sfx_kind(3), None);
    assert_eq!(ChiptunePlugin::sfx_kind(72), Some(1));
    assert_eq!(ChiptunePlugin::sfx_kind(73), Some(1));
    assert_eq!(ChiptunePlugin::sfx_kind(72 * 5), Some(0));
}

fn meta() -> SongMetadata {
    let mut m = SongMetadata::default();
    m.root_semitone = 2;
    m.chord_progression = vec![0, 3, 2, 3];
    m
}

#[test]
fn melody_walk_snaps_to_the_chord_at_its_end() {
    let m = meta();
    let mut g = NoteGenerator::default();
    g.extend(&[0, 0, 0, 0, 0]);
    let ctx = NoteContext { melody_chord_pos: 1, near_chord_end: true, near_phrase_end: false, bass_chord_pos: 1 };
    match g.note(&m, &Mode::Chiptune, &ctx) {
        Some(Note::Melody(n)) => {
            assert_eq!(n.degree, 3);
            assert_eq!(n.octave, 0);
            assert_eq!(n.midi, MELODY_BASE + 2 + 7);
        }
        other => panic!("unexpected {:?}", other),
    }
    let bass = g.note(&m, &Mode::Chiptune, &ctx);
    assert!(matches!(bass, Some(Note::Bass(_))));
    assert_eq!(g.position(), 3);
    let rest = g.notes(&m, &Mode::Chiptune, &ctx);
    assert_eq!(rest.len(), 1);
    assert!(matches!(rest[0], Note::Melody(_)));
    assert_eq!(g.position(), 5);
}

#[test]
fn long_files_skip_bytes_after_each_bass_note() {
    let mut m = meta();
    m.beat_skip_bytes = 2;
    let mut g = NoteGenerator::default();
    g.extend(&[1, 1, 1, 9, 9, 1, 1, 1]);
    let ctx = NoteContext { melody_chord_pos: 0, near_chord_end: false, near_phrase_end: false, bass_chord_pos: 0 };
    let mut buf = [Note::default(); 8];
    let n = g.notes_buf(&m, &Mode::Chiptune, &ctx, &mut buf);
    assert_eq!(n, 4);
    match buf[2] {
        Note::Melody(x) => assert_eq!(x.byte_index, 6),
        other => panic!("unexpected {:?}", other),
    }
    assert_eq!(buf[4], Note::default());
}

#[test]
fn arpeggios_cycle_through_the_chord() {
    let m = meta();
    let note = Note::Melody(MelodyNote {
        midi: 60,
        harmony_midi: 48,
        duration_sixteenths: 4,
        subdivisions: 1,
        degree: 0,
        octave: 0,
        byte_index: 9,
    });
    let cfg = ArpeggiatorConfig { subdivisions: 4, pattern: ArpeggioPattern::UpDown };
    let a = Arpeggiator::default().with_config(cfg);
    assert_eq!(*a.config(), cfg);
    let out = a.expand_note(&m, &Mode::Chiptune, &note, 0);
    let degs: Vec<usize> = out
        .iter()
        .map(|n| match n {
            Note::Melody(x) => x.degree,
            _ => 99,
        })
        .collect();
    assert_eq!(degs, vec![0, 1, 2, 1]);
    assert_eq!(a.tone_index(3, 3), 1);
    let bass = Note::Bass(chiptunomatic::note::BassNote { midi: 40, duration_sixteenths: 8, byte_index: 2 });
    assert_eq!(a.expand_note(&m, &Mode::Chiptune, &bass, 0), vec![bass]);
    let d = Arpeggiator::default();
    let one = d.expand_note(&m, &Mode::Chiptune, &note, 0);
    assert_eq!(one.len(), 1);
    assert_eq!(clamp_midi_note(200), 108);
    assert_eq!(clamp_midi_note(-5), 21);
}

#[test]
fn chunked_bytes_make_the_same_notes() {
    let m = meta();
    let bytes: Vec<u8> = (0u8..=200).map(|b| b.wrapping_mul(37)).collect();
    let ctx = NoteContext { melody_chord_pos: 2, near_chord_end: false, near_phrase_end: false, bass_chord_pos: 1 };
    let mut whole = NoteGenerator::default();
    whole.extend(&bytes);
    let all = whole.notes(&m, &Mode::Koto, &ctx);
    let mut chunked = NoteGenerator::default();
    let mut got = Vec::new();
    for chunk in bytes.chunks(7) {
        chunked.extend(chunk);
        got.extend(chunked.notes(&m, &Mode::Koto, &ctx));
    }
    assert_eq!(all, got);
    assert_eq!(whole.position(), chunked.position());
}

#[test]
fn expand_notes_concatenates_each_note_at_its_chord() {
    let m = meta();
    let note = Note::Melody(MelodyNote {
        midi: 60,
        harmony_midi: 57,
        duration_sixteenths: 4,
        subdivisions: 1,
        degree: 0,
        octave: 0,
        byte_index: 3,
    });
    let bass = Note::Bass(chiptunomatic::note::BassNote { midi: 40, duration_sixteenths: 8, byte_index: 4 });
    let a = Arpeggiator::default().with_config(ArpeggiatorConfig { subdivisions: 2, pattern: ArpeggioPattern::Up });
    let out = a.expand_notes(&m, &Mode::Chiptune, &[note, bass, note], &[0, 0, 1]);
    let mut expected = a.expand_note(&m, &Mode::Chiptune, &note, 0);
    expected.push(bass);
    expected.extend(a.expand_note(&m, &Mode::Chiptune, &note, 1));
    assert_eq!(out.len(), 5);
    assert_eq!(out, expected);
    assert!(a.expand_notes(&m, &Mode::Chiptune, &[], &[]).is_empty());
}

#[test]
fn generator_capacity_holds_its_bytes() {
    let mut g = NoteGenerator::default();
    assert!(g.capacity() >= g.len());
    g.extend(&[1, 2, 3, 4, 5, 6, 7]);
    assert_eq!(g.len(), 7);
    assert!(g.capacity() >= 7);
}

#[test]
fn bass_notes_pass_through_without_chords() {
    let m = SongMetadata::default();
    assert!(m.chord_progression.is_empty());
    let bass = Note::Bass(chiptunomatic::note::BassNote { midi: 40, duration_sixteenths: 8, byte_index: 2 });
    let a = Arpeggiator::default().with_config(ArpeggiatorConfig { subdivisions: 3, pattern: ArpeggioPattern::Up });
    assert_eq!(a.expand_note(&m, &Mode::Chiptune, &bass, 7), vec![bass]);
    assert_eq!(a.expand_notes(&m, &Mode::Chiptune, &[bass, bass], &[0, 1]), vec![bass, bass]);
}

#[test]
fn drum_hits_need_only_the_seed_byte_they_colour() {
    let mut p = DrumPattern::default();
    p.steps[0].offset = 2;
    let mut d = DrumSampler::default();
    d.set_drum_pattern(p);
    let mut m = SongMetadata::default();
    m.seed = vec![10, 20, 30];
    let hit = d.next_hit(&m);
    assert_eq!(hit.pattern, 2);
    assert_eq!(hit.color, 30);
    assert_eq!(d.drum_step(), 1);
}

#[test]
fn whole_beats_make_two_notes_each_then_none() {
    let mut m = meta();
    m.beat_skip_bytes = 2;
    let ctx = NoteContext { melody_chord_pos: 0, near_chord_end: false, near_phrase_end: false, bass_chord_pos: 0 };
    let k = 4u64;
    let bytes: Vec<u8> = (0..(5 * k) as u8).map(|b| b.wrapping_mul(29)).collect();
    let mut g = NoteGenerator::default();
    g.extend(&bytes);
    let mut got = Vec::new();
    while let Some(n) = g.note(&m, &Mode::Rock, &ctx) {
        got.push(n);
    }
    assert_eq!(got.len(), 2 * k as usize);
    for j in 0..k {
        match got[2 * j as usize] {
            Note::Melody(x) => assert_eq!(x.byte_index, 5 * j + 1),
            other => panic!("unexpected {:?}", other),
        }
        match got[2 * j as usize + 1] {
            Note::Bass(x) => {
                assert_eq!(x.byte_index, 5 * j + 2);
                assert_eq!(x.duration_sixteenths, 8);
            }
            other => panic!("unexpected {:?}", other),
        }
    }
    assert_eq!(g.len(), 0);
    assert_eq!(g.position(), 5 * k);
}

#[test]
fn drum_steps_cycle_every_sixteen_calls() {
    let mut p = DrumPattern::default();
    for i in 0..16 {
        p.steps[i].kick = i % 3 == 0;
    }
    let mut s = p.steps();
    for k in 0..50usize {
        assert_eq!(s.next(), Some(p.steps[k % 16]));
    }
}

#[test]
fn clocked_reading_in_chunks_reads_as_one() {
    let m = meta();
    let bytes: Vec<u8> = (0u8..=150).map(|b| b.wrapping_mul(53).wrapping_add(7)).collect();
    let mut whole = NoteGenerator::default();
    let mut whole_clock = NoteClock::new();
    whole.extend(&bytes);
    let all = whole_clock.read_notes(&mut whole, &m, &Mode::Medieval);
    let mut chunked = NoteGenerator::default();
    let mut chunked_clock = NoteClock::new();
    let mut got = Vec::new();
    for chunk in bytes.chunks(11) {
        chunked.extend(chunk);
        got.extend(chunked_clock.read_notes(&mut chunked, &m, &Mode::Medieval));
    }
    assert_eq!(all, got);
    assert_eq!(whole_clock, chunked_clock);
    assert_eq!(whole.position(), chunked.position());
    assert!(whole_clock.melody > 0 && whole_clock.bass > 0);
}

#[test]
fn clocked_reading_makes_two_notes_per_beat() {
    let mut m = meta();
    m.beat_skip_bytes = 1;
    let bytes: Vec<u8> = (0u8..24).collect();
    let mut g = NoteGenerator::default();
    g.extend(&bytes);
    let mut clock = NoteClock::new();
    let notes = clock.read_notes(&mut g, &m, &Mode::Chiptune);
    assert_eq!(notes.len(), 12);
    for j in 0..6u64 {
        assert!(matches!(notes[2 * j as usize], Note::Melody(x) if x.byte_index == 4 * j + 1));
        assert!(matches!(notes[2 * j as usize + 1], Note::Bass(x) if x.byte_index == 4 * j + 2));
    }
    assert_eq!(clock.bass, 6 * 8);
    assert_eq!(g.position(), 24);
}
