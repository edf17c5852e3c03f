use chiptunomatic::consumer::Consume;
use chiptunomatic::constants::{BASS_BASE, DURATIONS, MELODY_BASE};
use chiptunomatic::plugin::StemMask;
use chiptunomatic::{
    ArpeggiatorConfig, ArpeggioPattern, Chiptunomatic, ChiptunomaticError, Mode, Note, NoteContext,
};

fn names(c: &Chiptunomatic) -> Vec<String> {
    c.modes_string()
}

fn ctx0() -> NoteContext {
    NoteContext {
        melody_chord_pos: 0,
        near_chord_end: false,
        near_phrase_end: false,
        bass_chord_pos: 0,
    }
}

#[test]
fn default_has_the_chiptune_mode() {
    let c = Chiptunomatic::default();
    assert_eq!(c.modes(), vec!["chiptune"]);
    assert_eq!(c.mode(), "chiptune");
    assert_eq!(c.mode_string(), "chiptune");
    assert!(c.has_sfx());
    assert_eq!(c.position(), 0);
    assert!(c.is_empty());
}

#[test]
fn default_plugins_in_order() {
    let c = Chiptunomatic::default().with_default_plugins();
    assert_eq!(
        names(&c),
        vec!["chiptune", "rock", "metal", "rap", "trap", "toy", "samba", "koto", "lofi"]
    );
    assert_eq!(c.mode(), "chiptune");
    let modes = c.modes_string();
    assert_eq!(chiptunomatic::ui::next_mode(&modes, &"chiptune".to_string()), "rock");
    assert_eq!(chiptunomatic::ui::next_mode(&modes, &"rock".to_string()), "metal");
}

#[test]
fn plugins_from_list_keeps_listed_modes_in_order() {
    let list = vec!["rock".to_string(), "nope".to_string(), "chiptune".to_string()];
    let c = Chiptunomatic::default().with_plugins_from_list(&list).unwrap();
    assert_eq!(names(&c), vec!["chiptune", "rock"]);
    assert_eq!(c.mode(), "chiptune");
}

#[test]
fn plugins_from_list_moves_off_an_excluded_mode() {
    let list = vec!["metal".to_string(), "rock".to_string()];
    let c = Chiptunomatic::default().with_plugins_from_list(&list).unwrap();
    assert_eq!(names(&c), vec!["rock", "metal"]);
    assert_eq!(c.mode(), "rock");
}

#[test]
fn plugins_from_list_without_a_valid_name_fails() {
    let list = vec!["a".to_string(), "b".to_string()];
    match Chiptunomatic::default().with_plugins_from_list(&list) {
        Err(ChiptunomaticError::InvalidMode(msg)) => assert_eq!(msg, "a, b"),
        Ok(_) => panic!("accepted"),
    }
    // persian and medieval are not offered by name
    let list = vec!["persian".to_string(), "medieval".to_string()];
    assert!(Chiptunomatic::default().with_plugins_from_list(&list).is_err());
}

#[test]
fn set_mode_selects_a_registered_mode() {
    let mut c = Chiptunomatic::default().with_default_plugins();
    assert!(c.set_mode(&"metal".to_string()).is_ok());
    assert_eq!(c.mode(), "metal");
    assert!(!c.has_sfx());
    match c.set_mode(&"polka".to_string()) {
        Err(ChiptunomaticError::InvalidMode(m)) => assert_eq!(m, "polka"),
        Ok(()) => panic!("accepted"),
    }
    assert_eq!(c.mode(), "metal");
}

#[test]
fn register_plugin_appends() {
    let mut c = Chiptunomatic::default();
    c.register_plugin(Mode::Persian).register_plugin(Mode::Medieval);
    assert_eq!(c.modes(), vec!["chiptune", "persian", "medieval"]);
    assert!(c.set_mode(&"medieval".to_string()).is_ok());
    assert_eq!(*c.plugin(), Mode::Medieval);
}

#[test]
fn setters_and_getters() {
    let c = Chiptunomatic::default()
        .with_sample_rate(22050)
        .with_plugins(vec![Mode::Rap, Mode::Toy])
        .with_plugin(Mode::Toy);
    assert_eq!(c.sample_rate(), 22050);
    assert_eq!(c.plugins(), &vec![Mode::Rap, Mode::Toy]);
    assert_eq!(c.mode(), "toy");
    let mut c = c;
    c.set_sample_rate(8000).set_plugin(Mode::Rap);
    assert_eq!(c.sample_rate(), 8000);
    assert_eq!(c.mode(), "rap");
    c.plugins_mut().push(Mode::Koto);
    assert_eq!(c.modes(), vec!["rap", "toy", "koto"]);
    *c.plugin_mut() = Mode::Koto;
    assert_eq!(c.mode(), "koto");
    c.set_plugins(vec![Mode::Lofi]);
    assert_eq!(c.modes(), vec!["lofi"]);
    c.arpeggiator_mut().set_config(ArpeggiatorConfig {
        subdivisions: 2,
        pattern: ArpeggioPattern::Down,
    });
    assert_eq!(c.arpeggiator().config().subdivisions, 2);
}

#[test]
fn bytes_make_a_melody_then_a_bass_note() {
    let mut c = Chiptunomatic::default();
    let m = c.load_song_metadata_from_string("notes", 30).unwrap();
    c.extend(&[0, 0, 0]);
    assert_eq!(c.len(), 3);
    let root = m.root_semitone as i32;
    match c.next_note(&ctx0()) {
        Some(Note::Melody(n)) => {
            // the walk starts on degree 0 going up: an upper byte of 0 steps up one degree
            assert_eq!(n.degree, 1);
            assert_eq!(n.octave, 0);
            assert_eq!(n.midi, (MELODY_BASE + root + 3).clamp(21, 108));
            assert_eq!(n.duration_sixteenths, DURATIONS[0] as u32);
            assert_eq!(n.byte_index, 1);
        }
        other => panic!("unexpected {:?}", other),
    }
    match c.next_note(&ctx0()) {
        Some(Note::Bass(b)) => {
            // a byte with its low three bits clear plays the chord's colour tone
            let deg = m.chord_progression[0];
            let scale = [0, 3, 5, 7, 10];
            assert_eq!(b.midi, (BASS_BASE + root + scale[(deg + 1) % 5]).clamp(21, 108));
            assert_eq!(b.duration_sixteenths, 8);
            assert_eq!(b.byte_index, 2);
        }
        other => panic!("unexpected {:?}", other),
    }
    assert_eq!(c.position(), 3);
    assert!(c.next_note(&ctx0()).is_none());
}

#[test]
fn arpeggiated_melody_note() {
    let mut c = Chiptunomatic::default();
    c.load_song_metadata_from_string("arp", 30).unwrap();
    c.arpeggiator_mut().set_config(ArpeggiatorConfig {
        subdivisions: 3,
        pattern: ArpeggioPattern::Up,
    });
    c.extend(&[0, 5]);
    let note = c.next_note(&ctx0()).unwrap();
    let notes = c.expand_note(&note, 0);
    assert_eq!(notes.len(), 3);
    for n in &notes {
        match n {
            Note::Melody(m) => assert_eq!(m.subdivisions, 3),
            _ => panic!("bass from a melody note"),
        }
    }
}

#[test]
fn sections_advance_and_owe_silence() {
    let mut c = Chiptunomatic::default();
    let m = c.load_song_metadata_from_string("sections", 100000).unwrap();
    let intro = m.sections[0];
    assert_eq!(c.stem_mask(), intro.stems);
    assert!(!c.stem_mask().voice && c.stem_mask().square && c.stem_mask().triangle);
    assert_eq!(c.advance_section(intro.beats - 1), None);
    assert_eq!(c.advance_section(intro.beats), Some(800));
    assert_eq!(c.section_index(), 1);
    assert_eq!(c.stem_mask(), m.sections[1].stems);
    c.start_silence(2);
    assert!(c.take_silence());
    assert!(c.take_silence());
    assert!(!c.take_silence());
}

#[test]
fn no_structure_lets_every_stem_through() {
    let mut c = Chiptunomatic::default().with_default_plugins();
    c.set_mode(&"rock".to_string()).unwrap();
    c.load_song_metadata_from_string("loud", 300).unwrap();
    assert_eq!(c.stem_mask(), StemMask::all());
    assert_eq!(c.advance_section(1000), None);
}

#[test]
fn drum_hits_walk_the_pattern() {
    let mut c = Chiptunomatic::default();
    let m = c.load_song_metadata_from_string("drums", 300).unwrap();
    for i in 0..20usize {
        let hit = c.next_drum_hit();
        assert_eq!(hit.step, m.drum_pattern.steps[i % 16]);
        assert_eq!(hit.pattern, i % 16);
        assert_eq!(hit.color, m.seed[(i % 16) % 8]);
    }
}

#[test]
fn reset_rewinds_playback_only() {
    let mut c = Chiptunomatic::default();
    let m = c.load_song_metadata_from_string("reset", 300).unwrap();
    c.extend(&[1, 2, 3, 4]);
    c.next_note(&ctx0());
    c.advance_section(10000);
    c.start_silence(5);
    c.reset();
    assert_eq!(c.position(), 0);
    assert!(c.is_empty());
    assert_eq!(c.section_index(), 0);
    assert!(!c.take_silence());
    assert_eq!(c.metadata().seed, m.seed);
    assert_eq!(c.mode(), "chiptune");
}

#[test]
fn reset_restarts_the_drums_like_a_fresh_engine() {
    let mut c = Chiptunomatic::default();
    c.load_song_metadata_from_string("drums", 300).unwrap();
    for _ in 0..3 {
        c.next_drum_hit();
    }
    assert_eq!(c.drums().drum_step(), 3);
    c.reset();
    assert_eq!(c.drums().drum_step(), 0);
    let mut f = Chiptunomatic::default();
    f.load_song_metadata_from_string("drums", 300).unwrap();
    for _ in 0..20 {
        assert_eq!(c.next_drum_hit(), f.next_drum_hit());
    }
}

#[test]
fn buffer_accepts_single_bytes() {
    let mut c = Chiptunomatic::default();
    c.push(9);
    c.push(8);
    assert_eq!(c.len(), 2);
    assert!(!c.is_empty());
    assert!(c.capacity() >= 2);
}

#[test]
fn clone_keeps_the_engine() {
    let mut c = Chiptunomatic::default().with_default_plugins();
    c.set_mode(&"trap".to_string()).unwrap();
    c.load_song_metadata_from_string("clone", 60).unwrap();
    c.extend(&[1, 2]);
    let d = c.clone();
    assert_eq!(d.mode(), "trap");
    assert_eq!(d.len(), 2);
    assert_eq!(d.metadata().seed, c.metadata().seed);
}

#[test]
fn same_mode_same_song_whatever_else_differs() {
    let a = Chiptunomatic::default();
    let mut b = Chiptunomatic::default().with_default_plugins();
    b.extend(&[1, 2, 3, 4, 5]);
    b.set_sample_rate(22050);
    let ma = a.song_metadata_from_seed(b"same name", 4000).unwrap();
    let mb = b.song_metadata_from_seed(b"same name", 4000).unwrap();
    assert_eq!(ma.seed, mb.seed);
    assert_eq!(ma.rng_seed, mb.rng_seed);
    assert_eq!(ma.root_semitone, mb.root_semitone);
    assert_eq!(ma.bpm, mb.bpm);
    assert_eq!(ma.chord_progression, mb.chord_progression);
    assert_eq!(ma.chord_description, mb.chord_description);
    assert_eq!(ma.total_beats, mb.total_beats);
    assert_eq!(ma.beat_skip_bytes, mb.beat_skip_bytes);
    assert_eq!(ma.data_byte_len, mb.data_byte_len);
    assert_eq!(ma.drum_pattern, mb.drum_pattern);
    assert_eq!(ma.drum_seed, mb.drum_seed);
    assert_eq!(ma.sections, mb.sections);
    assert!(a.song_metadata_from_seed(b"same name", 0).is_err());
    assert!(b.song_metadata_from_seed(b"same name", 0).is_err());
}
