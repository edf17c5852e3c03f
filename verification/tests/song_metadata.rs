use chiptunomatic::chiptunomatic::song_metadata_from_digest;
use chiptunomatic::constants::{CHORD_PROGRESSIONS, SAMPLE_RATE};
use chiptunomatic::plugin::metal::METAL_CHORD_PROGRESSIONS;
use chiptunomatic::{Chiptunomatic, GenerateError, Mode, SongMetadataFromPathError};

fn be32(d: &[u8], i: usize) -> u32 {
    u32::from_be_bytes([d[i], d[i + 1], d[i + 2], d[i + 3]])
}

/// The beats of 150 seconds as the double-precision rule rounds them.
fn float_budget(bpm: i32) -> u64 {
    let beat_duration = 60.0 / f64::from(bpm);
    (150.0 / beat_duration) as u64
}

/// Bytes per beat as the double-precision rule computes them.
fn float_stride(len: u64, desired: u64) -> u64 {
    let total = len / 3;
    let stride = if desired < total {
        ((len as f64 / (desired * 3) as f64) * 3.0) as u64
    } else {
        3
    };
    stride.max(3)
}

#[test]
fn empty_input_is_refused() {
    let c = Chiptunomatic::default();
    assert_eq!(c.song_metadata_from_seed(b"abc", 0).unwrap_err(), GenerateError::EmptyInput);
    assert_eq!(c.song_metadata_from_string("abc", 0).unwrap_err(), GenerateError::EmptyInput);
    match c.song_metadata_from_file("abc", 0) {
        Err(SongMetadataFromPathError::Generate(GenerateError::EmptyInput)) => {}
        other => panic!("unexpected {:?}", other),
    }
}

#[test]
fn zero_digest_chiptune_song() {
    let m = song_metadata_from_digest(&Mode::Chiptune, &[0u8; 16], 3000);
    assert_eq!(m.seed, vec![0u8; 16]);
    assert_eq!(m.rng_seed, 0);
    assert_eq!(m.root_semitone, 0);
    assert_eq!(m.bpm, 150);
    assert_eq!(m.chord_progression, CHORD_PROGRESSIONS[0].to_vec());
    assert_eq!(m.chord_description, "C \u{2013} G \u{2013} F \u{2013} G");
    // intro 16, verse 24, pre 16, chorus 32, verse, pre, chorus, bridge 16, chorus, outro 16
    assert_eq!(m.sections.len(), 10);
    let beats: Vec<u64> = m.sections.iter().map(|s| s.beats).collect();
    assert_eq!(beats, vec![16, 24, 16, 32, 24, 16, 32, 16, 32, 16]);
    assert_eq!(m.total_beats, 224);
    assert_eq!(m.beat_skip_bytes, 10);
    assert_eq!(m.data_byte_len, 3000);
    assert_eq!(m.drum_seed, [0u8; 8]);
    // default kick row 0 plus the extra kick on step 6
    let kicks: Vec<usize> = (0..16).filter(|&i| m.drum_pattern.steps[i].kick).collect();
    assert_eq!(kicks, vec![0, 6, 8]);
    let snares: Vec<usize> = (0..16).filter(|&i| m.drum_pattern.steps[i].snare).collect();
    assert_eq!(snares, vec![4, 12]);
    assert!(m.drum_pattern.steps.iter().all(|s| !s.open_hat));
}

#[test]
fn short_stream_limits_beats() {
    let m = song_metadata_from_digest(&Mode::Chiptune, &[0u8; 16], 600);
    assert_eq!(m.total_beats, 200);
    assert_eq!(m.beat_skip_bytes, 0);
    let m = song_metadata_from_digest(&Mode::Chiptune, &[0u8; 16], 672);
    assert_eq!(m.total_beats, 224);
    assert_eq!(m.beat_skip_bytes, 0);
}

#[test]
fn structureless_mode_lasts_150_seconds() {
    let m = song_metadata_from_digest(&Mode::Lofi, &[0u8; 16], 300);
    assert_eq!(m.bpm, 74);
    assert_eq!(m.total_beats, 100);
    assert_eq!(m.beat_skip_bytes, 0);
    assert!(m.sections.is_empty());
    let m = song_metadata_from_digest(&Mode::Lofi, &[0u8; 16], 3000);
    assert_eq!(m.total_beats, 185);
    assert_eq!(m.beat_skip_bytes, 13);
}

#[test]
fn tempo_174_rounds_down_like_floating_point() {
    let mut d = [0u8; 16];
    d[2] = 0x22; // root seed 8704: (8704 >> 8) % 36 == 34 gives 174 BPM in metal mode
    let m = song_metadata_from_digest(&Mode::Metal, &d, 30000);
    assert_eq!(m.bpm, 174);
    assert_eq!(m.root_semitone, 4);
    assert_eq!(m.total_beats, 434);
    assert_eq!(m.total_beats, float_budget(174));
    assert_eq!(m.beat_skip_bytes, 66);
    assert_eq!(m.chord_progression, METAL_CHORD_PROGRESSIONS[0].to_vec());
}

#[test]
fn beat_budget_matches_floating_point_for_every_tempo() {
    let modes = [
        Mode::Lofi,
        Mode::Rock,
        Mode::Metal,
        Mode::Persian,
        Mode::Rap,
        Mode::Trap,
        Mode::Medieval,
        Mode::Koto,
        Mode::Toy,
        Mode::Samba,
    ];
    for mode in modes {
        for k in 0u32..40 {
            let root_seed = k * 256;
            let mut d = [0u8; 16];
            d[0..4].copy_from_slice(&root_seed.to_be_bytes());
            let m = song_metadata_from_digest(&mode, &d, 1 << 40);
            assert_eq!(m.total_beats, float_budget(m.bpm), "mode {:?} bpm {}", mode, m.bpm);
        }
    }
}

#[test]
fn stride_matches_floating_point() {
    for len in (1u64..20000).step_by(7) {
        let m = song_metadata_from_digest(&Mode::Chiptune, &[0u8; 16], len);
        assert_eq!(m.beat_skip_bytes + 3, float_stride(len, m.total_beats), "len {}", len);
        assert!(m.total_beats * (m.beat_skip_bytes + 3) <= len);
    }
}

#[test]
fn rng_seed_drops_the_top_bit() {
    let mut d = [0u8; 16];
    d[12] = 0x80;
    d[15] = 1;
    let m = song_metadata_from_digest(&Mode::Chiptune, &d, 10);
    assert_eq!(m.rng_seed, 1);
}

#[test]
fn metadata_comes_from_the_md5_digest() {
    let c = Chiptunomatic::default();
    let m = c.song_metadata_from_seed(b"hello", 99).unwrap();
    let d = md5::compute(b"hello").0;
    assert_eq!(m.seed, d.to_vec());
    assert_ne!(m.seed, b"hello".to_vec());
    assert_eq!(m.root_semitone as u32, be32(&d, 0) % 12);
    assert_eq!(m.rng_seed, u64::from(be32(&d, 12) % (1u32 << 31)));
    assert_eq!(m.drum_seed.to_vec(), d[8..16].to_vec());
    let expected = song_metadata_from_digest(&Mode::Chiptune, &d, 99);
    assert_eq!(m.bpm, expected.bpm);
    assert_eq!(m.total_beats, expected.total_beats);
    assert_eq!(m.chord_description, expected.chord_description);
}

#[test]
fn string_seed_is_its_utf8_bytes() {
    let c = Chiptunomatic::default();
    let a = c.song_metadata_from_string("caf\u{e9}.bin", 1234).unwrap();
    let b = c.song_metadata_from_seed("caf\u{e9}.bin".as_bytes(), 1234).unwrap();
    assert_eq!(a.seed, b.seed);
    assert_eq!(a.total_beats, b.total_beats);
    let f = c.song_metadata_from_file("caf\u{e9}.bin", 1234).unwrap();
    assert_eq!(f.seed, a.seed);
}

#[test]
fn same_file_same_song() {
    let c = Chiptunomatic::default().with_default_plugins();
    for name in ["a", "song.mp3", "Cargo.toml"] {
        let a = c.song_metadata_from_string(name, 4096).unwrap();
        let b = c.song_metadata_from_string(name, 4096).unwrap();
        assert_eq!(a.seed, b.seed);
        assert_eq!(a.bpm, b.bpm);
        assert_eq!(a.chord_progression, b.chord_progression);
        assert_eq!(a.chord_description, b.chord_description);
        assert_eq!(a.total_beats, b.total_beats);
        assert_eq!(a.beat_skip_bytes, b.beat_skip_bytes);
        assert_eq!(a.drum_pattern, b.drum_pattern);
        assert_eq!(a.sections, b.sections);
    }
}

#[test]
fn loading_installs_the_song() {
    let mut c = Chiptunomatic::default();
    let m = c.load_song_metadata_from_string("track.wav", 900).unwrap();
    assert_eq!(c.metadata().seed, m.seed);
    assert_eq!(c.metadata().total_beats, m.total_beats);
    assert_eq!(c.sample_rate(), SAMPLE_RATE);
    let before = c.metadata().seed.clone();
    assert!(c.load_song_metadata_from_seed(b"x", 0).is_err());
    assert_eq!(c.metadata().seed, before);
    match c.load_song_metadata_from_file("other", 0) {
        Err(SongMetadataFromPathError::Generate(GenerateError::EmptyInput)) => {}
        other => panic!("unexpected {:?}", other),
    }
    let f = c.load_song_metadata_from_file("other", 30).unwrap();
    assert_eq!(c.metadata().seed, f.seed);
}
