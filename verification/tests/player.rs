use std::collections::VecDeque;

use chiptunomatic::clock::NoteClock;
use chiptunomatic::note::{BassNote, MelodyNote};
use chiptunomatic::pcm::pcm_le_bytes;
use chiptunomatic::plot::{StemFrame, StemPlotBuffer};
use chiptunomatic::progress::PlaybackProgress;
use chiptunomatic::text::{build_chord_description, format_clock, format_duration, join_strings};
use chiptunomatic::ui::{
    autoplay_next, format_playback_clock, handle_key, next_mode, prev_mode, toggle_button,
    FocusedButton, PlayerAction, PlayerKey, PlayerState, Selection,
};
use chiptunomatic::worker::{coalesce_commands, take_until_play, WorkerCommand};
use chiptunomatic::{MixerConfig, Note, SongMetadata, Stem};

fn modes() -> Vec<String> {
    ["chiptune", "lofi", "rock", "metal"].iter().map(|s| s.to_string()).collect()
}

#[test]
fn focus_ring_cycles_through_ten_buttons() {
    let mut b = FocusedButton::Muted(0);
    let mut seen = Vec::new();
    for _ in 0..10 {
        seen.push(b);
        b = b.next();
    }
    assert_eq!(b, FocusedButton::Muted(0));
    assert_eq!(seen[1], FocusedButton::Solo(0));
    assert_eq!(seen[2], FocusedButton::Muted(1));
    assert_eq!(seen[9], FocusedButton::Solo(4));
    for s in seen {
        assert_eq!(s.next().prev(), s);
        assert_eq!(s.prev().next(), s);
    }
    assert_eq!(FocusedButton::Muted(0).prev(), FocusedButton::Solo(4));
}

#[test]
fn next_and_prev_mode_wrap() {
    let m = modes();
    assert_eq!(next_mode(&m, &"chiptune".to_string()), "lofi");
    assert_eq!(next_mode(&m, &"metal".to_string()), "chiptune");
    assert_eq!(next_mode(&m, &"unknown".to_string()), "chiptune");
    assert_eq!(prev_mode(&m, &"chiptune".to_string()), "metal");
    assert_eq!(prev_mode(&m, &"rock".to_string()), "lofi");
    assert_eq!(prev_mode(&m, &"unknown".to_string()), "metal");
    assert_eq!(prev_mode(&[], &"solo".to_string()), "solo");
    for name in &m {
        assert_eq!(&prev_mode(&m, &next_mode(&m, name)), name);
        assert_eq!(&next_mode(&m, &prev_mode(&m, name)), name);
    }
}

#[test]
fn keys_drive_the_player() {
    let idle = PlayerState { focused: None, autoplay: false };
    let file = Selection { is_file: true, is_playing: false };
    let playing = Selection { is_file: true, is_playing: true };
    let dir = Selection { is_file: false, is_playing: false };

    assert_eq!(handle_key(idle, PlayerKey::Quit, file), (idle, PlayerAction::Quit));
    let (focused, a) = handle_key(idle, PlayerKey::Tab, file);
    assert_eq!(a, PlayerAction::Refocus);
    assert_eq!(focused.focused, Some(FocusedButton::Muted(0)));
    let (back, _) = handle_key(idle, PlayerKey::BackTab, file);
    assert_eq!(back.focused, Some(FocusedButton::Solo(4)));
    // q with a button focused only drops the focus
    assert_eq!(handle_key(focused, PlayerKey::Quit, file), (idle, PlayerAction::Refocus));
    assert_eq!(
        handle_key(focused, PlayerKey::Space, file).1,
        PlayerAction::Toggle(FocusedButton::Muted(0))
    );
    assert_eq!(handle_key(idle, PlayerKey::Space, file).1, PlayerAction::Explorer);
    assert_eq!(handle_key(idle, PlayerKey::Enter, file).1, PlayerAction::Play);
    assert_eq!(handle_key(idle, PlayerKey::Enter, playing).1, PlayerAction::TogglePause);
    assert_eq!(handle_key(idle, PlayerKey::Enter, dir).1, PlayerAction::Explorer);
    assert_eq!(handle_key(idle, PlayerKey::NextMode, dir).1, PlayerAction::NextMode);
    assert_eq!(handle_key(idle, PlayerKey::PrevMode, dir).1, PlayerAction::PrevMode);
    let (auto, a) = handle_key(idle, PlayerKey::Autoplay, dir);
    assert_eq!(a, PlayerAction::ToggleAutoplay);
    assert!(auto.autoplay);
    assert_eq!(handle_key(focused, PlayerKey::Autoplay, dir).1, PlayerAction::Explorer);
    assert_eq!(handle_key(idle, PlayerKey::Other, dir), (idle, PlayerAction::Explorer));
    // Tab then BackTab comes back
    let (s, _) = handle_key(focused, PlayerKey::Tab, file);
    assert_eq!(handle_key(s, PlayerKey::BackTab, file).0, focused);
    assert!(autoplay_next(auto, true));
    assert!(!autoplay_next(auto, false));
    assert!(!autoplay_next(idle, true));
}

#[test]
fn solos_are_additive() {
    let mut c = MixerConfig::at_volume(0.5f32);
    c.square_output.solo = true;
    c.triangle_output.solo = true;
    assert!(c.any_solo());
    assert_eq!(c.effective_square_volume(), Some(0.5));
    assert_eq!(c.effective_triangle_volume(), Some(0.5));
    assert_eq!(c.effective_voice_volume(), None);
    assert_eq!(c.effective_noise_volume(), None);
    assert_eq!(c.effective_sfx_volume(), None);
    assert_eq!(c.effective_master_volume(), Some(0.5));
}

#[test]
fn mute_wins_over_solo() {
    let mut c = MixerConfig::at_volume(1.0f32);
    c.voice_output.solo = true;
    c.voice_output.muted = true;
    assert_eq!(c.effective_volume(Stem::Voice), None);
    assert_eq!(c.effective_volume(Stem::Square), None);
    c.master_output.muted = true;
    assert_eq!(c.effective_master_volume(), None);
    let plain = MixerConfig::at_volume(0.25f32);
    assert!(!plain.any_solo());
    for s in [Stem::Voice, Stem::Square, Stem::Triangle, Stem::Noise, Stem::Sfx] {
        assert_eq!(plain.effective_volume(s), Some(0.25));
    }
}

#[test]
fn space_toggles_the_focused_switch() {
    let mut c = MixerConfig::at_volume(1.0f32);
    toggle_button(&mut c, FocusedButton::Muted(3));
    assert!(c.noise_output.muted);
    toggle_button(&mut c, FocusedButton::Solo(4));
    assert!(c.sfx_output.solo);
    toggle_button(&mut c, FocusedButton::Solo(9));
    toggle_button(&mut c, FocusedButton::Muted(3));
    toggle_button(&mut c, FocusedButton::Solo(4));
    assert_eq!(c, MixerConfig::at_volume(1.0f32));
}

#[test]
fn progress_counts_samples_of_the_track() {
    let mut p = PlaybackProgress::new();
    p.add_samples(100);
    assert_eq!(p.elapsed_samples(), 0);
    assert_eq!(p.total_samples(), 0);
    p.begin_track(0);
    assert_eq!(p.total_samples(), 1);
    p.begin_track(1000);
    p.add_samples(300);
    p.add_samples(0);
    assert_eq!(p.elapsed_samples(), 300);
    p.add_samples(5000);
    assert_eq!(p.elapsed_samples(), 1000);
    p.mark_complete();
    assert_eq!(p.elapsed_samples(), 1000);
    p.reset_idle();
    assert_eq!(p.total_samples(), 0);
    p.mark_complete();
    assert_eq!(p.elapsed_samples(), 0);
    p.begin_track(10);
    p.add_samples(u64::MAX);
    p.add_samples(2);
    // the counter wraps round
    assert_eq!(p.elapsed_samples(), 1);
}

#[test]
fn playback_clock() {
    assert_eq!(format_playback_clock(44100 * 125, 44100), "2:05");
    assert_eq!(format_playback_clock(44099, 44100), "0:00");
    assert_eq!(format_playback_clock(123456, 0), "0:00");
    assert_eq!(format_clock(3600), "60:00");
}

#[test]
fn texts() {
    assert_eq!(format_duration(42), "42s");
    assert_eq!(format_duration(187), "3:07");
    assert_eq!(format_duration(60), "1:00");
    assert_eq!(build_chord_description(0, &[0, 3, 2, 3]), "C \u{2013} G \u{2013} F \u{2013} G");
    assert_eq!(build_chord_description(11, &[1]), "D");
    assert_eq!(join_strings(&["rock".to_string(), "metal".to_string()], ", "), "rock, metal");
    assert_eq!(join_strings(&[], ", "), "");
}

#[test]
fn pcm_is_little_endian() {
    let bytes = pcm_le_bytes(&[0, 1, -1, 256, i16::MIN, i16::MAX]);
    assert_eq!(bytes, vec![0, 0, 1, 0, 0xff, 0xff, 0, 1, 0, 0x80, 0xff, 0x7f]);
    for v in [-12345i16, -1, 0, 7, 30000] {
        let b = pcm_le_bytes(&[v]);
        assert_eq!(i16::from_le_bytes([b[0], b[1]]), v);
    }
}

#[test]
fn latest_play_request_wins() {
    let mut q: VecDeque<(u64, WorkerCommand<&str, u8>)> = VecDeque::new();
    q.push_back((1, WorkerCommand::SetMixerConfig(10)));
    q.push_back((2, WorkerCommand::Play("a")));
    q.push_back((3, WorkerCommand::SetMixerConfig(11)));
    q.push_back((4, WorkerCommand::Play("b")));
    let (cmd, applied) = coalesce_commands((0, WorkerCommand::Play("first")), &mut q);
    assert_eq!(cmd, (4, WorkerCommand::Play("b")));
    assert_eq!(applied, vec![10, 11]);
    assert!(q.is_empty());

    let mut q: VecDeque<(u64, WorkerCommand<&str, u8>)> = VecDeque::new();
    q.push_back((1, WorkerCommand::SetMixerConfig(20)));
    let (cmd, applied) = coalesce_commands((0, WorkerCommand::SetMixerConfig(5)), &mut q);
    assert_eq!(cmd, (0, WorkerCommand::SetMixerConfig(5)));
    assert_eq!(applied, vec![20]);
}

#[test]
fn play_request_interrupts_a_track() {
    let mut q: VecDeque<(u64, WorkerCommand<&str, u8>)> = VecDeque::new();
    q.push_back((1, WorkerCommand::SetMixerConfig(1)));
    q.push_back((2, WorkerCommand::Play("x")));
    q.push_back((3, WorkerCommand::SetMixerConfig(2)));
    let (play, applied) = take_until_play(&mut q);
    assert_eq!(play, Some((2, WorkerCommand::Play("x"))));
    assert_eq!(applied, vec![1]);
    assert_eq!(q.len(), 1);
    let (play, applied) = take_until_play(&mut q);
    assert_eq!(play, None);
    assert_eq!(applied, vec![2]);
    assert!(q.is_empty());
}

#[test]
fn stem_plot_keeps_the_newest_samples() {
    let mut p: StemPlotBuffer<f32> = StemPlotBuffer::new(10);
    let frames: Vec<StemFrame<f32>> = (0..300)
        .map(|i| StemFrame {
            voice: i as f32,
            square: -(i as f32),
            triangle: 0.5,
            noise: 0.25,
            sfx: 0.0,
        })
        .collect();
    p.push_samples(&frames[0..100]);
    assert_eq!(p.voice().len(), 100);
    p.push_samples(&frames[100..300]);
    assert_eq!(p.voice().len(), 256);
    assert_eq!(p.voice()[0], 44.0);
    assert_eq!(p.voice()[255], 299.0);
    assert_eq!(p.square()[255], -299.0);
    assert_eq!(p.triangle().len(), 256);
    assert_eq!(p.noise().len(), 256);
    assert_eq!(p.sfx().len(), 256);
    p.push_samples(&[]);
    assert_eq!(p.voice().len(), 256);
    p.clear();
    assert!(p.voice().is_empty());
}

#[test]
fn note_clock_places_notes_in_the_chord_loop() {
    let mut m = SongMetadata::default();
    m.chord_progression = vec![0, 3, 2, 3];
    let mut c = NoteClock::new();
    let ctx = c.context(&m);
    assert_eq!((ctx.melody_chord_pos, ctx.near_chord_end, ctx.near_phrase_end, ctx.bass_chord_pos), (0, false, false, 0));
    c.melody = 10;
    assert!(!c.context(&m).near_chord_end);
    c.melody = 11;
    assert!(c.context(&m).near_chord_end);
    c.melody = 56;
    assert!(!c.context(&m).near_phrase_end);
    c.melody = 57;
    let ctx = c.context(&m);
    assert!(ctx.near_phrase_end);
    assert_eq!(ctx.melody_chord_pos, 3);
    assert_eq!(c.melody_beat(), 14);
    assert_eq!(c.melody_chord_pos(), 3);
    let mel = Note::Melody(MelodyNote {
        midi: 60,
        harmony_midi: 57,
        duration_sixteenths: 4,
        subdivisions: 1,
        degree: 0,
        octave: 0,
        byte_index: 1,
    });
    let bass = Note::Bass(BassNote { midi: 40, duration_sixteenths: 8, byte_index: 2 });
    c.advance(&mel);
    c.advance(&bass);
    c.advance(&bass);
    assert_eq!(c, NoteClock { melody: 61, bass: 16 });
    assert_eq!(c.context(&m).bass_chord_pos, 1);
    assert!(!NoteClock::new().context(&SongMetadata::default()).near_phrase_end);
}
