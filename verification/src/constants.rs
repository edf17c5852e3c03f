//! Fixed musical tables shared by every mode.

use vstd::prelude::*;

verus! {

/// Upper bound on how many planned notes one chunk of generation may emit.
pub const MAX_PLAN_CHUNK_NOTES: usize = 1024;

/// Sample rate (Hz) used unless another one is configured.
pub const SAMPLE_RATE: u32 = 44100;

/// MIDI number of the melody register's root (middle C).
pub const MELODY_BASE: i32 = 60;

/// MIDI number of the bass register's root.
pub const BASS_BASE: i32 = 36;

/// MIDI number of the harmony register's root.
pub const HARMONY_BASE: i32 = 48;

/// Number of beats each chord of a progression lasts.
pub const CHORD_BEATS: usize = 4;

/// Lowest MIDI note any generated note is clamped to.
pub const MIDI_MIN: i32 = 21;

/// Highest MIDI note any generated note is clamped to.
pub const MIDI_MAX: i32 = 108;

/// Names of the twelve pitch classes, starting at C.
pub const NOTE_NAMES: [&'static str; 12] = [
    "C", "C#", "D", "D#", "E", "F", "F#", "G", "G#", "A", "A#", "B",
];

/// Minor pentatonic scale, in semitones above the root.
pub const PENTATONIC_MINOR: [u8; 5] = [0, 3, 5, 7, 10];

/// Note lengths, in sixteenth notes, chosen by a byte modulo six.
pub const DURATIONS: [u8; 6] = [2, 2, 4, 4, 4, 8];

/// Chord loops (indices into the scale) of the default mode.
pub const CHORD_PROGRESSIONS: [[usize; 4]; 4] = [
    [0, 3, 2, 3],
    [0, 4, 3, 4],
    [0, 2, 3, 2],
    [0, 1, 4, 2],
];

/// Kick rows of the default drum pattern table.
pub const KICK_PATTERNS: [[u8; 16]; 3] = [
    [1, 0, 0, 0, 0, 0, 0, 0, 1, 0, 0, 0, 0, 0, 0, 0],
    [1, 0, 0, 1, 0, 0, 0, 0, 1, 0, 0, 0, 0, 0, 0, 0],
    [1, 0, 0, 0, 1, 0, 0, 0, 1, 0, 0, 0, 1, 0, 0, 0],
];

/// Snare rows of the default drum pattern table.
pub const SNARE_PATTERNS: [[u8; 16]; 3] = [
    [0, 0, 0, 0, 1, 0, 0, 0, 0, 0, 0, 0, 1, 0, 0, 0],
    [0, 0, 0, 0, 1, 0, 0, 0, 0, 0, 1, 0, 1, 0, 0, 0],
    [0, 0, 1, 0, 1, 0, 0, 0, 0, 0, 0, 0, 1, 0, 0, 0],
];

/// Hi-hat rows of the default drum pattern table.
pub const HAT_PATTERNS: [[u8; 16]; 3] = [
    [1, 0, 1, 0, 1, 0, 1, 0, 1, 0, 1, 0, 1, 0, 1, 0],
    [1, 0, 1, 1, 1, 0, 1, 0, 1, 0, 1, 1, 1, 0, 1, 0],
    [1, 1, 1, 1, 1, 1, 1, 1, 1, 1, 1, 1, 1, 1, 1, 1],
];

/// `x` clamped to the MIDI range `[MIDI_MIN, MIDI_MAX]`.
pub open spec fn clamp_midi(x: int) -> int {
    if x < MIDI_MIN {
        MIDI_MIN as int
    } else if x > MIDI_MAX {
        MIDI_MAX as int
    } else {
        x
    }
}

/// Clamp a MIDI note number to `[MIDI_MIN, MIDI_MAX]`.
pub fn clamp_midi_note(x: i32) -> (r: i32)
    ensures
        r == clamp_midi(x as int),
        MIDI_MIN <= r <= MIDI_MAX,
{
    if x < MIDI_MIN {
        MIDI_MIN
    } else if x > MIDI_MAX {
        MIDI_MAX
    } else {
        x
    }
}

} // verus!
