//! Procedural chiptune music from arbitrary bytes: the same input yields the
//! same song. This crate holds every decision that turns a seed and a byte
//! stream into notes, drum hits, song sections and mixer routing; turning
//! notes into sound is left to the caller.
//!
//! Module map:
//! - [`chiptunomatic`]: the engine (modes, loaded song, playback decisions);
//! - [`metadata`], [`digest`], [`text`]: what a seed makes of a song;
//! - [`plugin`]: the music modes and their tables;
//! - [`note`], [`arpeggio`], [`drum`]: notes and drum steps from bytes;
//! - [`clock`]: where the voices stand in the chord loop, in sixteenths;
//! - [`mix`]: mute and solo routing;
//! - [`ui`], [`progress`], [`worker`], [`plot`], [`pcm`]: what the player
//!   decides around the engine.

pub mod arpeggio;
pub mod chiptunomatic;
pub mod clock;
pub mod constants;
pub mod consumer;
pub mod digest;
pub mod drum;
pub mod metadata;
pub mod mix;
pub mod note;
pub mod pcm;
pub mod plot;
pub mod plugin;
pub mod producer;
pub mod progress;
pub mod random;
pub mod text;
pub mod ui;
pub mod worker;

pub use crate::arpeggio::{ArpeggiatorConfig, Arpeggiator, ArpeggioPattern};
pub use crate::chiptunomatic::{Chiptunomatic, ChiptunomaticError, SongMetadataFromPathError};
pub use crate::drum::{DrumHit, DrumPattern, DrumSampler, DrumStep, Steps};
pub use crate::metadata::{GenerateError, SongMetadata};
pub use crate::mix::{MasterOutput, MixerConfig, Stem, StemOutput};
pub use crate::note::{BassNote, MelodyNote, Note, NoteContext, NoteGenerator};
pub use crate::plugin::{Mode, Plugin, SectionDef, StemMask};
