//! Mixer routing: which stems reach the output, after mute and solo.
//!
//! Volumes are carried as they are given (the caller's sample type); what is
//! decided here is whether each output is heard at its volume or silenced.

use vstd::prelude::*;

verus! {

/// The master output: a volume and a mute switch.
#[derive(Debug, Clone, Copy, PartialEq)]
pub struct MasterOutput<V> {
    pub volume: V,
    pub muted: bool,
}

/// One stem's output: a volume, a mute switch and a solo switch.
#[derive(Debug, Clone, Copy, PartialEq)]
pub struct StemOutput<V> {
    pub volume: V,
    pub muted: bool,
    pub solo: bool,
}

/// Configure the volumes
#[derive(Debug, Clone, Copy, PartialEq)]
pub struct MixerConfig<V> {
    pub master_output: MasterOutput<V>,
    pub voice_output: StemOutput<V>,
    pub square_output: StemOutput<V>,
    pub triangle_output: StemOutput<V>,
    pub noise_output: StemOutput<V>,
    pub sfx_output: StemOutput<V>,
}

/// The five stems of the mix.
#[derive(Debug, Clone, Copy, PartialEq, Eq)]
pub enum Stem {
    Voice,
    Square,
    Triangle,
    Noise,
    Sfx,
}

/// Some stem is soloed.
pub open spec fn spec_any_solo<V>(c: MixerConfig<V>) -> bool {
    c.voice_output.solo || c.square_output.solo || c.triangle_output.solo || c.noise_output.solo
        || c.sfx_output.solo
}

/// The output of stem `s`.
pub open spec fn stem_output<V>(c: MixerConfig<V>, s: Stem) -> StemOutput<V> {
    match s {
        Stem::Voice => c.voice_output,
        Stem::Square => c.square_output,
        Stem::Triangle => c.triangle_output,
        Stem::Noise => c.noise_output,
        Stem::Sfx => c.sfx_output,
    }
}

/// Stem `s` is heard: not muted, and soloed whenever some stem is.
pub open spec fn stem_audible<V>(c: MixerConfig<V>, s: Stem) -> bool {
    &&& !stem_output(c, s).muted
    &&& (spec_any_solo(c) ==> stem_output(c, s).solo)
}

/// What a stem plays at: its volume when it is heard, nothing otherwise.
pub open spec fn effective_stem<V>(c: MixerConfig<V>, s: Stem) -> Option<V> {
    if stem_audible(c, s) {
        Some(stem_output(c, s).volume)
    } else {
        None
    }
}

impl<V: Copy> MixerConfig<V> {
    /// Every output at `volume`, none muted or soloed.
    pub fn at_volume(volume: V) -> (r: Self)
        ensures
            r.master_output == (MasterOutput { volume, muted: false }),
            forall|s: Stem| #[trigger] stem_output(r, s) == (StemOutput { volume, muted: false, solo: false }),
    {
        let stem = StemOutput { volume, muted: false, solo: false };
        MixerConfig {
            master_output: MasterOutput { volume, muted: false },
            voice_output: stem,
            square_output: stem,
            triangle_output: stem,
            noise_output: stem,
            sfx_output: stem,
        }
    }

    /// Return if any solo is true for any stem
    pub fn any_solo(&self) -> (r: bool)
        ensures
            r == spec_any_solo(*self),
    {
        self.voice_output.solo || self.square_output.solo || self.triangle_output.solo
            || self.noise_output.solo || self.sfx_output.solo
    }

    /// The output of a stem.
    pub fn stem(&self, s: Stem) -> (r: StemOutput<V>)
        ensures
            r == stem_output(*self, s),
    {
        match s {
            Stem::Voice => self.voice_output,
            Stem::Square => self.square_output,
            Stem::Triangle => self.triangle_output,
            Stem::Noise => self.noise_output,
            Stem::Sfx => self.sfx_output,
        }
    }

    /// The master volume, or `None` when the master is muted.
    pub fn effective_master_volume(&self) -> (r: Option<V>)
        ensures
            r == if self.master_output.muted {
                None
            } else {
                Some(self.master_output.volume)
            },
    {
        if self.master_output.muted {
            None
        } else {
            Some(self.master_output.volume)
        }
    }

    /// The volume a stem plays at, or `None` when it is muted, or when other
    /// stems are soloed and it is not.
    pub fn effective_volume(&self, s: Stem) -> (r: Option<V>)
        ensures
            r == effective_stem(*self, s),
    {
        let out = self.stem(s);
        if out.muted || (self.any_solo() && !out.solo) {
            None
        } else {
            Some(out.volume)
        }
    }

    /// The voice volume, or `None` when the voice is silenced.
    pub fn effective_voice_volume(&self) -> (r: Option<V>)
        ensures
            r == effective_stem(*self, Stem::Voice),
    {
        self.effective_volume(Stem::Voice)
    }

    /// The square volume, or `None` when the square is silenced.
    pub fn effective_square_volume(&self) -> (r: Option<V>)
        ensures
            r == effective_stem(*self, Stem::Square),
    {
        self.effective_volume(Stem::Square)
    }

    /// The triangle volume, or `None` when the triangle is silenced.
    pub fn effective_triangle_volume(&self) -> (r: Option<V>)
        ensures
            r == effective_stem(*self, Stem::Triangle),
    {
        self.effective_volume(Stem::Triangle)
    }

    /// The noise volume, or `None` when the noise is silenced.
    pub fn effective_noise_volume(&self) -> (r: Option<V>)
        ensures
            r == effective_stem(*self, Stem::Noise),
    {
        self.effective_volume(Stem::Noise)
    }

    /// The sfx volume, or `None` when the sfx stem is silenced.
    pub fn effective_sfx_volume(&self) -> (r: Option<V>)
        ensures
            r == effective_stem(*self, Stem::Sfx),
    {
        self.effective_volume(Stem::Sfx)
    }
}

/// A muted stem is never heard, whatever the solos.
pub proof fn lemma_muted_is_silent<V>(c: MixerConfig<V>, s: Stem)
    requires
        stem_output(c, s).muted,
    ensures
        effective_stem(c, s) is None,
{
}

/// Once any stem is soloed, only soloed stems are heard.
pub proof fn lemma_solo_excludes_others<V>(c: MixerConfig<V>, soloed: Stem, other: Stem)
    requires
        stem_output(c, soloed).solo,
        !stem_output(c, other).solo,
    ensures
        effective_stem(c, other) is None,
{
}

/// With no stem soloed, every stem that is not muted plays at its own volume.
pub proof fn lemma_no_solo_plays_unmuted<V>(c: MixerConfig<V>, s: Stem)
    requires
        !spec_any_solo(c),
        !stem_output(c, s).muted,
    ensures
        effective_stem(c, s) == Some(stem_output(c, s).volume),
{
}

/// A soloed stem that is not muted plays at its own volume, whatever the
/// other stems are set to.
pub proof fn lemma_solo_plays<V>(c: MixerConfig<V>, s: Stem)
    requires
        stem_output(c, s).solo,
        !stem_output(c, s).muted,
    ensures
        effective_stem(c, s) == Some(stem_output(c, s).volume),
{
}

} // verus!

verus! {

/// Each stem is decided by its own output settings and by whether any stem
/// is soloed, never by another stem's switches: the voice by
/// `voice_output`, the square by `square_output`, the triangle by
/// `triangle_output`, the noise by `noise_output` and the effects by
/// `sfx_output`. A stem is silent when its own mute is on, or when some stem
/// is soloed and its own solo is off; otherwise it plays at its own volume.
pub proof fn lemma_each_stem_its_own_output<V>(c: MixerConfig<V>)
    ensures
        stem_output(c, Stem::Voice) == c.voice_output,
        stem_output(c, Stem::Square) == c.square_output,
        stem_output(c, Stem::Triangle) == c.triangle_output,
        stem_output(c, Stem::Noise) == c.noise_output,
        stem_output(c, Stem::Sfx) == c.sfx_output,
        spec_any_solo(c) == (c.voice_output.solo || c.square_output.solo || c.triangle_output.solo
            || c.noise_output.solo || c.sfx_output.solo),
        effective_stem(c, Stem::Voice) == (if c.voice_output.muted || (spec_any_solo(c) && !c.voice_output.solo) {
            None
        } else {
            Some(c.voice_output.volume)
        }),
        effective_stem(c, Stem::Square) == (if c.square_output.muted || (spec_any_solo(c) && !c.square_output.solo) {
            None
        } else {
            Some(c.square_output.volume)
        }),
        effective_stem(c, Stem::Triangle) == (if c.triangle_output.muted || (spec_any_solo(c)
            && !c.triangle_output.solo) {
            None
        } else {
            Some(c.triangle_output.volume)
        }),
        effective_stem(c, Stem::Noise) == (if c.noise_output.muted || (spec_any_solo(c) && !c.noise_output.solo) {
            None
        } else {
            Some(c.noise_output.volume)
        }),
        effective_stem(c, Stem::Sfx) == (if c.sfx_output.muted || (spec_any_solo(c) && !c.sfx_output.solo) {
            None
        } else {
            Some(c.sfx_output.volume)
        }),
{
}

} // verus!
