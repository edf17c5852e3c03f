//! Rolling per-stem windows of the most recent samples, for waveform charts.

use vstd::prelude::*;

verus! {

/// One sample of each of the five stems.
#[derive(Debug, Clone, Copy, PartialEq)]
pub struct StemFrame<T> {
    pub voice: T,
    pub square: T,
    pub triangle: T,
    pub noise: T,
    pub sfx: T,
}

/// The last `cap` items of `s`, or all of them when there are fewer.
pub open spec fn window<T>(s: Seq<T>, cap: nat) -> Seq<T> {
    if s.len() > cap {
        s.skip(s.len() - cap)
    } else {
        s
    }
}

/// The voice samples of a run of frames.
pub open spec fn voices<T>(f: Seq<StemFrame<T>>) -> Seq<T> {
    f.map_values(|x: StemFrame<T>| x.voice)
}

/// The square samples of a run of frames.
pub open spec fn squares<T>(f: Seq<StemFrame<T>>) -> Seq<T> {
    f.map_values(|x: StemFrame<T>| x.square)
}

/// The triangle samples of a run of frames.
pub open spec fn triangles<T>(f: Seq<StemFrame<T>>) -> Seq<T> {
    f.map_values(|x: StemFrame<T>| x.triangle)
}

/// The noise samples of a run of frames.
pub open spec fn noises<T>(f: Seq<StemFrame<T>>) -> Seq<T> {
    f.map_values(|x: StemFrame<T>| x.noise)
}

/// The sfx samples of a run of frames.
pub open spec fn sfxs<T>(f: Seq<StemFrame<T>>) -> Seq<T> {
    f.map_values(|x: StemFrame<T>| x.sfx)
}

/// Rolling waveform buffers for realtime stem visualization (voice, square, triangle, noise, sfx).
#[derive(Debug, Clone)]
pub struct StemPlotBuffer<T> {
    voice: Vec<T>,
    square: Vec<T>,
    triangle: Vec<T>,
    noise: Vec<T>,
    sfx: Vec<T>,
    cap_samples: usize,
}

/// Keep the last `cap` items of `v`.
fn keep_last<T: Copy>(v: &Vec<T>, cap: usize) -> (r: Vec<T>)
    ensures
        r@ == window(v@, cap as nat),
{
    if v.len() <= cap {
        return vstd::slice::slice_to_vec(v.as_slice());
    }
    let start = v.len() - cap;
    let mut r: Vec<T> = Vec::new();
    let mut i = start;
    while i < v.len()
        invariant
            start == v@.len() - cap,
            start <= i <= v@.len(),
            r@ == v@.subrange(start as int, i as int),
        decreases v@.len() - i,
    {
        r.push(v[i]);
        proof {
            assert(v@.subrange(start as int, i + 1) =~= v@.subrange(start as int, i as int).push(
                v@[i as int],
            ));
        }
        i += 1;
    }
    assert(v@.subrange(start as int, v@.len() as int) =~= v@.skip(start as int));
    r
}

impl<T: Copy> StemPlotBuffer<T> {
    /// The voice window.
    pub closed spec fn spec_voice(&self) -> Seq<T> {
        self.voice@
    }

    /// The square window.
    pub closed spec fn spec_square(&self) -> Seq<T> {
        self.square@
    }

    /// The triangle window.
    pub closed spec fn spec_triangle(&self) -> Seq<T> {
        self.triangle@
    }

    /// The noise window.
    pub closed spec fn spec_noise(&self) -> Seq<T> {
        self.noise@
    }

    /// The sfx window.
    pub closed spec fn spec_sfx(&self) -> Seq<T> {
        self.sfx@
    }

    /// How many samples each window keeps.
    pub closed spec fn spec_cap(&self) -> usize {
        self.cap_samples
    }

    /// Empty windows of `cap_samples` samples each (at least 256).
    pub fn new(cap_samples: usize) -> (r: Self)
        ensures
            r.spec_cap() == if cap_samples < 256 {
                256
            } else {
                cap_samples
            },
            r.spec_voice().len() == 0,
            r.spec_square().len() == 0,
            r.spec_triangle().len() == 0,
            r.spec_noise().len() == 0,
            r.spec_sfx().len() == 0,
    {
        StemPlotBuffer {
            voice: Vec::new(),
            square: Vec::new(),
            triangle: Vec::new(),
            noise: Vec::new(),
            sfx: Vec::new(),
            cap_samples: if cap_samples < 256 {
                256
            } else {
                cap_samples
            },
        }
    }

    /// Empty every window.
    pub fn clear(&mut self)
        ensures
            final(self).spec_cap() == old(self).spec_cap(),
            final(self).spec_voice().len() == 0,
            final(self).spec_square().len() == 0,
            final(self).spec_triangle().len() == 0,
            final(self).spec_noise().len() == 0,
            final(self).spec_sfx().len() == 0,
    {
        self.voice.clear();
        self.square.clear();
        self.triangle.clear();
        self.noise.clear();
        self.sfx.clear();
    }

    /// Append frames to the windows, keeping the most recent samples.
    pub fn push_samples(&mut self, samples: &[StemFrame<T>])
        ensures
            final(self).spec_cap() == old(self).spec_cap(),
            samples@.len() == 0 ==> *final(self) == *old(self),
            samples@.len() > 0 ==> {
                let cap = old(self).spec_cap() as nat;
                &&& final(self).spec_voice() == window(old(self).spec_voice() + voices(samples@), cap)
                &&& final(self).spec_square() == window(old(self).spec_square() + squares(samples@), cap)
                &&& final(self).spec_triangle() == window(
                    old(self).spec_triangle() + triangles(samples@),
                    cap,
                )
                &&& final(self).spec_noise() == window(old(self).spec_noise() + noises(samples@), cap)
                &&& final(self).spec_sfx() == window(old(self).spec_sfx() + sfxs(samples@), cap)
            },
    {
        if samples.len() == 0 {
            return;
        }
        let mut i: usize = 0;
        while i < samples.len()
            invariant
                0 <= i <= samples@.len(),
                self.cap_samples == old(self).cap_samples,
                self.voice@ == old(self).voice@ + voices(samples@.take(i as int)),
                self.square@ == old(self).square@ + squares(samples@.take(i as int)),
                self.triangle@ == old(self).triangle@ + triangles(samples@.take(i as int)),
                self.noise@ == old(self).noise@ + noises(samples@.take(i as int)),
                self.sfx@ == old(self).sfx@ + sfxs(samples@.take(i as int)),
            decreases samples@.len() - i,
        {
            let f = samples[i];
            proof {
                let t = samples@.take(i + 1);
                assert(t =~= samples@.take(i as int).push(f));
                assert(voices(t) =~= voices(samples@.take(i as int)).push(f.voice));
                assert(squares(t) =~= squares(samples@.take(i as int)).push(f.square));
                assert(triangles(t) =~= triangles(samples@.take(i as int)).push(f.triangle));
                assert(noises(t) =~= noises(samples@.take(i as int)).push(f.noise));
                assert(sfxs(t) =~= sfxs(samples@.take(i as int)).push(f.sfx));
            }
            self.voice.push(f.voice);
            self.square.push(f.square);
            self.triangle.push(f.triangle);
            self.noise.push(f.noise);
            self.sfx.push(f.sfx);
            i += 1;
        }
        proof {
            assert(samples@.take(samples@.len() as int) =~= samples@);
        }
        self.voice = keep_last(&self.voice, self.cap_samples);
        self.square = keep_last(&self.square, self.cap_samples);
        self.triangle = keep_last(&self.triangle, self.cap_samples);
        self.noise = keep_last(&self.noise, self.cap_samples);
        self.sfx = keep_last(&self.sfx, self.cap_samples);
    }

    /// How many samples each window keeps.
    pub fn cap_samples(&self) -> (r: usize)
        ensures
            r == self.spec_cap(),
    {
        self.cap_samples
    }

    /// The voice window, oldest first.
    pub fn voice(&self) -> (r: &[T])
        ensures
            r@ == self.spec_voice(),
    {
        self.voice.as_slice()
    }

    /// The square window, oldest first.
    pub fn square(&self) -> (r: &[T])
        ensures
            r@ == self.spec_square(),
    {
        self.square.as_slice()
    }

    /// The triangle window, oldest first.
    pub fn triangle(&self) -> (r: &[T])
        ensures
            r@ == self.spec_triangle(),
    {
        self.triangle.as_slice()
    }

    /// The noise window, oldest first.
    pub fn noise(&self) -> (r: &[T])
        ensures
            r@ == self.spec_noise(),
    {
        self.noise.as_slice()
    }

    /// The sfx window, oldest first.
    pub fn sfx(&self) -> (r: &[T])
        ensures
            r@ == self.spec_sfx(),
    {
        self.sfx.as_slice()
    }
}

/// A window never holds more than its capacity, and always ends with the
/// newest samples.
pub proof fn lemma_window_keeps_newest<T>(s: Seq<T>, cap: nat)
    ensures
        window(s, cap).len() <= cap || window(s, cap) == s,
        window(s, cap).len() == if s.len() > cap { cap } else { s.len() },
        forall|i: int|
            0 <= i < window(s, cap).len() ==> #[trigger] window(s, cap)[i] == s[s.len() - window(
                s,
                cap,
            ).len() + i],
{
}

} // verus!
