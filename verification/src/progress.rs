//! Playback progress of the current track, in samples.

use vstd::prelude::*;

verus! {

/// How far playback of the current track has come, and how long the track
/// is expected to be (zero: no track).
#[derive(Debug, Clone, Copy, PartialEq, Eq)]
pub struct PlaybackProgress {
    elapsed: u64,
    total: u64,
}

impl PlaybackProgress {
    /// Samples played so far, as counted.
    pub closed spec fn spec_elapsed(&self) -> u64 {
        self.elapsed
    }

    /// Expected length of the track in samples; zero when idle.
    pub closed spec fn spec_total(&self) -> u64 {
        self.total
    }

    /// Samples played, never more than the track's length.
    pub open spec fn spec_elapsed_samples(&self) -> u64 {
        if self.spec_elapsed() < self.spec_total() {
            self.spec_elapsed()
        } else {
            self.spec_total()
        }
    }

    /// Idle: no track, nothing played.
    pub fn new() -> (r: Self)
        ensures
            r.spec_elapsed() == 0,
            r.spec_total() == 0,
    {
        PlaybackProgress { elapsed: 0, total: 0 }
    }

    /// Start a track of `total_samples` samples (counted as at least one).
    pub fn begin_track(&mut self, total_samples: u64)
        ensures
            final(self).spec_elapsed() == 0,
            final(self).spec_total() == if total_samples == 0 {
                1
            } else {
                total_samples
            },
    {
        self.elapsed = 0;
        self.total = if total_samples == 0 {
            1
        } else {
            total_samples
        };
    }

    /// Back to idle.
    pub fn reset_idle(&mut self)
        ensures
            final(self).spec_elapsed() == 0,
            final(self).spec_total() == 0,
    {
        self.elapsed = 0;
        self.total = 0;
    }

    /// Sets progress to the end of the current track estimate (natural completion only).
    pub fn mark_complete(&mut self)
        ensures
            final(self).spec_total() == old(self).spec_total(),
            final(self).spec_elapsed() == if old(self).spec_total() != 0 {
                old(self).spec_total()
            } else {
                old(self).spec_elapsed()
            },
    {
        let t = self.total;
        if t != 0 {
            self.elapsed = t;
        }
    }

    /// Count `n` more samples played; nothing is counted while idle. The
    /// counter wraps around on overflow.
    pub fn add_samples(&mut self, n: u64)
        ensures
            final(self).spec_total() == old(self).spec_total(),
            final(self).spec_elapsed() == if n == 0 || old(self).spec_total() == 0 {
                old(self).spec_elapsed()
            } else {
                ((old(self).spec_elapsed() + n) % 0x1_0000_0000_0000_0000) as u64
            },
    {
        if n == 0 || self.total == 0 {
            return;
        }
        self.elapsed = self.elapsed.wrapping_add(n);
    }

    /// Samples played, capped at the track's length.
    pub fn elapsed_samples(&self) -> (r: u64)
        ensures
            r == self.spec_elapsed_samples(),
    {
        let total = self.total;
        if self.elapsed < total {
            self.elapsed
        } else {
            total
        }
    }

    /// Expected length of the track in samples; zero when idle.
    pub fn total_samples(&self) -> (r: u64)
        ensures
            r == self.spec_total(),
    {
        self.total
    }
}

/// Progress never shows more played than the track holds.
pub proof fn lemma_elapsed_within_total(p: PlaybackProgress)
    ensures
        p.spec_elapsed_samples() <= p.spec_total(),
{
}

/// A track that completes shows as fully played.
pub proof fn lemma_complete_shows_full(before: PlaybackProgress, after: PlaybackProgress)
    requires
        before.spec_total() != 0,
        after.spec_total() == before.spec_total(),
        after.spec_elapsed() == before.spec_total(),
    ensures
        after.spec_elapsed_samples() == after.spec_total(),
{
}

} // verus!
