//! Sixteen-step drum patterns and the cursor that walks through them.

use vstd::prelude::*;

use crate::constants::{HAT_PATTERNS, KICK_PATTERNS, SNARE_PATTERNS};
use crate::metadata::SongMetadata;

verus! {

/// One of the sixteen steps of a drum pattern.
#[derive(Debug, Clone, Copy, PartialEq, Eq)]
pub struct DrumStep {
    pub kick: bool,
    pub snare: bool,
    pub hat: bool,
    pub open_hat: bool,
    pub offset: usize,
}

/// 16-step drum pattern.
#[derive(Debug, Clone, Copy, PartialEq, Eq)]
pub struct DrumPattern {
    pub steps: [DrumStep; 16],
}

/// The silent step: nothing plays and the offset is zero.
pub open spec fn silent_step() -> DrumStep {
    DrumStep { kick: false, snare: false, hat: false, open_hat: false, offset: 0 }
}

impl Default for DrumStep {
    fn default() -> (r: Self)
        ensures
            r == silent_step(),
    {
        DrumStep { kick: false, snare: false, hat: false, open_hat: false, offset: 0 }
    }
}

impl Default for DrumPattern {
    fn default() -> (r: Self)
        ensures
            forall|i: int| 0 <= i < 16 ==> r.steps@[i] == silent_step(),
    {
        let s = DrumStep { kick: false, snare: false, hat: false, open_hat: false, offset: 0 };
        DrumPattern { steps: [s, s, s, s, s, s, s, s, s, s, s, s, s, s, s, s] }
    }
}

/// Bit tests on seed bytes expressed as remainders.
pub proof fn lemma_low_bits(b: u8)
    ensures
        (b & 3u8 == 0u8) == (b % 4 == 0),
        (b & 1u8 != 0u8) == (b % 2 == 1),
{
    assert((b & 3u8 == 0u8) == (b % 4 == 0)) by (bit_vector);
    assert((b & 1u8 != 0u8) == (b % 2 == 1)) by (bit_vector);
}

/// The step at `offset` of a pattern read from three rows of 0/1 hits,
/// without an open hat.
pub open spec fn row_step(kick: Seq<u8>, snare: Seq<u8>, hat: Seq<u8>, offset: int) -> DrumStep {
    DrumStep {
        kick: kick[offset] == 1,
        snare: snare[offset] == 1,
        hat: hat[offset] == 1,
        open_hat: false,
        offset: offset as usize,
    }
}

/// `s` with its hat sounding and left open.
pub open spec fn opened(s: DrumStep) -> DrumStep {
    DrumStep { kick: s.kick, snare: s.snare, hat: true, open_hat: true, offset: s.offset }
}

/// The step where the default table may add an extra kick.
pub open spec fn extra_kick_slot(b: u8) -> int {
    if b % 3 == 0 {
        6
    } else if b % 3 == 1 {
        11
    } else {
        14
    }
}

/// Kick row of the default table, with the extra kick that seed byte 3 may ask for.
pub open spec fn default_kick_row(seed: Seq<u8>) -> Seq<u8> {
    let row = KICK_PATTERNS@[(seed[0] % 3) as int]@;
    if seed[3] % 4 == 0 {
        row.update(extra_kick_slot(seed[4]), 1u8)
    } else {
        row
    }
}

/// Step `i` of the default pattern drawn from an 8-byte seed.
pub open spec fn default_drum_step(seed: Seq<u8>, i: int) -> DrumStep {
    let s = row_step(
        default_kick_row(seed),
        SNARE_PATTERNS@[(seed[1] % 3) as int]@,
        HAT_PATTERNS@[(seed[2] % 3) as int]@,
        i,
    );
    DrumStep {
        kick: s.kick,
        snare: s.snare,
        hat: s.hat,
        open_hat: i == 8 && seed[5] % 2 == 1,
        offset: s.offset,
    }
}

/// Build a pattern from three rows of 0/1 hits; no step has an open hat.
pub fn pattern_from_rows(kick: &[u8; 16], snare: &[u8; 16], hat: &[u8; 16]) -> (r: DrumPattern)
    ensures
        forall|i: int| 0 <= i < 16 ==> r.steps@[i] == row_step(kick@, snare@, hat@, i),
{
    let mut steps = [DrumStep { kick: false, snare: false, hat: false, open_hat: false, offset: 0 }; 16];
    let mut offset: usize = 0;
    while offset < 16
        invariant
            0 <= offset <= 16,
            forall|j: int| 0 <= j < offset ==> steps@[j] == row_step(kick@, snare@, hat@, j),
        decreases 16 - offset,
    {
        steps[offset] = DrumStep {
            kick: kick[offset] == 1,
            snare: snare[offset] == 1,
            hat: hat[offset] == 1,
            open_hat: false,
            offset,
        };
        offset += 1;
    }
    DrumPattern { steps }
}

impl DrumPattern {
    /// Return a drum pattern drawn from an 8-byte seed with the default tables.
    pub fn from_seed(seed: &[u8; 8]) -> (r: DrumPattern)
        ensures
            forall|i: int| 0 <= i < 16 ==> r.steps@[i] == default_drum_step(seed@, i),
    {
        let mut kick = KICK_PATTERNS[(seed[0] % 3) as usize];
        let snare = SNARE_PATTERNS[(seed[1] % 3) as usize];
        let hat = HAT_PATTERNS[(seed[2] % 3) as usize];
        proof {
            lemma_low_bits(seed[3]);
            lemma_low_bits(seed[5]);
        }
        if seed[3] & 0x03 == 0 {
            let slots = [6usize, 11, 14];
            kick[slots[(seed[4] % 3) as usize]] = 1;
        }
        assert(kick@ == default_kick_row(seed@));
        let mut pattern = pattern_from_rows(&kick, &snare, &hat);
        if seed[5] & 0x01 != 0 {
            let mut s = pattern.steps[8];
            s.open_hat = true;
            pattern.steps[8] = s;
        }
        pattern
    }

    /// Cycle through the steps forever, starting at the first.
    pub fn steps(self) -> (r: Steps)
        ensures
            r.spec_pattern() == self,
            r.spec_step() == 0,
    {
        Steps::new(self)
    }

    /// The kick row: one byte per step, 1 where the kick plays.
    pub fn kick_row(&self) -> (r: Vec<u8>)
        ensures
            r@.len() == 16,
            forall|i: int| 0 <= i < 16 ==> #[trigger] r@[i] == if self.steps@[i].kick { 1u8 } else { 0u8 },
    {
        let mut r: Vec<u8> = Vec::new();
        let mut i: usize = 0;
        while i < 16
            invariant
                0 <= i <= 16,
                r@.len() == i,
                forall|k: int| 0 <= k < i ==> #[trigger] r@[k] == if self.steps@[k].kick { 1u8 } else { 0u8 },
            decreases 16 - i,
        {
            r.push(if self.steps[i].kick { 1 } else { 0 });
            i += 1;
        }
        r
    }

    /// The snare row: one byte per step, 1 where the snare plays.
    pub fn snare_row(&self) -> (r: Vec<u8>)
        ensures
            r@.len() == 16,
            forall|i: int| 0 <= i < 16 ==> #[trigger] r@[i] == if self.steps@[i].snare { 1u8 } else { 0u8 },
    {
        let mut r: Vec<u8> = Vec::new();
        let mut i: usize = 0;
        while i < 16
            invariant
                0 <= i <= 16,
                r@.len() == i,
                forall|k: int| 0 <= k < i ==> #[trigger] r@[k] == if self.steps@[k].snare { 1u8 } else { 0u8 },
            decreases 16 - i,
        {
            r.push(if self.steps[i].snare { 1 } else { 0 });
            i += 1;
        }
        r
    }

    /// The hat row: one byte per step, 1 where the closed hat plays.
    pub fn hat_row(&self) -> (r: Vec<u8>)
        ensures
            r@.len() == 16,
            forall|i: int| 0 <= i < 16 ==> #[trigger] r@[i] == if self.steps@[i].hat { 1u8 } else { 0u8 },
    {
        let mut r: Vec<u8> = Vec::new();
        let mut i: usize = 0;
        while i < 16
            invariant
                0 <= i <= 16,
                r@.len() == i,
                forall|k: int| 0 <= k < i ==> #[trigger] r@[k] == if self.steps@[k].hat { 1u8 } else { 0u8 },
            decreases 16 - i,
        {
            r.push(if self.steps[i].hat { 1 } else { 0 });
            i += 1;
        }
        r
    }

    /// The offset of the first step that opens the hat, if one does.
    pub fn open_hat_step(&self) -> (r: Option<usize>)
        ensures
            r is None ==> forall|i: int| 0 <= i < 16 ==> !(#[trigger] self.steps@[i]).open_hat,
            r matches Some(o) ==> exists|k: int|
                0 <= k < 16 && self.steps@[k].open_hat && o == self.steps@[k].offset && forall|j: int|
                    0 <= j < k ==> !(#[trigger] self.steps@[j]).open_hat,
    {
        let mut i: usize = 0;
        while i < 16
            invariant
                0 <= i <= 16,
                forall|j: int| 0 <= j < i ==> !(#[trigger] self.steps@[j]).open_hat,
            decreases 16 - i,
        {
            if self.steps[i].open_hat {
                return Some(self.steps[i].offset);
            }
            i += 1;
        }
        None
    }

    /// Get the n-th step, counting around the sixteen steps.
    pub fn step(&self, n: u64) -> (r: DrumStep)
        ensures
            r == self.steps@[(n % 16) as int],
    {
        self.steps[(n % 16) as usize]
    }
}

/// Yield the steps of a drum pattern forever.
#[derive(Debug, Clone, Copy, PartialEq, Eq)]
pub struct Steps {
    pattern: DrumPattern,
    step: u64,
}

impl Steps {
    /// The pattern being walked.
    pub closed spec fn spec_pattern(self) -> DrumPattern {
        self.pattern
    }

    /// The counter of the next step to yield.
    pub closed spec fn spec_step(self) -> u64 {
        self.step
    }

    pub fn new(pattern: DrumPattern) -> (r: Self)
        ensures
            r.spec_pattern() == pattern,
            r.spec_step() == 0,
    {
        Self { pattern, step: 0 }
    }

    /// Yield the current step and move to the next one, wrapping after sixteen.
    pub fn next(&mut self) -> (r: Option<DrumStep>)
        requires
            old(self).spec_step() < u64::MAX,
        ensures
            r == Some(old(self).spec_pattern().steps@[(old(self).spec_step() % 16) as int]),
            final(self).spec_pattern() == old(self).spec_pattern(),
            final(self).spec_step() == (old(self).spec_step() + 1) % 16,
    {
        let i = self.step;
        self.step = (self.step + 1) % 16;
        Some(self.pattern.step(i))
    }
}

impl Default for Steps {
    fn default() -> (r: Self)
        ensures
            forall|i: int| 0 <= i < 16 ==> r.spec_pattern().steps@[i] == silent_step(),
            r.spec_step() == 0,
    {
        Steps::new(DrumPattern::default())
    }
}

/// What the drum voice plays next: the step, its position in the bar and
/// the seed byte that colours it.
#[derive(Debug, Clone, Copy, PartialEq, Eq)]
pub struct DrumHit {
    pub step: DrumStep,
    pub pattern: usize,
    pub color: u8,
}

/// Walk a drum pattern step by step.
#[derive(Debug, Clone, Copy, PartialEq, Eq)]
pub struct DrumSampler {
    steps: Steps,
}

impl Default for DrumSampler {
    fn default() -> (r: Self)
        ensures
            forall|i: int| 0 <= i < 16 ==> r.spec_pattern().steps@[i] == silent_step(),
            r.spec_step() == 0,
    {
        DrumSampler { steps: Steps::default() }
    }
}

impl DrumSampler {
    /// The pattern being played.
    pub closed spec fn spec_pattern(self) -> DrumPattern {
        self.steps.spec_pattern()
    }

    /// The counter of the next step to play.
    pub closed spec fn spec_step(self) -> u64 {
        self.steps.spec_step()
    }

    /// Get the drum pattern
    pub fn drum_pattern(&self) -> (r: &DrumPattern)
        ensures
            *r == self.spec_pattern(),
    {
        &self.steps.pattern
    }

    /// Set the drum pattern
    pub fn set_drum_pattern(&mut self, pattern: DrumPattern)
        ensures
            final(self).spec_pattern() == pattern,
            final(self).spec_step() == old(self).spec_step(),
    {
        self.steps.pattern = pattern;
    }

    /// Get the current drum step
    pub fn drum_step(&self) -> (r: u64)
        ensures
            r == self.spec_step(),
    {
        self.steps.step
    }

    /// Set the current drum step
    pub fn set_drum_step(&mut self, step: u64)
        ensures
            final(self).spec_pattern() == old(self).spec_pattern(),
            final(self).spec_step() == step,
    {
        self.steps.step = step;
    }

    /// Reset to the first drum step
    pub fn reset(&mut self)
        ensures
            final(self).spec_pattern() == old(self).spec_pattern(),
            final(self).spec_step() == 0,
    {
        self.steps.step = 0;
    }

    /// Advance to the next step and say what it plays: the step, its place in the
    /// bar, and the byte of the song seed that colours it.
    pub fn next_hit(&mut self, metadata: &SongMetadata) -> (r: DrumHit)
        requires
            old(self).spec_step() < u64::MAX,
            metadata.seed@.len() > old(self).spec_pattern().steps@[(old(self).spec_step() % 16) as int].offset
                % 16 % 8,
        ensures
            r.step == old(self).spec_pattern().steps@[(old(self).spec_step() % 16) as int],
            r.pattern == r.step.offset % 16,
            r.color == metadata.seed@[(r.pattern % 8) as int],
            final(self).spec_pattern() == old(self).spec_pattern(),
            final(self).spec_step() == (old(self).spec_step() + 1) % 16,
    {
        let step = match self.steps.next() {
            Some(s) => s,
            None => DrumStep::default(),
        };
        let pattern = step.offset % 16;
        let color = metadata.seed[pattern % 8];
        DrumHit { step, pattern, color }
    }
}


/// The counter of a `Steps` after `k` calls of `Steps::next` from counter
/// `start`, each call moving it as `next` promises: one on, wrapping after
/// sixteen.
pub open spec fn step_after(start: u64, k: nat) -> u64
    decreases k,
{
    if k == 0 {
        start
    } else {
        ((step_after(start, (k - 1) as nat) + 1) % 16) as u64
    }
}

/// Walking a pattern from its first step, as `DrumPattern::steps` starts:
/// before the `(k+1)`-th call of `Steps::next` the counter is `k mod 16`, so
/// that call is always allowed and yields `Some` of step `k mod 16` of the
/// pattern. The walk never ends and repeats every sixteen calls.
pub proof fn lemma_steps_cycle(p: DrumPattern, k: nat)
    ensures
        step_after(0, k) == k % 16,
        step_after(0, k) < u64::MAX,
        p.steps@[(step_after(0, k) % 16) as int] == p.steps@[(k % 16) as int],
        step_after(0, k + 16) == step_after(0, k),
{
    lemma_steps_after_16(k);
    lemma_steps_after_16(k + 16);
    assert((k + 16) % 16 == k % 16) by (nonlinear_arith);
}

/// The counter from zero depends only on the number of calls mod 16.
proof fn lemma_steps_after_16(k: nat)
    ensures
        step_after(0, k) == k % 16,
    decreases k,
{
    if k > 0 {
        lemma_steps_after_16((k - 1) as nat);
        assert(((k - 1) % 16 + 1) % 16 == k % 16) by (nonlinear_arith)
            requires
                k > 0,
        ;
    }
}

} // verus!

verus! {

/// The groove every default pattern keeps, whatever its 8-byte seed: the
/// kick on beats 1 and 3 (steps 0 and 8), the snare on the backbeat (steps
/// 4 and 12), a closed hat on the downbeat; the snare never strays from
/// steps 2, 4, 10 and 12, nor the kick from steps 0, 3, 4, 6, 8, 11, 12 and
/// 14; the seed's fourth byte, when a multiple of four, adds a kick on step
/// 6, 11 or 14 as its fifth byte says; the only open hat is on step 8, when
/// the sixth byte is odd; and every step carries its own place in the bar.
pub proof fn lemma_default_groove(seed: Seq<u8>, i: int)
    requires
        seed.len() == 8,
        0 <= i < 16,
    ensures
        default_drum_step(seed, 0).kick,
        default_drum_step(seed, 8).kick,
        default_drum_step(seed, 4).snare,
        default_drum_step(seed, 12).snare,
        default_drum_step(seed, 0).hat,
        default_drum_step(seed, i).snare ==> i == 2 || i == 4 || i == 10 || i == 12,
        default_drum_step(seed, i).kick ==> i == 0 || i == 3 || i == 4 || i == 6 || i == 8 || i == 11
            || i == 12 || i == 14,
        seed[3] % 4 == 0 ==> default_drum_step(seed, seq![6int, 11, 14][(seed[4] % 3) as int]).kick,
        default_drum_step(seed, i).open_hat == (i == 8 && seed[5] % 2 == 1),
        default_drum_step(seed, i).offset == i,
{
    assert(KICK_PATTERNS@[0]@ =~= seq![1u8, 0, 0, 0, 0, 0, 0, 0, 1, 0, 0, 0, 0, 0, 0, 0]);
    assert(KICK_PATTERNS@[1]@ =~= seq![1u8, 0, 0, 1, 0, 0, 0, 0, 1, 0, 0, 0, 0, 0, 0, 0]);
    assert(KICK_PATTERNS@[2]@ =~= seq![1u8, 0, 0, 0, 1, 0, 0, 0, 1, 0, 0, 0, 1, 0, 0, 0]);
    assert(SNARE_PATTERNS@[0]@ =~= seq![0u8, 0, 0, 0, 1, 0, 0, 0, 0, 0, 0, 0, 1, 0, 0, 0]);
    assert(SNARE_PATTERNS@[1]@ =~= seq![0u8, 0, 0, 0, 1, 0, 0, 0, 0, 0, 1, 0, 1, 0, 0, 0]);
    assert(SNARE_PATTERNS@[2]@ =~= seq![0u8, 0, 1, 0, 1, 0, 0, 0, 0, 0, 0, 0, 1, 0, 0, 0]);
    assert(HAT_PATTERNS@[0]@[0] == 1 && HAT_PATTERNS@[1]@[0] == 1 && HAT_PATTERNS@[2]@[0] == 1);
}

} // verus!
