//! Little-endian 16-bit PCM, the byte layout the synthesizer hands out.

use vstd::prelude::*;

verus! {

/// The 16-bit word that stores sample `v` in two's complement.
pub open spec fn pcm_word(v: i16) -> int {
    if v < 0 {
        v + 65536
    } else {
        v as int
    }
}

/// The sample a little-endian byte pair stores.
pub open spec fn pcm_sample(lo: u8, hi: u8) -> int {
    let w = lo + 256 * hi;
    if w >= 32768 {
        w - 65536
    } else {
        w
    }
}

/// Lay out samples as little-endian bytes, two per sample, low byte first.
pub fn pcm_le_bytes(samples: &[i16]) -> (r: Vec<u8>)
    requires
        2 * samples@.len() <= usize::MAX,
    ensures
        r@.len() == 2 * samples@.len(),
        forall|i: int|
            0 <= i < samples@.len() ==> #[trigger] r@[2 * i] == pcm_word(samples@[i]) % 256 && r@[2
                * i + 1] == pcm_word(samples@[i]) / 256,
{
    let mut out: Vec<u8> = Vec::new();
    let mut i: usize = 0;
    while i < samples.len()
        invariant
            0 <= i <= samples@.len(),
            out@.len() == 2 * i,
            forall|k: int|
                0 <= k < i ==> #[trigger] out@[2 * k] == pcm_word(samples@[k]) % 256 && out@[2 * k
                    + 1] == pcm_word(samples@[k]) / 256,
        decreases samples@.len() - i,
    {
        let v = samples[i];
        let w: u32 = if v < 0 {
            (v as i32 + 65536) as u32
        } else {
            v as u32
        };
        out.push((w % 256) as u8);
        out.push((w / 256) as u8);
        i += 1;
    }
    out
}

/// Reading a byte pair back gives the sample that was laid out.
pub proof fn lemma_pcm_roundtrip(v: i16)
    ensures
        pcm_sample((pcm_word(v) % 256) as u8, (pcm_word(v) / 256) as u8) == v,
{
}

} // verus!
