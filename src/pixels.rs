use vstd::prelude::*;

verus! {

pub const FNV_OFFSET: u64 = 0xcbf29ce484222325;

pub const FNV_PRIME: u64 = 0x100000001b3;

/// Most pixels sampled by one hash.
pub const MAX_SAMPLES: u64 = 4096;

/// One FNV-1a step on a value.
pub open spec fn mix(h: u64, v: u64) -> u64 {
    (h ^ v).wrapping_mul(FNV_PRIME)
}

/// The four bytes of the pixel at byte offset `i` mixed in.
pub open spec fn mix_pixel(h: u64, bytes: Seq<u8>, i: int) -> u64 {
    mix(mix(mix(mix(h, bytes[i] as u64), bytes[i + 1] as u64), bytes[i + 2] as u64), bytes[i + 3] as u64)
}

/// Mixes in at most `left` pixels, starting at byte offset `idx` and moving `step` bytes each
/// time, while a whole pixel remains.
pub open spec fn sample(h: u64, bytes: Seq<u8>, idx: nat, step: nat, left: nat) -> u64
    decreases left,
{
    if left == 0 || idx + 4 > bytes.len() {
        h
    } else {
        sample(mix_pixel(h, bytes, idx as int), bytes, idx + step, step, (left - 1) as nat)
    }
}

pub open spec fn pixel_step(downscale: u32) -> nat {
    if downscale >= 1 { 4 * downscale as nat } else { 4 }
}

/// The hash of an RGBA buffer: zero when it is empty or has a zero dimension; otherwise the
/// dimensions and step, then every sampled pixel, folded with FNV-1a.
pub open spec fn pixel_hash(bytes: Seq<u8>, width: u32, height: u32, downscale: u32) -> u64 {
    if bytes.len() == 0 || width == 0 || height == 0 {
        0
    } else {
        let step = pixel_step(downscale);
        let h = mix(mix(mix(FNV_OFFSET, width as u64), height as u64), step as u64);
        sample(h, bytes, 0, step, MAX_SAMPLES as nat)
    }
}

/// A fast hash of captured pixels, sampling every `downscale`-th pixel.
pub fn hash_pixels(bytes: &[u8], width: u32, height: u32, downscale: u32) -> (r: u64)
    ensures
        r == pixel_hash(bytes@, width, height, downscale),
{
    if bytes.len() == 0 || width == 0 || height == 0 {
        return 0;
    }
    let step: u64 = if downscale >= 1 { 4 * downscale as u64 } else { 4 };
    let mut hash: u64 = FNV_OFFSET;
    hash = (hash ^ width as u64).wrapping_mul(FNV_PRIME);
    hash = (hash ^ height as u64).wrapping_mul(FNV_PRIME);
    hash = (hash ^ step).wrapping_mul(FNV_PRIME);
    let len = bytes.len() as u64;
    let mut idx: u64 = 0;
    let mut samples: u64 = 0;
    while samples < MAX_SAMPLES && len >= 4 && idx <= len - 4
        invariant
            len == bytes@.len(),
            step == pixel_step(downscale),
            samples <= MAX_SAMPLES,
            idx == samples * step,
            sample(hash, bytes@, idx as nat, step as nat, (MAX_SAMPLES - samples) as nat)
                == pixel_hash(bytes@, width, height, downscale),
        decreases MAX_SAMPLES - samples,
    {
        let i = idx as usize;
        hash = (hash ^ bytes[i] as u64).wrapping_mul(FNV_PRIME);
        hash = (hash ^ bytes[i + 1] as u64).wrapping_mul(FNV_PRIME);
        hash = (hash ^ bytes[i + 2] as u64).wrapping_mul(FNV_PRIME);
        hash = (hash ^ bytes[i + 3] as u64).wrapping_mul(FNV_PRIME);
        proof {
            assert(samples * step + step == (samples + 1) * step) by (nonlinear_arith);
            assert((samples + 1) * step <= MAX_SAMPLES * step) by (nonlinear_arith)
                requires samples + 1 <= MAX_SAMPLES;
        }
        idx = idx + step;
        samples = samples + 1;
    }
    hash
}

} // verus!
