//! The integer hash that drives the workload's procedural noise.
use vstd::prelude::*;

verus! {

/// Multiplication modulo 2^32.
pub open spec fn wrap_mul(a: u32, b: u32) -> u32 {
    ((a as nat * b as nat) % 0x1_0000_0000) as u32
}

/// Addition modulo 2^32.
pub open spec fn wrap_add(a: u32, b: u32) -> u32 {
    ((a as nat + b as nat) % 0x1_0000_0000) as u32
}

/// `x` xor-ed with itself shifted right by `s` bits.
pub open spec fn xorshift(x: u32, s: u32) -> u32 {
    x ^ (x >> s)
}

/// The counter-based hash of two words: a multiplicative mix of both inputs,
/// followed by three xorshift-multiply rounds.
pub open spec fn uhash_spec(a: u32, b: u32) -> u32 {
    let x0 = wrap_mul(a, 1597334673) ^ wrap_mul(b, 3812015801);
    let x1 = wrap_mul(xorshift(x0, 16), 0x7feb352d);
    let x2 = wrap_mul(xorshift(x1, 15), 0x846ca68b);
    xorshift(x2, 16)
}

/// The word that the noise generator hashes for grid row `y` and stream `frame`.
pub open spec fn noise_key(y: u32, frame: u32) -> u32 {
    wrap_add(y << 11u32, frame)
}

/// Hashes two words; every step wraps modulo 2^32.
pub fn uhash(a: u32, b: u32) -> (r: u32)
    ensures
        r == uhash_spec(a, b),
{
    let mut x: u32 = a.wrapping_mul(1597334673u32) ^ b.wrapping_mul(3812015801u32);
    x = x ^ (x >> 16u32);
    x = x.wrapping_mul(0x7feb352du32);
    x = x ^ (x >> 15u32);
    x = x.wrapping_mul(0x846ca68bu32);
    x = x ^ (x >> 16u32);
    x
}

/// The raw noise word of grid cell `(x, y)` in stream `frame`: the hash of the
/// column and of the row shifted left by eleven bits plus the stream number.
pub fn noise_bits(x: u32, y: u32, frame: u32) -> (r: u32)
    ensures
        r == uhash_spec(x, noise_key(y, frame)),
{
    uhash(x, (y << 11u32).wrapping_add(frame))
}

} // verus!
