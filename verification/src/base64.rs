//! Buffer sizes for chiaki's base64 encoder and decoder.

use vstd::prelude::*;

verus! {

/// Length of the base64 encoding of `n` bytes: four characters for every
/// started group of three.
pub open spec fn encoded_len(n: nat) -> nat {
    4 * ((n + 2) / 3)
}

/// Size of the buffer chiaki's base64 encoder gets for `n` input bytes:
/// `n / 3 * 4 + 5`.
pub open spec fn spec_encode_capacity(n: nat) -> nat {
    n / 3 * 4 + 5
}

/// Size of the buffer chiaki's base64 decoder gets for `n` input characters:
/// `n / 4 * 3 + 3`.
pub open spec fn spec_decode_capacity(n: nat) -> nat {
    n / 4 * 3 + 3
}

/// Most bytes that `n` base64 characters decode to: three for every full
/// group of four, and one fewer than the characters of a trailing partial group.
pub open spec fn decoded_len_max(n: nat) -> nat {
    n / 4 * 3 + (if n % 4 == 0 { 0 } else { (n % 4 - 1) as nat })
}

/// Size of the output buffer for encoding `n` bytes.
pub fn encode_capacity(n: usize) -> (c: usize)
    requires
        spec_encode_capacity(n as nat) <= usize::MAX,
    ensures
        c == spec_encode_capacity(n as nat),
{
    n / 3 * 4 + 5
}

/// Size of the output buffer for decoding `n` characters.
pub fn decode_capacity(n: usize) -> (c: usize)
    requires
        spec_decode_capacity(n as nat) <= usize::MAX,
    ensures
        c == spec_decode_capacity(n as nat),
{
    n / 4 * 3 + 3
}

/// The encoder's buffer holds the whole encoding and its terminating NUL:
/// `n / 3 * 4 + 5 >= 4 * ceil(n / 3) + 1`.
pub proof fn law_encode_capacity_fits(n: nat)
    ensures
        spec_encode_capacity(n) >= encoded_len(n) + 1,
{
    assert((n + 2) / 3 <= n / 3 + 1) by (nonlinear_arith);
}

/// The decoder's buffer holds everything `n` base64 characters can decode to.
pub proof fn law_decode_capacity_fits(n: nat)
    ensures
        spec_decode_capacity(n) >= decoded_len_max(n),
{
    assert(n % 4 < 4) by (nonlinear_arith);
}

} // verus!
