//! Bit-field extraction from 32-bit instruction words.

use vstd::prelude::*;

verus! {

/// The bit of `v` at position `n` (0 = least significant), for `n < 32`.
pub open spec fn bit(v: u32, n: u32) -> bool
    recommends
        n < 32,
{
    (v >> n) & 1 == 1
}

/// The `n`-bit field of `v` starting at bit `start`, as an unsigned value.
pub open spec fn bits(v: u32, start: u32, n: u32) -> u32
    recommends
        start < 32,
        n < 32,
{
    (v >> start) & (((1u32 << n) - 1) as u32)
}

/// A field of `n` bits is bounded by `2^n`.
pub proof fn lemma_bits_bound(v: u32, start: u32, n: u32)
    requires
        start < 32,
        n < 32,
    ensures
        bits(v, start, n) < (1u32 << n),
        n == 4 ==> bits(v, start, n) < 16,
        n == 2 ==> bits(v, start, n) < 4,
        n == 5 ==> bits(v, start, n) < 32,
        n == 8 ==> bits(v, start, n) < 256,
        n == 12 ==> bits(v, start, n) < 4096,
        n == 23 ==> bits(v, start, n) < 0x800000,
{
    assert((v >> start) & (((1u32 << n) - 1) as u32) < (1u32 << n) && 1u32 << n >= 1) by (bit_vector)
        requires
            n < 32,
    ;
    assert(n == 4 ==> 1u32 << n == 16) by (bit_vector);
    assert(n == 2 ==> 1u32 << n == 4) by (bit_vector);
    assert(n == 5 ==> 1u32 << n == 32) by (bit_vector);
    assert(n == 8 ==> 1u32 << n == 256) by (bit_vector);
    assert(n == 12 ==> 1u32 << n == 4096) by (bit_vector);
    assert(n == 23 ==> 1u32 << n == 0x800000) by (bit_vector);
}

/// Return the range of `n` bits of `data` starting at bit `start` (inclusive).
pub fn get_bits(data: &u32, start: u32, n: u32) -> (r: u32)
    requires
        start < 32,
        n < 32,
    ensures
        r == bits(*data, start, n),
{
    proof {
        assert(1u32 << n >= 1) by (bit_vector)
            requires
                n < 32,
        ;
    }
    (*data >> start) & ((1u32 << n) - 1)
}

/// Return the bit of `data` at position `n` (0-31).
pub fn get_bit(data: &u32, n: u32) -> (r: bool)
    requires
        n < 32,
    ensures
        r == bit(*data, n),
{
    proof {
        let v = *data;
        assert((v >> n) & 1 != 0 <==> (v >> n) & 1 == 1) by (bit_vector);
    }
    (*data >> n) & 1 != 0
}

/// Relies on `u32::to_ne_bytes`: the native-endian byte representation of 1
/// starts with byte 1 exactly on a little-endian machine. The result depends
/// on the machine, so nothing is promised of it.
#[verifier::external_body]
pub fn endian_check() -> bool {
    1u32.to_ne_bytes()[0] == 1
}

} // verus!
