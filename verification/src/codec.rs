//! Helpers for the fixed-width little-endian wire format: two's-complement
//! bits of signed timestamps, and 32-byte identifiers read out of byte
//! slices.

use vstd::prelude::*;

verus! {

/// The two's-complement bit pattern of a signed 64-bit value, as an
/// unsigned value.
pub open spec fn spec_i64_bits(v: int) -> int {
    if v >= 0 {
        v
    } else {
        v + 0x1_0000_0000_0000_0000
    }
}

/// The signed 64-bit value behind an unsigned bit pattern.
pub open spec fn spec_bits_to_i64(bits: int) -> int {
    if bits < 0x8000_0000_0000_0000 {
        bits
    } else {
        bits - 0x1_0000_0000_0000_0000
    }
}

/// A bit pattern encodes back to itself.
pub proof fn lemma_bits_to_i64_round_trip(bits: int)
    requires
        0 <= bits <= u64::MAX,
    ensures
        spec_i64_bits(spec_bits_to_i64(bits)) == bits,
        i64::MIN <= spec_bits_to_i64(bits) <= i64::MAX,
{
}

/// Two's-complement bits of a signed 64-bit value.
pub fn i64_to_bits(v: i64) -> (r: u64)
    ensures
        r == spec_i64_bits(v as int),
{
    if v >= 0 {
        v as u64
    } else if v == i64::MIN {
        0x8000_0000_0000_0000u64
    } else {
        let m = (-v) as u64;
        (u64::MAX - m) + 1
    }
}

/// The signed 64-bit value whose two's-complement bits are `bits`.
pub fn bits_to_i64(bits: u64) -> (r: i64)
    ensures
        r == spec_bits_to_i64(bits as int),
{
    if bits < 0x8000_0000_0000_0000u64 {
        bits as i64
    } else if bits == 0x8000_0000_0000_0000u64 {
        i64::MIN
    } else {
        let m = (u64::MAX - bits) + 1;
        -(m as i64)
    }
}

/// A fixed-width field copied out of a byte slice.
pub fn read_bytes<const N: usize>(data: &[u8], off: usize) -> (r: [u8; N])
    requires
        off + N <= data@.len(),
    ensures
        r@ == data@.subrange(off as int, off as int + N),
{
    let n = data.len();
    let mut out: [u8; N] = [0u8; N];
    let mut i: usize = 0;
    while i < N
        invariant
            i <= N,
            n == data@.len(),
            off + N <= n,
            out@.len() == N,
            forall|j: int| 0 <= j < i ==> out@[j] == data@[off + j],
        decreases N - i,
    {
        out[i] = data[off + i];
        i += 1;
    }
    proof {
        assert(out@ =~= data@.subrange(off as int, off as int + N));
    }
    out
}

/// A 32-byte identifier copied out of a byte slice.
pub fn read_key(data: &[u8], off: usize) -> (r: [u8; 32])
    requires
        off + 32 <= data@.len(),
    ensures
        r@ == data@.subrange(off as int, off as int + 32),
{
    read_bytes::<32>(data, off)
}

/// Whether two 32-byte identifiers hold the same bytes.
pub fn keys_equal(a: &[u8; 32], b: &[u8; 32]) -> (r: bool)
    ensures
        r <==> a@ == b@,
{
    let mut i: usize = 0;
    while i < 32
        invariant
            i <= 32,
            forall|j: int| 0 <= j < i ==> a@[j] == b@[j],
        decreases 32 - i,
    {
        if a[i] != b[i] {
            return false;
        }
        i += 1;
    }
    proof {
        assert(a@ =~= b@);
    }
    true
}

} // verus!
