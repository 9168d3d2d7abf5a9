//! Little-endian integer reads from a byte buffer.

use vstd::bytes::*;
use vstd::prelude::*;
use vstd::slice::slice_subrange;

verus! {

/// Reads the `u16` stored little-endian at `vec[start..start + 2]`.
pub fn vec_to_u16(vec: &[u8], start: usize) -> (r: u16)
    requires
        start + 2 <= vec@.len(),
    ensures
        r == spec_u16_from_le_bytes(vec@.subrange(start as int, start + 2)),
{
    let _len = vec.len();
    u16_from_le_bytes(slice_subrange(vec, start, start + 2))
}

/// Reads the `u64` stored little-endian at `vec[start..start + 8]`.
pub fn vec_to_u64(vec: &[u8], start: usize) -> (r: u64)
    requires
        start + 8 <= vec@.len(),
    ensures
        r == spec_u64_from_le_bytes(vec@.subrange(start as int, start + 8)),
{
    let _len = vec.len();
    u64_from_le_bytes(slice_subrange(vec, start, start + 8))
}

/// Reads the `u128` stored little-endian at `vec[start..start + 16]`.
pub fn vec_to_u128(vec: &[u8], start: usize) -> (r: u128)
    requires
        start + 16 <= vec@.len(),
    ensures
        r == spec_u128_from_le_bytes(vec@.subrange(start as int, start + 16)),
{
    let _len = vec.len();
    u128_from_le_bytes(slice_subrange(vec, start, start + 16))
}

/// Reads the two's-complement `i32` stored little-endian at `vec[start..start + 4]`.
pub fn vec_to_i32(vec: &[u8], start: usize) -> (r: i32)
    requires
        start + 4 <= vec@.len(),
    ensures
        r == #[verifier::truncate] (spec_u32_from_le_bytes(vec@.subrange(start as int, start + 4)) as i32),
{
    let _len = vec.len();
    #[verifier::truncate]
    (u32_from_le_bytes(slice_subrange(vec, start, start + 4)) as i32)
}

} // verus!
