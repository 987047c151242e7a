//! Small verified helpers for byte-exact payload checks: window
//! comparison and fixed-width little-endian reads.

use vstd::prelude::*;

use crate::keys::Pubkey;

verus! {

/// True when `data[start .. start + expected.len()]` equals `expected`.
pub fn range_matches(data: &[u8], start: usize, expected: &[u8]) -> (r: bool)
    requires
        start + expected@.len() <= data@.len(),
    ensures
        r == (data@.subrange(start as int, start + expected@.len()) == expected@),
{
    let dlen = data.len();
    let n = expected.len();
    let mut i: usize = 0;
    while i < n
        invariant
            0 <= i <= n,
            start + n <= dlen == data@.len(),
            n == expected@.len(),
            forall|j: int| 0 <= j < i ==> data@[start + j] == expected@[j],
        decreases n - i,
    {
        if data[start + i] != expected[i] {
            assert(data@.subrange(start as int, start + expected@.len())[i as int] != expected@[
                i as int
            ]);
            return false;
        }
        i += 1;
    }
    proof {
        assert(data@.subrange(start as int, start + expected@.len()) =~= expected@);
    }
    true
}

/// Copies the 32-byte window at `start` out of `data`.
pub fn read_key(data: &[u8], start: usize) -> (r: Pubkey)
    requires
        start + 32 <= data@.len(),
    ensures
        r@ == data@.subrange(start as int, start + 32),
{
    let dlen = data.len();
    let mut out: Pubkey = [0u8; 32];
    let mut i: usize = 0;
    while i < 32
        invariant
            0 <= i <= 32,
            start + 32 <= dlen == data@.len(),
            forall|j: int| 0 <= j < i ==> out@[j] == data@[start + j],
        decreases 32 - i,
    {
        out[i] = data[start + i];
        i += 1;
    }
    proof {
        assert(out@ =~= data@.subrange(start as int, start + 32));
    }
    out
}

/// Reads the little-endian 64-bit value at `start`.
pub fn read_u64_le(data: &[u8], start: usize) -> (r: u64)
    requires
        start + 8 <= data@.len(),
    ensures
        r == vstd::bytes::spec_u64_from_le_bytes(data@.subrange(start as int, start + 8)),
{
    let dlen = data.len();
    let window = vstd::slice::slice_subrange(data, start, start + 8);
    vstd::bytes::u64_from_le_bytes(window)
}

/// Reads the little-endian 32-bit value at `start`.
pub fn read_u32_le(data: &[u8], start: usize) -> (r: u32)
    requires
        start + 4 <= data@.len(),
    ensures
        r == vstd::bytes::spec_u32_from_le_bytes(data@.subrange(start as int, start + 4)),
{
    let dlen = data.len();
    let window = vstd::slice::slice_subrange(data, start, start + 4);
    vstd::bytes::u32_from_le_bytes(window)
}

/// Reads the little-endian 16-bit value at `start`.
pub fn read_u16_le(data: &[u8], start: usize) -> (r: u16)
    requires
        start + 2 <= data@.len(),
    ensures
        r == vstd::bytes::spec_u16_from_le_bytes(data@.subrange(start as int, start + 2)),
{
    let dlen = data.len();
    let window = vstd::slice::slice_subrange(data, start, start + 2);
    vstd::bytes::u16_from_le_bytes(window)
}

} // verus!
