//! Encoding of text into the byte buffers of outbound frames.
//!
//! Two disciplines exist on the bus: fixed-capacity fields (vendor and
//! model names) take the first `N` bytes of the UTF-8 encoding and are
//! zero-padded, silently truncating longer sources; bounded fields (the
//! camera definition URI) refuse a source that exceeds their capacity
//! instead of truncating it.

use vstd::prelude::*;
use vstd::string::StringSliceAdditionalSpecFns;
use crate::messages::EncodingError;

verus! {

/// What a fixed-capacity field holds for a given source: the first
/// `capacity` bytes of `bytes`, zero-padded to `capacity`.
pub open spec fn fixed_field(bytes: Seq<u8>, capacity: nat) -> Seq<u8> {
    Seq::new(capacity, |i: int| if i < bytes.len() { bytes[i] } else { 0u8 })
}

/// Encodes a source string into a fixed-capacity byte field: the UTF-8
/// bytes of `src` are copied, truncated to the first `N` bytes if longer,
/// and zero-padded to `N` if shorter.
pub fn str_to_fixed_arr<const N: usize>(src: &str) -> (dst: [u8; N])
    ensures
        dst@ == fixed_field(src.spec_bytes(), N as nat),
{
    let bytes = src.as_bytes();
    let mut dst = [0u8; N];
    let len = if bytes.len() < N {
        bytes.len()
    } else {
        N
    };
    let mut i: usize = 0;
    while i < len
        invariant
            len <= bytes@.len(),
            len <= N,
            bytes@ == src.spec_bytes(),
            i <= len,
            dst@.len() == N,
            forall|j: int| 0 <= j < i ==> dst@[j] == bytes@[j],
            forall|j: int| i <= j < N ==> dst@[j] == 0u8,
        decreases len - i,
    {
        dst[i] = bytes[i];
        i += 1;
    }
    assert(dst@ =~= fixed_field(src.spec_bytes(), N as nat));
    dst
}

/// Encodes a source string into a bounded byte buffer of capacity `N`:
/// the whole UTF-8 encoding if it fits, and `EncodingError` otherwise —
/// a too-long source is reported, never truncated and never a panic.
pub fn string_to_uri<const N: usize>(src: &str) -> (r: Result<Vec<u8>, EncodingError>)
    ensures
        src.spec_bytes().len() <= N ==> (r matches Ok(v) && v@ == src.spec_bytes()),
        src.spec_bytes().len() > N ==> (r matches Err(e) && e == EncodingError::CapacityExceeded),
{
    let bytes = src.as_bytes();
    if bytes.len() <= N {
        Ok(vstd::slice::slice_to_vec(bytes))
    } else {
        Err(EncodingError::CapacityExceeded)
    }
}

} // verus!
