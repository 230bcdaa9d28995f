//! Content hashing for the finding cache.
//!
//! The cache is addressed by a 64-bit FNV-1a hash of the raw class-file
//! bytes. The hash is not cryptographic; a collision only affects
//! detection quality, never memory safety.

use vstd::prelude::*;

verus! {

/// FNV-1a 64-bit offset basis.
pub const FNV_OFFSET_BASIS: u64 = 0xcbf29ce484222325;

/// FNV-1a 64-bit prime.
pub const FNV_PRIME: u64 = 0x100000001b3;

/// One FNV-1a step: fold a byte into the running hash.
pub open spec fn fnv1a_step(h: u64, b: u8) -> u64 {
    vstd::wrapping::u64_specs::wrapping_mul(h ^ (b as u64), FNV_PRIME)
}

/// The FNV-1a 64-bit hash of a byte sequence.
pub open spec fn fnv1a_hash(bytes: Seq<u8>) -> u64
    decreases bytes.len(),
{
    if bytes.len() == 0 {
        FNV_OFFSET_BASIS
    } else {
        fnv1a_step(fnv1a_hash(bytes.drop_last()), bytes.last())
    }
}

/// The 64-bit content hash used to address the finding cache.
pub fn calculate_detection_hash(data: &[u8]) -> (r: u64)
    ensures
        r == fnv1a_hash(data@),
{
    let mut h: u64 = FNV_OFFSET_BASIS;
    let mut i: usize = 0;
    while i < data.len()
        invariant
            i <= data@.len(),
            h == fnv1a_hash(data@.take(i as int)),
        decreases data@.len() - i,
    {
        let b = data[i];
        h = (h ^ (b as u64)).wrapping_mul(FNV_PRIME);
        i = i + 1;
        proof {
            assert(data@.take(i as int).drop_last() =~= data@.take(i - 1));
            assert(data@.take(i as int).last() == data@[i - 1]);
        }
    }
    proof {
        assert(data@.take(data@.len() as int) =~= data@);
    }
    h
}

} // verus!
