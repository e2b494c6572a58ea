//! Stable numeric identifiers for object classes, derived from type names.

use vstd::prelude::*;
use vstd::string::StringSliceAdditionalSpecFns;

verus! {

/// The FNV-1a 32-bit offset basis.
pub const FNV_OFFSET_BASIS: u32 = 0x811c9dc5;

/// The FNV-1a 32-bit prime.
pub const FNV_PRIME: u32 = 0x01000193;

/// One FNV-1a step: mix a byte into the running hash.
pub open spec fn fnv1a_step(hash: u32, byte: u8) -> u32 {
    (hash ^ (byte as u32)).wrapping_mul(FNV_PRIME)
}

/// FNV-1a over a byte sequence, folding from the left.
pub open spec fn fnv1a(bytes: Seq<u8>) -> u32
    decreases bytes.len(),
{
    if bytes.len() == 0 {
        FNV_OFFSET_BASIS
    } else {
        fnv1a_step(fnv1a(bytes.drop_last()), bytes.last())
    }
}

/// A class that carries a numeric type identifier, by convention the
/// `generate_hash` of its name.
pub trait ObjectClassed {
    const TYPE_ID: u32;
}

/// The 32-bit FNV-1a hash of the UTF-8 bytes of `s`.
pub fn generate_hash(s: &str) -> (r: u32)
    ensures
        r == fnv1a(s.spec_bytes()),
{
    let bytes = s.as_bytes();
    let mut hash: u32 = FNV_OFFSET_BASIS;
    let mut i: usize = 0;
    while i < bytes.len()
        invariant
            bytes@ == s.spec_bytes(),
            0 <= i <= bytes@.len(),
            hash == fnv1a(bytes@.subrange(0, i as int)),
        decreases bytes@.len() - i,
    {
        proof {
            let pre = bytes@.subrange(0, i as int + 1);
            assert(pre.drop_last() =~= bytes@.subrange(0, i as int));
            assert(pre.last() == bytes@[i as int]);
        }
        hash ^= bytes[i] as u32;
        hash = hash.wrapping_mul(FNV_PRIME);
        i += 1;
    }
    assert(bytes@.subrange(0, i as int) =~= bytes@);
    hash
}

} // verus!
