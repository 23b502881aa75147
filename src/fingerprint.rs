use std::collections::hash_map::DefaultHasher;
use std::hash::Hasher;
use vstd::prelude::*;
use vstd::std_specs::hash::DefaultHasherAdditionalSpecFns;

verus! {

/// The fingerprint of a payload: the default hasher fed the payload's bytes
/// in one write. It depends on the bytes alone, so identical payloads that
/// arrive over different paths share one fingerprint.
pub open spec fn fingerprint_of(payload: Seq<u8>) -> u64 {
    DefaultHasher::spec_finish(seq![payload])
}

/// Computes the content-derived id used to deduplicate gossiped messages.
pub fn fingerprint(payload: &[u8]) -> (r: u64)
    ensures
        r == fingerprint_of(payload@),
{
    let mut hasher = DefaultHasher::new();
    hasher.write(payload);
    proof {
        assert(hasher@ =~= seq![payload@]);
    }
    hasher.finish()
}

/// Identical payloads have identical fingerprints.
pub proof fn same_payload_same_fingerprint(a: Seq<u8>, b: Seq<u8>)
    requires
        a == b,
    ensures
        fingerprint_of(a) == fingerprint_of(b),
{
}

} // verus!
