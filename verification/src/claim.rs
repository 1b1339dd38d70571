use vstd::prelude::*;

use confidential_identity_v1::{compute_cdd_id, CddClaimData};

verus! {

/// The 32 bytes of the compressed Ristretto point that `confidential_identity_v1`
/// commits to for the identity bytes `did` and the investor UID bytes `uid`.
pub uninterp spec fn cdd_commitment(did: Seq<u8>, uid: Seq<u8>) -> Seq<u8>;

/// Calls `confidential_identity_v1::CddClaimData::new(did, uid)`, hands the claim to
/// `confidential_identity_v1::compute_cdd_id`, and encodes the resulting Ristretto point
/// with `compress().to_bytes()` of curve25519-dalek-ng.
///
/// Claimed: the bytes depend on the bytes of `did` and of `uid` alone (the outside code
/// hashes both with Blake2b into scalars, blinds them with a Sha3-512 hash of the two and
/// forms a Pedersen commitment over fixed generators; no randomness is drawn). Nothing is
/// said of what those bytes are: the intermediate claim and point are opaque here.
#[verifier::external_body]
pub(crate) fn compute_cdd_id_bytes(did: &[u8; 32], uid: &[u8; 16]) -> (raw: [u8; 32])
    ensures
        raw@ == cdd_commitment(did@, uid@),
{
    let claim = CddClaimData::new(did, uid);
    compute_cdd_id(&claim).compress().to_bytes()
}

} // verus!
