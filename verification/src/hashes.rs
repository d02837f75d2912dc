use crate::digest::H256;
use vstd::prelude::*;

verus! {

/// The 256-bit digest of a byte string, as sha3-256 computes it. The digest
/// is a function of the bytes alone, identical on every node.
pub uninterp spec fn sha3_of(bytes: Seq<u8>) -> Seq<u8>;

/// Relies on tiny_keccak's Sha3 v256 hasher: sha3-256 is a pure function of
/// the input bytes and always yields exactly 32 bytes of output.
#[verifier::external_body]
pub(crate) fn sha3_digest(bytes: &[u8]) -> (r: H256)
    ensures
        r@ == sha3_of(bytes@),
{
    let mut out = [0u8; 32];
    let mut hasher = tiny_keccak::Sha3::v256();
    tiny_keccak::Hasher::update(&mut hasher, bytes);
    tiny_keccak::Hasher::finalize(hasher, &mut out);
    H256 { bytes: out }
}

} // verus!
