//! The two cryptographic primitives the bridge relies on: Keccak-256 and recovery of a
//! secp256k1 public key from a recoverable signature.
use vstd::prelude::*;
use sha3::Digest;
use k256::ecdsa::{RecoveryId, Signature, VerifyingKey};
use crate::EthAddress;

verus! {

/// The Keccak-256 digest of `data`.
pub uninterp spec fn keccak256_of(data: Seq<u8>) -> Seq<u8>;

/// The uncompressed secp256k1 public key (its 64 coordinate bytes) that signed `prehash`
/// with the 64-byte `signature` and the given recovery id, when there is one.
pub uninterp spec fn recovered_public_key(
    prehash: Seq<u8>,
    signature: Seq<u8>,
    recovery_id: u8,
) -> Option<Seq<u8>>;

/// Relies on sha3's `Keccak256`: its 32-byte digest depends on the input alone.
#[verifier::external_body]
pub(crate) fn keccak256(data: &[u8]) -> (r: [u8; 32])
    ensures
        r@ == keccak256_of(data@),
{
    let digest = sha3::Keccak256::digest(data);
    let mut r = [0u8; 32];
    r.copy_from_slice(&digest);
    r
}

/// Relies on k256's `VerifyingKey::recover_from_prehash`: the key that signed `prehash`, as
/// the 64 bytes that follow the tag of its uncompressed encoding; none where the signature
/// does not parse, the recovery id is above 3, or no key verifies it.
#[verifier::external_body]
pub(crate) fn recover_public_key(prehash: &[u8; 32], signature: &[u8; 64], recovery_id: u8) -> (r:
    Option<[u8; 64]>)
    ensures
        match r {
            Some(k) => recovered_public_key(prehash@, signature@, recovery_id) == Some(k@),
            None => recovered_public_key(prehash@, signature@, recovery_id) is None,
        },
        recovery_id > 3 ==> r is None,
{
    let id = RecoveryId::from_byte(recovery_id)?;
    let sig = Signature::from_slice(signature).ok()?;
    let key = VerifyingKey::recover_from_prehash(prehash, &sig, id).ok()?;
    let point = key.to_encoded_point(false);
    let mut r = [0u8; 64];
    r.copy_from_slice(&point.as_bytes()[1..]);
    Some(r)
}

/// The identifier of a public key: the last 20 bytes of the Keccak-256 digest of its 64 bytes.
pub open spec fn ethereum_address_of(pubkey: Seq<u8>) -> Seq<u8> {
    keccak256_of(pubkey).subrange(12, 32)
}

/// The identifier of a public key given as its 64 coordinate bytes.
pub fn recover_ethereum_address(pubkey: &[u8; 64]) -> (r: EthAddress)
    ensures
        r@ == ethereum_address_of(pubkey@),
{
    let digest = keccak256(pubkey);
    crate::bytes::low_bytes20(&digest)
}

} // verus!
