//! The primitives that this library takes from other crates: SHA-256,
//! arithmetic on the curve P-256, the system's random numbers, and the
//! erasure of secrets from memory. Nothing in this file is proved: each
//! function states what the crate behind it is trusted to do.

use vstd::prelude::*;
use sha2::Digest;
use p256::elliptic_curve::sec1::FromEncodedPoint;
use p256::elliptic_curve::sec1::ToEncodedPoint;
use zeroize::Zeroize;
use crate::bytes::zeros;

verus! {

/// The SHA-256 digest of a byte string.
pub uninterp spec fn sha256_digest(data: Seq<u8>) -> Seq<u8>;

/// The public point of a P-256 secret scalar, as the big-endian affine
/// coordinates `x || y`; `None` where the bytes are not a scalar that the
/// curve accepts as a secret key.
pub uninterp spec fn p256_public_point(private_key: Seq<u8>) -> Option<Seq<u8>>;

/// The x-coordinate, big-endian, of the product of a P-256 secret scalar
/// and a peer's public point given as `x || y`; `None` where the scalar or
/// the point is rejected.
pub uninterp spec fn p256_agreement(private_key: Seq<u8>, peer_point: Seq<u8>) -> Option<
    Seq<u8>,
>;

/// The byte string held by an optional array.
pub open spec fn option_bytes<const N: usize>(value: Option<[u8; N]>) -> Option<Seq<u8>> {
    match value {
        Some(bytes) => Some(bytes@),
        None => None,
    }
}

/// `sha2::Sha256::digest`: the 32-byte SHA-256 digest of `data`. The
/// digest is a function of the input alone; the contract gives it its
/// name and claims nothing else of it.
#[verifier::external_body]
pub(crate) fn sha256(data: &[u8]) -> (digest: [u8; 32])
    ensures
        digest@ == sha256_digest(data@),
{
    sha2::Sha256::digest(data).into()
}

/// `p256::SecretKey::from_slice` followed by `SecretKey::public_key`: the
/// public point of the scalar that `private_key` spells in big-endian
/// order, returned as the two coordinates of its uncompressed encoding.
/// `None` where `from_slice` rejects the scalar (zero, or not below the
/// order of the curve). The contract names the result and claims nothing
/// else of it, in particular not when it is `Some`.
#[verifier::external_body]
pub(crate) fn p256_public(private_key: &[u8; 32]) -> (point: Option<[u8; 64]>)
    ensures
        option_bytes(point) == p256_public_point(private_key@),
{
    let secret = p256::SecretKey::from_slice(private_key).ok()?;
    let encoded = secret.public_key().to_encoded_point(false);
    let mut point = [0u8; 64];
    point[..32].copy_from_slice(encoded.x()?);
    point[32..].copy_from_slice(encoded.y()?);
    Some(point)
}

/// `p256::ecdh::diffie_hellman` on the secret key that
/// `p256::SecretKey::from_slice` reads from `private_key` and the public
/// key that `p256::PublicKey::from_encoded_point` reads from the untagged
/// coordinates `peer_point`: the raw shared secret. `None` where the
/// scalar is rejected, or where the coordinates are not those of a point
/// of the curve. The contract names the result and claims nothing else
/// of it.
#[verifier::external_body]
pub(crate) fn p256_shared(private_key: &[u8; 32], peer_point: &[u8; 64]) -> (secret: Option<
    [u8; 32],
>)
    ensures
        option_bytes(secret) == p256_agreement(private_key@, peer_point@),
{
    let own = p256::SecretKey::from_slice(private_key).ok()?;
    let encoded = p256::EncodedPoint::from_untagged_bytes(peer_point.into());
    let peer = Option::<p256::PublicKey>::from(p256::PublicKey::from_encoded_point(&encoded))?;
    let shared = p256::ecdh::diffie_hellman(own.to_nonzero_scalar(), peer.as_affine());
    Some((*shared.raw_secret_bytes()).into())
}

/// `getrandom::getrandom`: `N` bytes from the system's source of random
/// numbers, or `None` where the source reports an error. Nothing is
/// claimed of the bytes: two calls may return anything.
#[verifier::external_body]
pub(crate) fn random_bytes<const N: usize>() -> (bytes: Option<[u8; N]>) {
    let mut bytes = [0u8; N];
    getrandom::getrandom(&mut bytes).ok()?;
    Some(bytes)
}

/// `zeroize::Zeroize::zeroize` on an array of bytes: every byte is
/// overwritten with zero, by writes that the compiler may not remove. The
/// contract claims that the array holds zeros afterwards, and that the
/// call does not unwind: the implementation writes each element in turn
/// and has no failing path.
#[verifier::external_body]
pub(crate) fn wipe<const N: usize>(bytes: &mut [u8; N])
    ensures
        final(bytes)@ == zeros(N as nat),
    no_unwind
{
    bytes.zeroize();
}

} // verus!
