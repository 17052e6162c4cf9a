//! Message authentication: HMAC over SHA-256, and the 128-bit tag that the
//! protocol's messages carry.

use vstd::prelude::*;
use crate::bytes::{join_bytes, zeros};
use crate::crypto::{sha256, sha256_digest};

verus! {

/// Length of a block of SHA-256.
pub const BLOCK_LEN: usize = 64;

/// Length of an authentication tag.
pub const MAC_LEN: usize = 16;

/// The inner padding byte of HMAC.
pub const IPAD: u8 = 0x36;

/// The outer padding byte of HMAC.
pub const OPAD: u8 = 0x5c;

/// The key brought to the length of a block: a longer key is replaced by
/// its digest, and the rest is filled with zero bytes.
pub open spec fn block_key(key: Seq<u8>) -> Seq<u8> {
    if key.len() > BLOCK_LEN {
        sha256_digest(key) + zeros(32)
    } else {
        key + zeros((BLOCK_LEN - key.len()) as nat)
    }
}

/// Each byte of `block` combined with `pad` by exclusive or.
pub open spec fn xor_with(block: Seq<u8>, pad: u8) -> Seq<u8> {
    Seq::new(block.len(), |i: int| block[i] ^ pad)
}

/// HMAC-SHA-256 of `data` under `key`:
/// `H((K ^ opad) || H((K ^ ipad) || data))`.
pub open spec fn hmac_sha256_of(key: Seq<u8>, data: Seq<u8>) -> Seq<u8> {
    let k = block_key(key);
    sha256_digest(xor_with(k, OPAD) + sha256_digest(xor_with(k, IPAD) + data))
}

/// The authentication tag of `data` under `key`: the first 16 bytes of
/// its HMAC-SHA-256.
pub open spec fn mac_tag_of(key: Seq<u8>, data: Seq<u8>) -> Seq<u8> {
    hmac_sha256_of(key, data).subrange(0, MAC_LEN as int)
}

fn padded_key(key: &[u8]) -> (block: [u8; 64])
    ensures
        block@ == block_key(key@),
{
    let mut block: [u8; 64] = [0u8; 64];
    if key.len() > BLOCK_LEN {
        let digest: [u8; 32] = sha256(key);
        let mut i: usize = 0;
        while i < 32
            invariant
                i <= 32,
                forall|j: int| 0 <= j < i ==> block@[j] == digest@[j],
                forall|j: int| i <= j < 64 ==> block@[j] == 0u8,
            decreases 32 - i,
        {
            block[i] = digest[i];
            i += 1;
        }
        assert(block@ =~= digest@ + zeros(32));
    } else {
        let n: usize = key.len();
        let mut i: usize = 0;
        while i < n
            invariant
                i <= n == key@.len() <= 64,
                forall|j: int| 0 <= j < i ==> block@[j] == key@[j],
                forall|j: int| i <= j < 64 ==> block@[j] == 0u8,
            decreases n - i,
        {
            block[i] = key[i];
            i += 1;
        }
        assert(block@ =~= key@ + zeros((64 - n) as nat));
    }
    block
}

fn xor_block(block: &[u8; 64], pad: u8) -> (out: [u8; 64])
    ensures
        out@ == xor_with(block@, pad),
{
    let mut out: [u8; 64] = [0u8; 64];
    let mut i: usize = 0;
    while i < 64
        invariant
            i <= 64,
            forall|j: int| 0 <= j < i ==> out@[j] == block@[j] ^ pad,
        decreases 64 - i,
    {
        out[i] = block[i] ^ pad;
        i += 1;
    }
    assert(out@ =~= xor_with(block@, pad));
    out
}

/// HMAC-SHA-256 of `data` under `key`. A key of any length is accepted.
pub fn hmac_sha256(key: &[u8], data: &[u8]) -> (tag: [u8; 32])
    ensures
        tag@ == hmac_sha256_of(key@, data@),
{
    let block = padded_key(key);
    let inner_pad = xor_block(&block, IPAD);
    let outer_pad = xor_block(&block, OPAD);
    let inner_message = join_bytes(inner_pad.as_slice(), data);
    let inner: [u8; 32] = sha256(inner_message.as_slice());
    let outer_message = join_bytes(outer_pad.as_slice(), inner.as_slice());
    sha256(outer_message.as_slice())
}

/// The 16-byte authentication tag of `data` under `key`.
pub fn mac_tag(key: &[u8], data: &[u8]) -> (tag: [u8; 16])
    ensures
        tag@ == mac_tag_of(key@, data@),
{
    let full: [u8; 32] = hmac_sha256(key, data);
    let mut tag: [u8; 16] = [0u8; 16];
    let mut i: usize = 0;
    while i < 16
        invariant
            i <= 16,
            forall|j: int| 0 <= j < i ==> tag@[j] == full@[j],
        decreases 16 - i,
    {
        tag[i] = full[i];
        i += 1;
    }
    assert(tag@ =~= full@.subrange(0, 16));
    tag
}

} // verus!
