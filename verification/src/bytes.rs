//! Byte-string helpers: zero strings, little-endian integers, slicing into
//! fixed-size arrays, erasure, and a comparison that does not stop at the
//! first difference.

use vstd::prelude::*;
use crate::crypto::wipe;

verus! {

/// The string of `n` zero bytes.
pub open spec fn zeros(n: nat) -> Seq<u8> {
    Seq::new(n, |i: int| 0u8)
}

/// The number that two bytes spell in little-endian order.
pub open spec fn le_value_2(b: Seq<u8>) -> int {
    b[0] + 0x100 * b[1]
}

/// The number that four bytes spell in little-endian order.
pub open spec fn le_value_4(b: Seq<u8>) -> int {
    b[0] + 0x100 * b[1] + 0x1_0000 * b[2] + 0x100_0000 * b[3]
}

/// The number that eight bytes spell in little-endian order.
pub open spec fn le_value_8(b: Seq<u8>) -> int {
    le_value_4(b.subrange(0, 4)) + 0x1_0000_0000 * le_value_4(b.subrange(4, 8))
}

/// The two bytes that spell `v` in little-endian order.
pub open spec fn le_bytes_2(v: u16) -> Seq<u8> {
    seq![(v % 0x100) as u8, (v / 0x100) as u8]
}

/// The four bytes that spell `v` in little-endian order.
pub open spec fn le_bytes_4(v: u32) -> Seq<u8> {
    seq![
        (v % 0x100) as u8,
        (v / 0x100 % 0x100) as u8,
        (v / 0x1_0000 % 0x100) as u8,
        (v / 0x100_0000) as u8,
    ]
}

/// Reading back what `le_bytes_2` and `le_bytes_4` wrote gives the number
/// that was written.
pub proof fn lemma_le_round_trip(v2: u16, v4: u32)
    ensures
        le_bytes_2(v2).len() == 2,
        le_value_2(le_bytes_2(v2)) == v2,
        le_bytes_4(v4).len() == 4,
        le_value_4(le_bytes_4(v4)) == v4,
{
}

pub(crate) fn read_le_u16(bytes: &[u8], offset: usize) -> (v: u16)
    requires
        offset + 2 <= bytes@.len(),
    ensures
        v == le_value_2(bytes@.subrange(offset as int, offset + 2)),
{
    let b0: u16 = bytes[offset] as u16;
    let b1: u16 = bytes[offset + 1] as u16;
    b0 + 0x100 * b1
}

pub(crate) fn read_le_u32(bytes: &[u8], offset: usize) -> (v: u32)
    requires
        offset + 4 <= bytes@.len(),
    ensures
        v == le_value_4(bytes@.subrange(offset as int, offset + 4)),
{
    let b0: u32 = bytes[offset] as u32;
    let b1: u32 = bytes[offset + 1] as u32;
    let b2: u32 = bytes[offset + 2] as u32;
    let b3: u32 = bytes[offset + 3] as u32;
    b0 + 0x100 * b1 + 0x1_0000 * b2 + 0x100_0000 * b3
}

pub(crate) fn read_le_u64(bytes: &[u8], offset: usize) -> (v: u64)
    requires
        offset + 8 <= bytes@.len(),
    ensures
        v == le_value_8(bytes@.subrange(offset as int, offset + 8)),
{
    let len: usize = bytes.len();
    let low: u64 = read_le_u32(bytes, offset) as u64;
    let high: u64 = read_le_u32(bytes, offset + 4) as u64;
    proof {
        let b = bytes@.subrange(offset as int, offset + 8);
        assert(b.subrange(0, 4) == bytes@.subrange(offset as int, offset + 4));
        assert(b.subrange(4, 8) == bytes@.subrange(offset + 4, offset + 8));
    }
    low + 0x1_0000_0000 * high
}

pub fn write_le_u16(v: u16) -> (bytes: [u8; 2])
    ensures
        bytes@ == le_bytes_2(v),
{
    let bytes: [u8; 2] = [(v % 0x100) as u8, (v / 0x100) as u8];
    assert(bytes@ =~= le_bytes_2(v));
    bytes
}

pub fn write_le_u32(v: u32) -> (bytes: [u8; 4])
    ensures
        bytes@ == le_bytes_4(v),
{
    let bytes: [u8; 4] = [
        (v % 0x100) as u8,
        (v / 0x100 % 0x100) as u8,
        (v / 0x1_0000 % 0x100) as u8,
        (v / 0x100_0000) as u8,
    ];
    assert(bytes@ =~= le_bytes_4(v));
    bytes
}

/// Copies `N` bytes of `bytes`, starting at `offset`, into an array.
pub(crate) fn array_at<const N: usize>(bytes: &[u8], offset: usize) -> (out: [u8; N])
    requires
        offset + N <= bytes@.len(),
    ensures
        out@ == bytes@.subrange(offset as int, offset + N),
{
    let len: usize = bytes.len();
    let mut out: [u8; N] = [0u8; N];
    let mut i: usize = 0;
    while i < N
        invariant
            i <= N,
            offset + N <= bytes@.len() == len,
            forall|j: int| 0 <= j < i ==> out@[j] == bytes@[offset + j],
        decreases N - i,
    {
        out[i] = bytes[offset + i];
        i += 1;
    }
    assert(out@ =~= bytes@.subrange(offset as int, offset + N));
    out
}

/// The concatenation of two byte strings.
pub fn join_bytes(a: &[u8], b: &[u8]) -> (out: Vec<u8>)
    ensures
        out@ == a@ + b@,
{
    let mut out: Vec<u8> = Vec::new();
    out.extend_from_slice(a);
    out.extend_from_slice(b);
    assert(out@ =~= a@ + b@);
    out
}

/// Overwrites a secret with zeros, by writes that the compiler may not
/// remove. For a key that was read from a session and is no longer
/// needed.
pub fn erase<const N: usize>(secret: &mut [u8; N])
    ensures
        final(secret)@ == zeros(N as nat),
{
    wipe(secret);
}

/// Whether two byte strings are equal. Strings of one length are compared
/// in full: the time taken does not tell where they first differ.
pub fn ct_eq(a: &[u8], b: &[u8]) -> (equal: bool)
    ensures
        equal == (a@ == b@),
{
    if a.len() != b.len() {
        return false;
    }
    let mut diff: u8 = 0;
    let mut i: usize = 0;
    while i < a.len()
        invariant
            i <= a@.len(),
            a@.len() == b@.len(),
            diff == 0 <==> (forall|j: int| 0 <= j < i ==> a@[j] == b@[j]),
        decreases a@.len() - i,
    {
        let x: u8 = a[i];
        let y: u8 = b[i];
        assert((diff | (x ^ y)) == 0 <==> (diff == 0 && x == y)) by (bit_vector);
        diff = diff | (x ^ y);
        i += 1;
    }
    assert(diff == 0 <==> a@ =~= b@);
    diff == 0
}

} // verus!
