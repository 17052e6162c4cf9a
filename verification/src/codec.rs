//! Wire layout of the three messages of the exchange.
//!
//! Message 1 is the initiator's public key, 64 bytes. Message 2 is a
//! header of public key (64 bytes), key-derivation id (2 bytes,
//! little-endian) and tag (16 bytes), followed by the responder's quote.
//! Message 3 is a header of tag (16 bytes), echoed public key (64 bytes),
//! security properties (256 bytes) and quote length (4 bytes,
//! little-endian), followed by the initiator's quote. No length is used
//! before it has been checked against the configured bounds and against
//! the size of the buffer that was delivered.

use vstd::prelude::*;
use crate::attestation::QUOTE_MIN_LEN;
use crate::bytes::{array_at, le_bytes_2, le_bytes_4, le_value_4, read_le_u32, write_le_u16, write_le_u32};
use crate::mac::MAC_LEN;
use crate::status::Status;

verus! {

/// Length of a public key: two 32-byte big-endian coordinates.
pub const PUBLIC_KEY_LEN: usize = 64;

/// Length of the security properties carried by message 3.
pub const SECURITY_PROPERTIES_LEN: usize = 256;

/// Length of message 1.
pub const MSG1_LEN: usize = 64;

/// Length of the header of message 2.
pub const MSG2_HEADER_LEN: usize = 82;

/// Length of the header of message 3.
pub const MSG3_HEADER_LEN: usize = 340;

/// Where the echoed public key stands in message 3.
pub const MSG3_PUBLIC_KEY_AT: usize = 16;

/// Where the security properties stand in message 3.
pub const MSG3_SECURITY_PROPERTIES_AT: usize = 80;

/// Where the declared quote length stands in message 3.
pub const MSG3_QUOTE_LEN_AT: usize = 336;

/// The id of the key-derivation function that message 2 announces.
pub const KDF_ID: u16 = 1;

/// The configured bounds on the length of a quote.
#[derive(Clone, Copy, Debug, PartialEq, Eq, Structural)]
pub struct QuoteBounds {
    /// The least length accepted.
    pub min: u32,
    /// The greatest length accepted.
    pub max: u32,
}

impl QuoteBounds {
    /// Whether a quote of `len` bytes is accepted: within the configured
    /// bounds, and long enough to hold the fixed part of a quote.
    pub open spec fn admits_len(self, len: int) -> bool {
        QUOTE_MIN_LEN <= len && self.min <= len <= self.max
    }

    pub fn admits(&self, len: usize) -> (yes: bool)
        ensures
            yes == self.admits_len(len as int),
    {
        QUOTE_MIN_LEN <= len && self.min as usize <= len && len <= self.max as usize
    }
}

/// The public key that message 1 carries; `None` where the message does
/// not have the length of message 1.
pub open spec fn msg1_public_key_of(bytes: Seq<u8>) -> Option<Seq<u8>> {
    if bytes.len() == MSG1_LEN {
        Some(bytes)
    } else {
        None
    }
}

/// Reads message 1.
pub fn parse_msg1(bytes: &[u8]) -> (public_key: Option<[u8; 64]>)
    ensures
        match public_key {
            Some(key) => msg1_public_key_of(bytes@) == Some(key@),
            None => msg1_public_key_of(bytes@) is None,
        },
{
    if bytes.len() != MSG1_LEN {
        return None;
    }
    let key: [u8; 64] = array_at::<64>(bytes, 0);
    assert(bytes@.subrange(0, 64) =~= bytes@);
    Some(key)
}

/// The header of message 2.
#[derive(Clone, Copy, Debug)]
pub struct Msg2 {
    /// The responder's public key.
    pub public_key: [u8; 64],
    /// The id of the key-derivation function.
    pub kdf_id: u16,
    /// The tag over public key and id.
    pub mac: [u8; 16],
}

/// What a `Msg2` holds, as mathematical values.
#[verifier::ext_equal]
pub struct Msg2View {
    pub public_key: Seq<u8>,
    pub kdf_id: u16,
    pub mac: Seq<u8>,
}

impl View for Msg2 {
    type V = Msg2View;

    open spec fn view(&self) -> Msg2View {
        Msg2View { public_key: self.public_key@, kdf_id: self.kdf_id, mac: self.mac@ }
    }
}

/// The bytes of message 2 that its tag authenticates: the public key, then
/// the key-derivation id. The quote that follows the header is not among
/// them.
pub open spec fn msg2_authenticated_of(public_key: Seq<u8>, kdf_id: u16) -> Seq<u8> {
    public_key + le_bytes_2(kdf_id)
}

/// The header of message 2 as it goes on the wire.
pub open spec fn msg2_header_of(msg: Msg2View) -> Seq<u8> {
    msg.public_key + le_bytes_2(msg.kdf_id) + msg.mac
}

/// Builds the bytes that the tag of message 2 authenticates.
pub fn msg2_authenticated(public_key: &[u8; 64], kdf_id: u16) -> (bytes: Vec<u8>)
    ensures
        bytes@ == msg2_authenticated_of(public_key@, kdf_id),
{
    let id: [u8; 2] = write_le_u16(kdf_id);
    let mut bytes: Vec<u8> = Vec::new();
    bytes.extend_from_slice(public_key.as_slice());
    bytes.extend_from_slice(id.as_slice());
    assert(bytes@ =~= msg2_authenticated_of(public_key@, kdf_id));
    bytes
}

impl Msg2 {
    /// The 82 bytes of the header.
    pub fn encode_header(&self) -> (bytes: Vec<u8>)
        ensures
            bytes@ == msg2_header_of(self@),
            bytes@.len() == MSG2_HEADER_LEN,
    {
        let id: [u8; 2] = write_le_u16(self.kdf_id);
        let mut bytes: Vec<u8> = Vec::new();
        bytes.extend_from_slice(self.public_key.as_slice());
        bytes.extend_from_slice(id.as_slice());
        bytes.extend_from_slice(self.mac.as_slice());
        assert(bytes@ =~= msg2_header_of(self@));
        bytes
    }
}

/// Message 3, taken apart.
#[derive(Debug)]
pub struct Msg3 {
    /// The tag over the rest of the message, the quote length excepted.
    pub mac: [u8; 16],
    /// The initiator's public key, echoed from message 1.
    pub public_key: [u8; 64],
    /// The initiator's security properties.
    pub security_properties: [u8; 256],
    /// The initiator's quote.
    pub quote: Vec<u8>,
}

/// What a `Msg3` holds, as mathematical values.
#[verifier::ext_equal]
pub struct Msg3View {
    pub mac: Seq<u8>,
    pub public_key: Seq<u8>,
    pub security_properties: Seq<u8>,
    pub quote: Seq<u8>,
}

impl View for Msg3 {
    type V = Msg3View;

    open spec fn view(&self) -> Msg3View {
        Msg3View {
            mac: self.mac@,
            public_key: self.public_key@,
            security_properties: self.security_properties@,
            quote: self.quote@,
        }
    }
}

/// The quote length that the header of message 3 declares.
pub open spec fn msg3_declared_len(bytes: Seq<u8>) -> int {
    le_value_4(bytes.subrange(MSG3_QUOTE_LEN_AT as int, MSG3_HEADER_LEN as int))
}

/// Whether `bytes` has the size of a message 3: it holds a whole header,
/// the quote length that the header declares is within `bounds`, and the
/// header and a quote of that length make up the message exactly.
pub open spec fn msg3_well_sized(bytes: Seq<u8>, bounds: QuoteBounds) -> bool {
    &&& bytes.len() >= MSG3_HEADER_LEN
    &&& bounds.admits_len(msg3_declared_len(bytes))
    &&& bytes.len() == MSG3_HEADER_LEN + msg3_declared_len(bytes)
}

/// The fields of a message 3. Meaningful where the message is well sized.
pub open spec fn msg3_fields_of(bytes: Seq<u8>) -> Msg3View {
    Msg3View {
        mac: bytes.subrange(0, MAC_LEN as int),
        public_key: bytes.subrange(MSG3_PUBLIC_KEY_AT as int, MSG3_SECURITY_PROPERTIES_AT as int),
        security_properties: bytes.subrange(
            MSG3_SECURITY_PROPERTIES_AT as int,
            MSG3_QUOTE_LEN_AT as int,
        ),
        quote: bytes.subrange(MSG3_HEADER_LEN as int, bytes.len() as int),
    }
}

/// What reading `bytes` as message 3 gives: its fields, or `SizeMismatch`.
pub open spec fn msg3_of(bytes: Seq<u8>, bounds: QuoteBounds) -> Result<Msg3View, Status> {
    if msg3_well_sized(bytes, bounds) {
        Ok(msg3_fields_of(bytes))
    } else {
        Err(Status::SizeMismatch)
    }
}

/// The bytes of message 3 that its tag authenticates: the echoed public
/// key, the security properties and the quote.
pub open spec fn msg3_authenticated_of(msg: Msg3View) -> Seq<u8> {
    msg.public_key + msg.security_properties + msg.quote
}

/// Message 3 as it goes on the wire. Meaningful where the length of the
/// quote fits the 4-byte field.
pub open spec fn msg3_bytes_of(msg: Msg3View) -> Seq<u8> {
    msg.mac + msg.public_key + msg.security_properties + le_bytes_4(msg.quote.len() as u32)
        + msg.quote
}

impl Msg3 {
    /// Reads message 3. The declared quote length is checked against
    /// `bounds` and against the size of `bytes` before anything is read
    /// at an offset that depends on it.
    pub fn parse(bytes: &[u8], bounds: &QuoteBounds) -> (msg: Result<Msg3, Status>)
        ensures
            match msg {
                Ok(m) => msg3_of(bytes@, *bounds) == Ok::<Msg3View, Status>(m@),
                Err(e) => msg3_of(bytes@, *bounds) == Err::<Msg3View, Status>(e),
            },
    {
        let len: usize = bytes.len();
        if len < MSG3_HEADER_LEN {
            return Err(Status::SizeMismatch);
        }
        let declared: u32 = read_le_u32(bytes, MSG3_QUOTE_LEN_AT);
        let quote_len: usize = len - MSG3_HEADER_LEN;
        if !bounds.admits(quote_len) {
            return Err(Status::SizeMismatch);
        }
        if quote_len > u32::MAX as usize || quote_len as u32 != declared {
            return Err(Status::SizeMismatch);
        }
        let mut quote: Vec<u8> = Vec::new();
        quote.extend_from_slice(&bytes[MSG3_HEADER_LEN..len]);
        assert(quote@ =~= bytes@.subrange(MSG3_HEADER_LEN as int, len as int));
        Ok(
            Msg3 {
                mac: array_at::<16>(bytes, 0),
                public_key: array_at::<64>(bytes, MSG3_PUBLIC_KEY_AT),
                security_properties: array_at::<256>(bytes, MSG3_SECURITY_PROPERTIES_AT),
                quote,
            },
        )
    }

    /// The bytes that the tag of this message authenticates.
    pub fn authenticated(&self) -> (bytes: Vec<u8>)
        ensures
            bytes@ == msg3_authenticated_of(self@),
    {
        let mut bytes: Vec<u8> = Vec::new();
        bytes.extend_from_slice(self.public_key.as_slice());
        bytes.extend_from_slice(self.security_properties.as_slice());
        bytes.extend_from_slice(self.quote.as_slice());
        assert(bytes@ =~= msg3_authenticated_of(self@));
        bytes
    }

    /// The message as it goes on the wire; `None` where the quote is too
    /// long for its length to be declared in four bytes.
    pub fn encode(&self) -> (bytes: Option<Vec<u8>>)
        ensures
            match bytes {
                Some(b) => self@.quote.len() <= u32::MAX && b@ == msg3_bytes_of(self@),
                None => self@.quote.len() > u32::MAX,
            },
    {
        let quote_len: usize = self.quote.len();
        if quote_len > u32::MAX as usize {
            return None;
        }
        let declared: [u8; 4] = write_le_u32(quote_len as u32);
        let mut bytes: Vec<u8> = Vec::new();
        bytes.extend_from_slice(self.mac.as_slice());
        bytes.extend_from_slice(self.public_key.as_slice());
        bytes.extend_from_slice(self.security_properties.as_slice());
        bytes.extend_from_slice(declared.as_slice());
        bytes.extend_from_slice(self.quote.as_slice());
        assert(bytes@ =~= msg3_bytes_of(self@));
        Some(bytes)
    }
}

} // verus!
