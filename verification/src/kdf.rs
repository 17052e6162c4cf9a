//! Derivation of the session's symmetric keys from the raw shared secret.

use vstd::prelude::*;
use crate::bytes::zeros;
use crate::mac::{mac_tag, mac_tag_of};

verus! {

/// Length of a derived key.
pub const KEY_LEN: usize = 16;

/// Selector of the session-traffic key in `get_keys`.
pub const KEY_TYPE_SK: u32 = 1;

/// Selector of the key for further derivation in `get_keys`.
pub const KEY_TYPE_MK: u32 = 2;

/// Selector of the auxiliary verification key in `get_keys`.
pub const KEY_TYPE_VK: u32 = 3;

/// The purposes for which a key is derived.
#[derive(Clone, Copy, Debug, PartialEq, Eq, Structural)]
pub enum KeyLabel {
    /// Authenticates messages 2 and 3; never leaves the session.
    Smk,
    /// Protects session traffic.
    Sk,
    /// Seeds further key derivation.
    Mk,
    /// Auxiliary verification.
    Vk,
}

impl KeyLabel {
    /// The ASCII label that tells the keys of one session apart.
    pub open spec fn text(self) -> Seq<u8> {
        match self {
            KeyLabel::Smk => seq![0x53u8, 0x4du8, 0x4bu8],
            KeyLabel::Sk => seq![0x53u8, 0x4bu8],
            KeyLabel::Mk => seq![0x4du8, 0x4bu8],
            KeyLabel::Vk => seq![0x56u8, 0x4bu8],
        }
    }

    /// The key that a selector of `get_keys` stands for. The
    /// message-authentication key has no selector.
    pub open spec fn of_key_type(key_type: u32) -> Option<KeyLabel> {
        if key_type == KEY_TYPE_SK {
            Some(KeyLabel::Sk)
        } else if key_type == KEY_TYPE_MK {
            Some(KeyLabel::Mk)
        } else if key_type == KEY_TYPE_VK {
            Some(KeyLabel::Vk)
        } else {
            None
        }
    }

    pub fn from_key_type(key_type: u32) -> (label: Option<KeyLabel>)
        ensures
            label == KeyLabel::of_key_type(key_type),
    {
        if key_type == KEY_TYPE_SK {
            Some(KeyLabel::Sk)
        } else if key_type == KEY_TYPE_MK {
            Some(KeyLabel::Mk)
        } else if key_type == KEY_TYPE_VK {
            Some(KeyLabel::Vk)
        } else {
            None
        }
    }
}

/// The message that is authenticated to derive the key of one purpose: a
/// counter of one, the label, a zero separator, and the length of the key
/// in bits as a little-endian 16-bit number.
pub open spec fn derivation_message(label: KeyLabel) -> Seq<u8> {
    seq![0x01u8] + label.text() + seq![0x00u8, 0x80u8, 0x00u8]
}

/// The key-derivation key: the tag of the shared secret under the all-zero
/// key.
pub open spec fn derivation_key_of(shared_secret: Seq<u8>) -> Seq<u8> {
    mac_tag_of(zeros(KEY_LEN as nat), shared_secret)
}

/// The key of one purpose: the tag of that purpose's derivation message
/// under the key-derivation key.
pub open spec fn derive_key_of(shared_secret: Seq<u8>, label: KeyLabel) -> Seq<u8> {
    mac_tag_of(derivation_key_of(shared_secret), derivation_message(label))
}

/// Keys of different purposes are derived from different messages.
pub proof fn lemma_labels_are_distinct(a: KeyLabel, b: KeyLabel)
    requires
        a != b,
    ensures
        derivation_message(a) != derivation_message(b),
{
    let ma = derivation_message(a);
    let mb = derivation_message(b);
    if ma.len() == mb.len() {
        assert(ma[1] == a.text()[0]);
        assert(mb[1] == b.text()[0]);
        assert(ma[2] == a.text()[1]);
        assert(mb[2] == b.text()[1]);
    }
}

fn message_for(label: KeyLabel) -> (message: Vec<u8>)
    ensures
        message@ == derivation_message(label),
{
    let mut message: Vec<u8> = Vec::new();
    message.push(0x01);
    match label {
        KeyLabel::Smk => {
            message.push(0x53);
            message.push(0x4d);
            message.push(0x4b);
        },
        KeyLabel::Sk => {
            message.push(0x53);
            message.push(0x4b);
        },
        KeyLabel::Mk => {
            message.push(0x4d);
            message.push(0x4b);
        },
        KeyLabel::Vk => {
            message.push(0x56);
            message.push(0x4b);
        },
    }
    message.push(0x00);
    message.push(0x80);
    message.push(0x00);
    assert(message@ =~= derivation_message(label));
    message
}

/// Derives the key of one purpose from the raw shared secret.
pub fn derive_key(shared_secret: &[u8; 32], label: KeyLabel) -> (key: [u8; 16])
    ensures
        key@ == derive_key_of(shared_secret@, label),
{
    let zero_key: [u8; 16] = [0u8; 16];
    assert(zero_key@ =~= zeros(KEY_LEN as nat));
    let derivation_key: [u8; 16] = mac_tag(zero_key.as_slice(), shared_secret.as_slice());
    let message = message_for(label);
    mac_tag(derivation_key.as_slice(), message.as_slice())
}

} // verus!
