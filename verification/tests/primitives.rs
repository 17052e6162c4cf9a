use hmac::Mac;
use tkey_exchange::bytes::{ct_eq, erase, join_bytes, write_le_u16, write_le_u32};
use tkey_exchange::kdf::{derive_key, KeyLabel, KEY_TYPE_MK, KEY_TYPE_SK, KEY_TYPE_VK};
use tkey_exchange::mac::{hmac_sha256, mac_tag};
use tkey_exchange::status::{ErrorClass, Status};

fn unhex(text: &str) -> Vec<u8> {
    let digits: Vec<u8> = text
        .bytes()
        .map(|c| match c {
            b'0'..=b'9' => c - b'0',
            b'a'..=b'f' => c - b'a' + 10,
            _ => panic!("not a hex digit"),
        })
        .collect();
    digits.chunks(2).map(|pair| pair[0] * 16 + pair[1]).collect()
}

fn reference_hmac(key: &[u8], data: &[u8]) -> Vec<u8> {
    let mut mac = hmac::Hmac::<sha2::Sha256>::new_from_slice(key).unwrap();
    mac.update(data);
    mac.finalize().into_bytes().to_vec()
}

#[test]
fn status_codes_round_trip() {
    let all = [
        Status::Success,
        Status::InvalidParameter,
        Status::InvalidState,
        Status::CryptoFailure,
        Status::ReportMismatch,
        Status::InvalidQuote,
        Status::SizeMismatch,
        Status::MacMismatch,
        Status::MacVerifyFailed,
        Status::QuoteNotTrusted,
        Status::QuoteExpired,
        Status::BindingMismatch,
    ];
    for (i, status) in all.iter().enumerate() {
        assert_eq!(status.code(), i as u32);
        assert_eq!(Status::from_code(i as u32), Some(*status));
        assert_eq!(status.is_success(), i == 0);
    }
    assert_eq!(Status::from_code(12), None);
    assert_eq!(Status::from_code(u32::MAX), None);
}

#[test]
fn status_classes() {
    assert_eq!(Status::Success.class(), None);
    assert_eq!(Status::InvalidParameter.class(), Some(ErrorClass::Parameter));
    assert_eq!(Status::InvalidQuote.class(), Some(ErrorClass::Parameter));
    assert_eq!(Status::SizeMismatch.class(), Some(ErrorClass::Parameter));
    assert_eq!(Status::InvalidState.class(), Some(ErrorClass::State));
    assert_eq!(Status::CryptoFailure.class(), Some(ErrorClass::Crypto));
    assert_eq!(Status::ReportMismatch.class(), Some(ErrorClass::Trust));
    assert_eq!(Status::QuoteNotTrusted.class(), Some(ErrorClass::Trust));
    assert_eq!(Status::QuoteExpired.class(), Some(ErrorClass::Trust));
    assert_eq!(Status::BindingMismatch.class(), Some(ErrorClass::Trust));
    assert_eq!(Status::MacMismatch.class(), Some(ErrorClass::Integrity));
    assert_eq!(Status::MacVerifyFailed.class(), Some(ErrorClass::Integrity));
}

#[test]
fn little_endian_writes() {
    assert_eq!(write_le_u16(0x1234), [0x34, 0x12]);
    assert_eq!(write_le_u16(1), [1, 0]);
    assert_eq!(write_le_u16(u16::MAX), [0xff, 0xff]);
    assert_eq!(write_le_u32(0x1234_5678), [0x78, 0x56, 0x34, 0x12]);
    assert_eq!(write_le_u32(4096), [0x00, 0x10, 0x00, 0x00]);
    assert_eq!(write_le_u32(u32::MAX), [0xff; 4]);
    assert_eq!(write_le_u32(0xdead_beef), 0xdead_beefu32.to_le_bytes());
}

#[test]
fn concat_joins() {
    assert_eq!(join_bytes(&[1, 2], &[3]), vec![1, 2, 3]);
    assert_eq!(join_bytes(&[], &[4]), vec![4]);
    assert_eq!(join_bytes(&[], &[]), Vec::<u8>::new());
}

#[test]
fn ct_eq_compares_whole_strings() {
    assert!(ct_eq(&[], &[]));
    assert!(ct_eq(&[1, 2, 3], &[1, 2, 3]));
    assert!(!ct_eq(&[1, 2, 3], &[1, 2, 4]));
    assert!(!ct_eq(&[0, 2, 3], &[1, 2, 3]));
    assert!(!ct_eq(&[1, 2, 3], &[1, 2]));
    assert!(!ct_eq(&[1, 2], &[1, 2, 3]));
    assert!(!ct_eq(&[0x80], &[0x00]));
}

#[test]
fn hmac_known_answers() {
    assert_eq!(
        hmac_sha256(&[0x0b; 20], b"Hi There").to_vec(),
        unhex("b0344c61d8db38535ca8afceaf0bf12b881dc200c9833da726e9376c2e32cff7")
    );
    assert_eq!(
        hmac_sha256(b"Jefe", b"what do ya want for nothing?").to_vec(),
        unhex("5bdcc146bf60754e6a042426089575c75a003f089d2739839dec58b964ec3843")
    );
    assert_eq!(
        hmac_sha256(&[0xaa; 131], b"Test Using Larger Than Block-Size Key - Hash Key First")
            .to_vec(),
        unhex("60e431591ee0b67f0d8a26aacbf5b77f8e0bc6213728c5140546040f0ee37f54")
    );
}

#[test]
fn hmac_agrees_with_reference_on_every_key_length() {
    let data: Vec<u8> = (0..300u32).map(|i| (i * 31 + 7) as u8).collect();
    for key_len in 0..140usize {
        let key: Vec<u8> = (0..key_len).map(|i| (i * 13 + 1) as u8).collect();
        for data_len in [0usize, 1, 55, 56, 63, 64, 65, 300] {
            assert_eq!(
                hmac_sha256(&key, &data[..data_len]).to_vec(),
                reference_hmac(&key, &data[..data_len])
            );
        }
    }
}

#[test]
fn mac_tag_is_the_first_half_of_the_hmac() {
    let key = [7u8; 16];
    let data = b"authenticated bytes";
    let tag = mac_tag(&key, data);
    assert_eq!(tag.to_vec(), reference_hmac(&key, data)[..16].to_vec());
    assert_eq!(
        mac_tag(&[0x0b; 20], b"Hi There").to_vec(),
        unhex("b0344c61d8db38535ca8afceaf0bf12b")
    );
}

#[test]
fn derive_key_follows_its_formula() {
    let shared = [0x42u8; 32];
    let derivation_key = reference_hmac(&[0u8; 16], &shared)[..16].to_vec();
    let labels: [(KeyLabel, &[u8]); 4] = [
        (KeyLabel::Smk, b"SMK"),
        (KeyLabel::Sk, b"SK"),
        (KeyLabel::Mk, b"MK"),
        (KeyLabel::Vk, b"VK"),
    ];
    for (label, text) in labels {
        let mut message = vec![0x01u8];
        message.extend_from_slice(text);
        message.extend_from_slice(&[0x00, 0x80, 0x00]);
        let expected = reference_hmac(&derivation_key, &message)[..16].to_vec();
        assert_eq!(derive_key(&shared, label).to_vec(), expected);
    }
}

#[test]
fn derive_key_known_answers() {
    let shared: [u8; 32] = [
        0x71, 0x13, 0xaf, 0x48, 0xaa, 0xb0, 0x3b, 0xbe, 0x7c, 0x68, 0x38, 0x75, 0x64, 0xe8, 0xca,
        0x74, 0xb5, 0xab, 0xfe, 0x97, 0x37, 0x44, 0x54, 0x63, 0x9c, 0xe0, 0x2f, 0x11, 0x8f, 0x16,
        0x17, 0x7c,
    ];
    assert_eq!(
        derive_key(&shared, KeyLabel::Smk).to_vec(),
        unhex("1a1c23a2f6089c50572c8b0956909c9d")
    );
    assert_eq!(
        derive_key(&shared, KeyLabel::Sk).to_vec(),
        unhex("544888a10a0f0f6614c658cec067746a")
    );
    assert_eq!(
        derive_key(&shared, KeyLabel::Mk).to_vec(),
        unhex("909d1943b71e6abeac5fe3d35898ca23")
    );
    assert_eq!(
        derive_key(&shared, KeyLabel::Vk).to_vec(),
        unhex("71c47a6d8b1f8604c32e086692a49d05")
    );
}

#[test]
fn derived_keys_differ_by_label() {
    let shared = [9u8; 32];
    let keys = [
        derive_key(&shared, KeyLabel::Smk),
        derive_key(&shared, KeyLabel::Sk),
        derive_key(&shared, KeyLabel::Mk),
        derive_key(&shared, KeyLabel::Vk),
    ];
    for i in 0..4 {
        for j in 0..4 {
            assert_eq!(keys[i] == keys[j], i == j);
        }
    }
}

#[test]
fn key_type_selectors() {
    assert_eq!(KeyLabel::from_key_type(KEY_TYPE_SK), Some(KeyLabel::Sk));
    assert_eq!(KeyLabel::from_key_type(KEY_TYPE_MK), Some(KeyLabel::Mk));
    assert_eq!(KeyLabel::from_key_type(KEY_TYPE_VK), Some(KeyLabel::Vk));
    assert_eq!(KeyLabel::from_key_type(1), Some(KeyLabel::Sk));
    assert_eq!(KeyLabel::from_key_type(2), Some(KeyLabel::Mk));
    assert_eq!(KeyLabel::from_key_type(3), Some(KeyLabel::Vk));
    assert_eq!(KeyLabel::from_key_type(0), None);
    assert_eq!(KeyLabel::from_key_type(4), None);
    assert_eq!(KeyLabel::from_key_type(u32::MAX), None);
}

#[test]
fn erase_leaves_zeros() {
    let mut key = [0xa5u8; 16];
    erase(&mut key);
    assert_eq!(key, [0u8; 16]);
    let mut secret: [u8; 32] = [0; 32];
    for (i, b) in secret.iter_mut().enumerate() {
        *b = i as u8 + 1;
    }
    erase(&mut secret);
    assert_eq!(secret, [0u8; 32]);
    let mut nothing: [u8; 0] = [];
    erase(&mut nothing);
    assert_eq!(nothing.len(), 0);
}
