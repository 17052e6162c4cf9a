use tkey_exchange::attestation::{AttestedReport, PeerIdentity, ReportRequest, TargetIdentity};
use tkey_exchange::codec::QuoteBounds;
use tkey_exchange::responder::{
    buffer_fits, sgx_dcap_mra_get_msg2, sgx_dcap_mra_proc_msg1, sgx_dcap_mra_proc_msg3, sgx_mra_responder_close,
    sgx_mra_responder_get_keys, sgx_mra_responder_get_peer_identity, sgx_mra_responder_init,
    sgx_mra_responder_init_with_key, SessionTable,
};
use tkey_exchange::session::{SessionConfig, SessionContext};
use tkey_exchange::status::Status;
use tkey_exchange::trust::{TrustPolicy, Verdict};

const PRIVATE_B: [u8; 32] = [
    0xa0, 0xa1, 0xa2, 0xa3, 0xa4, 0xa5, 0xa6, 0xa7, 0xa8, 0xa9, 0xaa, 0xab, 0xac, 0xad, 0xae, 0xaf,
    0xb0, 0xb1, 0xb2, 0xb3, 0xb4, 0xb5, 0xb6, 0xb7, 0xb8, 0xb9, 0xba, 0xbb, 0xbc, 0xbd, 0xbe, 0xbf,
];
const PUBLIC_A: [u8; 64] = [
    0x51, 0x5c, 0x3d, 0x6e, 0xb9, 0xe3, 0x96, 0xb9, 0x04, 0xd3, 0xfe, 0xca, 0x7f, 0x54, 0xfd, 0xcd,
    0x0c, 0xc1, 0xe9, 0x97, 0xbf, 0x37, 0x5d, 0xca, 0x51, 0x5a, 0xd0, 0xa6, 0xc3, 0xb4, 0x03, 0x5f,
    0x45, 0x36, 0xbe, 0x3a, 0x50, 0xf3, 0x18, 0xfb, 0xf9, 0xa5, 0x47, 0x59, 0x02, 0xa2, 0x21, 0x50,
    0x2b, 0xef, 0x0d, 0x57, 0xe0, 0x8c, 0x53, 0xb2, 0xcc, 0x0a, 0x56, 0xf1, 0x7d, 0x9f, 0x93, 0x54,
];
const PUBLIC_B: [u8; 64] = [
    0x0d, 0x09, 0x18, 0xa0, 0x41, 0x98, 0x47, 0x46, 0x05, 0x61, 0x5b, 0x6d, 0xf9, 0x0f, 0xdc, 0xb3,
    0x47, 0x91, 0xfb, 0x3e, 0xcb, 0x82, 0x2f, 0x4b, 0x26, 0xeb, 0x6e, 0x4f, 0xc4, 0x51, 0x1b, 0x9d,
    0x19, 0xb9, 0x0c, 0x1b, 0x83, 0xc0, 0xc3, 0x5c, 0xfb, 0xbb, 0x31, 0xea, 0xd3, 0x2b, 0xb5, 0x2a,
    0xe3, 0x36, 0x22, 0xf5, 0x7e, 0x3c, 0xc1, 0x63, 0x80, 0x97, 0xce, 0x97, 0xf4, 0x30, 0xba, 0xba,
];
const SK: [u8; 16] = [
    0x54, 0x48, 0x88, 0xa1, 0x0a, 0x0f, 0x0f, 0x66, 0x14, 0xc6, 0x58, 0xce, 0xc0, 0x67, 0x74, 0x6a,
];
const MSG2_MAC: [u8; 16] = [
    0xd6, 0x6b, 0xb5, 0xed, 0xd9, 0xe1, 0xb2, 0x0c, 0xe9, 0x95, 0xc4, 0x5c, 0x2e, 0x41, 0x0b, 0xda,
];
const BINDING_DIGEST: [u8; 32] = [
    0x8f, 0xb5, 0x74, 0xe6, 0x19, 0xac, 0x3d, 0x56, 0x06, 0xc8, 0x5a, 0x0f, 0xf0, 0xc5, 0xb7, 0x5f,
    0x95, 0x60, 0xcd, 0x45, 0xf5, 0x98, 0x3c, 0x6d, 0xe1, 0xed, 0x5b, 0x3c, 0xdd, 0x2a, 0xde, 0x43,
];
const MSG3_MAC: [u8; 16] = [
    0x11, 0x31, 0x08, 0x65, 0xac, 0x9e, 0x9f, 0x2f, 0x83, 0x0c, 0x73, 0x32, 0x55, 0x74, 0x71, 0x1b,
];
const NOW: i64 = 1_700_000_000;
const FAR: i64 = 4_000_000_000;

fn config() -> SessionConfig {
    SessionConfig { bounds: QuoteBounds { min: 1024, max: 8192 }, policy: TrustPolicy::strict() }
}

fn target() -> TargetIdentity {
    TargetIdentity {
        mr_enclave: [0x31; 32],
        attribute_flags: 0x05,
        attribute_xfrm: 0xe7,
        misc_select: 0,
        config_svn: 1,
        config_id: [0x32; 64],
    }
}

fn binding() -> [u8; 64] {
    let mut data = [0u8; 64];
    data[..32].copy_from_slice(&BINDING_DIGEST);
    data
}

fn good_msg3() -> Vec<u8> {
    let mut quote: Vec<u8> = (0..4096usize).map(|i| (i * 7 + 3) as u8).collect();
    quote[368..432].copy_from_slice(&binding());
    let mut msg = MSG3_MAC.to_vec();
    msg.extend_from_slice(&PUBLIC_A);
    msg.extend((0..256usize).map(|i| (i * 5 + 1) as u8));
    msg.extend_from_slice(&4096u32.to_le_bytes());
    msg.extend_from_slice(&quote);
    msg
}

fn blank_request() -> ReportRequest {
    ReportRequest { target: TargetIdentity::zeroed(), report_data: [0xee; 64] }
}

/// A table with one session that owns the known private key.
fn table_with_known_session() -> (SessionTable, usize) {
    let mut table = SessionTable::new(config());
    let session = SessionContext::with_private_key(config(), PRIVATE_B).ok().unwrap();
    let context = table.insert(session);
    (table, context)
}

fn run_msg1(table: &mut SessionTable, context: usize) -> ([u8; 64], ReportRequest, [u8; 16]) {
    let mut key = [0u8; 64];
    let mut request = blank_request();
    let mut nonce = [0u8; 16];
    let status = sgx_dcap_mra_proc_msg1(
        table, context, &PUBLIC_A, &target(), &mut key, &mut request, &mut nonce,
    );
    assert_eq!(status, Status::Success);
    (key, request, nonce)
}

fn run_msg2(table: &mut SessionTable, context: usize) -> Vec<u8> {
    let report = AttestedReport { target: target(), report_data: binding() };
    let mut msg2 = vec![0x99u8; 82 + 4096];
    assert_eq!(sgx_dcap_mra_get_msg2(table, context, &report, &mut msg2), Status::Success);
    msg2
}

fn run_msg3(table: &mut SessionTable, context: usize) -> Status {
    sgx_dcap_mra_proc_msg3(table, context, &good_msg3(), FAR, 0, Verdict::Trusted, None, NOW)
}

#[test]
fn init_hands_out_distinct_handles() {
    let mut table = SessionTable::new(config());
    let mut first = usize::MAX;
    let mut second = usize::MAX;
    assert_eq!(sgx_mra_responder_init(&mut table, &mut first), Status::Success);
    assert_eq!(sgx_mra_responder_init(&mut table, &mut second), Status::Success);
    assert_ne!(first, second);
    assert!(table.contains(first));
    assert!(table.contains(second));
    assert!(!table.contains(usize::MAX));
    // the two sessions are independent
    let (key1, _, _) = run_msg1(&mut table, first);
    let (key2, _, _) = run_msg1(&mut table, second);
    assert_ne!(key1, key2);
}

#[test]
fn handles_are_released_by_close_and_used_again() {
    let mut table = SessionTable::new(config());
    let mut a = 0usize;
    let mut b = 0usize;
    let mut c = 0usize;
    assert_eq!(sgx_mra_responder_init(&mut table, &mut a), Status::Success);
    assert_eq!(sgx_mra_responder_init(&mut table, &mut b), Status::Success);
    assert_eq!(sgx_mra_responder_close(&mut table, a), Status::Success);
    assert!(!table.contains(a));
    assert!(table.contains(b));
    assert_eq!(sgx_mra_responder_close(&mut table, a), Status::InvalidParameter);
    assert_eq!(sgx_mra_responder_init(&mut table, &mut c), Status::Success);
    assert_ne!(c, b);
    assert!(table.contains(c));
    // the session under the handle is a new one, in its first state
    let mut key = [0u8; 16];
    assert_eq!(sgx_mra_responder_get_keys(&table, c, 1, &mut key), Status::InvalidState);
    run_msg1(&mut table, c);
}

#[test]
fn unknown_handles_are_invalid_parameters() {
    let (mut table, context) = table_with_known_session();
    let unknown = context + 7;
    let mut key = [1u8; 64];
    let mut request = blank_request();
    let mut nonce = [2u8; 16];
    assert_eq!(
        sgx_dcap_mra_proc_msg1(
            &mut table, unknown, &PUBLIC_A, &target(), &mut key, &mut request, &mut nonce
        ),
        Status::InvalidParameter
    );
    assert_eq!(key, [1u8; 64]);
    assert_eq!(request.report_data, [0xee; 64]);
    assert_eq!(nonce, [2u8; 16]);
    let report = AttestedReport { target: target(), report_data: binding() };
    let mut msg2 = vec![0u8; 82 + 4096];
    assert_eq!(sgx_dcap_mra_get_msg2(&mut table, unknown, &report, &mut msg2), Status::InvalidParameter);
    assert_eq!(msg2, vec![0u8; 82 + 4096]);
    assert_eq!(run_msg3(&mut table, unknown), Status::InvalidParameter);
    let mut verdict = Verdict::Revoked;
    let mut identity = PeerIdentity::zeroed();
    assert_eq!(
        sgx_mra_responder_get_peer_identity(&table, unknown, &mut verdict, &mut identity),
        Status::InvalidParameter
    );
    assert_eq!(verdict, Verdict::Revoked);
    let mut session_key = [3u8; 16];
    assert_eq!(sgx_mra_responder_get_keys(&table, unknown, 1, &mut session_key), Status::InvalidParameter);
    assert_eq!(session_key, [3u8; 16]);
    assert_eq!(sgx_mra_responder_close(&mut table, unknown), Status::InvalidParameter);
    assert!(table.contains(context));
}

#[test]
fn msg1_of_wrong_length_is_an_invalid_parameter() {
    let (mut table, context) = table_with_known_session();
    let mut key = [1u8; 64];
    let mut request = blank_request();
    let mut nonce = [2u8; 16];
    for len in [0usize, 1, 63, 65, 128] {
        let msg1 = vec![0x51u8; len];
        assert_eq!(
            sgx_dcap_mra_proc_msg1(
                &mut table, context, &msg1, &target(), &mut key, &mut request, &mut nonce
            ),
            Status::InvalidParameter
        );
    }
    assert_eq!(key, [1u8; 64]);
    assert_eq!(nonce, [2u8; 16]);
    // a key off the curve has the right length and fails later
    assert_eq!(
        sgx_dcap_mra_proc_msg1(
            &mut table, context, &[0u8; 64], &target(), &mut key, &mut request, &mut nonce
        ),
        Status::CryptoFailure
    );
    assert_eq!(key, [1u8; 64]);
    let (own, request, _) = run_msg1(&mut table, context);
    assert_eq!(own, PUBLIC_B);
    assert_eq!(request.report_data, binding());
    assert!(request.target.same_as(&target()));
}

#[test]
fn get_msg2_fills_the_header_and_leaves_the_quote() {
    let (mut table, context) = table_with_known_session();
    run_msg1(&mut table, context);
    let report = AttestedReport { target: target(), report_data: binding() };
    let quote: Vec<u8> = (0..4096usize).map(|i| (i * 3) as u8).collect();
    let mut msg2 = vec![0x99u8; 82];
    msg2.extend_from_slice(&quote);
    assert_eq!(sgx_dcap_mra_get_msg2(&mut table, context, &report, &mut msg2), Status::Success);
    assert_eq!(msg2.len(), 82 + 4096);
    assert_eq!(&msg2[..64], &PUBLIC_B[..]);
    assert_eq!(&msg2[64..66], &[0x01u8, 0x00][..]);
    assert_eq!(&msg2[66..82], &MSG2_MAC[..]);
    assert_eq!(&msg2[82..], &quote[..]);
    // a second request is out of order, and leaves the buffer alone
    let mut again = vec![0x77u8; 82 + 4096];
    assert_eq!(sgx_dcap_mra_get_msg2(&mut table, context, &report, &mut again), Status::InvalidState);
    assert_eq!(again, vec![0x77u8; 82 + 4096]);
}

#[test]
fn get_msg2_refusals_leave_the_buffer_alone() {
    let (mut table, context) = table_with_known_session();
    let report = AttestedReport { target: target(), report_data: binding() };
    let mut msg2 = vec![0x99u8; 82 + 4096];
    // before message 1
    assert_eq!(sgx_dcap_mra_get_msg2(&mut table, context, &report, &mut msg2), Status::InvalidState);
    run_msg1(&mut table, context);
    // no room for a header
    for len in [0usize, 1, 81] {
        let mut short = vec![0x99u8; len];
        assert_eq!(sgx_dcap_mra_get_msg2(&mut table, context, &report, &mut short), Status::InvalidParameter);
        assert_eq!(short, vec![0x99u8; len]);
    }
    // a header and a quote whose length is out of bounds
    for quote_len in [0usize, 435, 1023, 8193] {
        let mut buffer = vec![0x99u8; 82 + quote_len];
        assert_eq!(sgx_dcap_mra_get_msg2(&mut table, context, &report, &mut buffer), Status::InvalidQuote);
        assert_eq!(buffer, vec![0x99u8; 82 + quote_len]);
    }
    // another report
    let other = AttestedReport { target: target(), report_data: [0; 64] };
    assert_eq!(sgx_dcap_mra_get_msg2(&mut table, context, &other, &mut msg2), Status::ReportMismatch);
    assert_eq!(msg2, vec![0x99u8; 82 + 4096]);
    // and still the right one is served
    assert_eq!(sgx_dcap_mra_get_msg2(&mut table, context, &report, &mut msg2), Status::Success);
    assert_eq!(&msg2[66..82], &MSG2_MAC[..]);
}

#[test]
fn proc_msg3_through_the_boundary() {
    let (mut table, context) = table_with_known_session();
    run_msg1(&mut table, context);
    run_msg2(&mut table, context);
    // supplemental data that is present has to hold something
    assert_eq!(
        sgx_dcap_mra_proc_msg3(&mut table, context, &good_msg3(), FAR, 0, Verdict::Trusted, Some(&[]), NOW),
        Status::InvalidParameter
    );
    let mut flipped = good_msg3();
    flipped[15] ^= 0x80;
    assert_eq!(
        sgx_dcap_mra_proc_msg3(&mut table, context, &flipped, FAR, 0, Verdict::Trusted, None, NOW),
        Status::MacVerifyFailed
    );
    assert_eq!(
        sgx_dcap_mra_proc_msg3(&mut table, context, &good_msg3(), FAR, 0, Verdict::OutOfDate, None, NOW),
        Status::QuoteNotTrusted
    );
    assert_eq!(
        sgx_dcap_mra_proc_msg3(&mut table, context, &good_msg3(), NOW - 1, 0, Verdict::Trusted, None, NOW),
        Status::QuoteExpired
    );
    assert_eq!(
        sgx_dcap_mra_proc_msg3(&mut table, context, &good_msg3()[..500], FAR, 0, Verdict::Trusted, None, NOW),
        Status::SizeMismatch
    );
    let mut key = [0u8; 16];
    assert_eq!(sgx_mra_responder_get_keys(&table, context, 1, &mut key), Status::InvalidState);
    assert_eq!(
        sgx_dcap_mra_proc_msg3(
            &mut table, context, &good_msg3(), FAR, 1, Verdict::Trusted, Some(&[1, 2, 3]), NOW
        ),
        Status::Success
    );
    assert_eq!(run_msg3(&mut table, context), Status::InvalidState);
}

#[test]
fn identity_and_keys_through_the_boundary() {
    let (mut table, context) = table_with_known_session();
    let mut verdict = Verdict::Revoked;
    let mut identity = PeerIdentity::zeroed();
    let mut key = [0xeeu8; 16];
    assert_eq!(
        sgx_mra_responder_get_peer_identity(&table, context, &mut verdict, &mut identity),
        Status::InvalidState
    );
    for key_type in [0u32, 1, 2, 3, 4, u32::MAX] {
        assert_eq!(sgx_mra_responder_get_keys(&table, context, key_type, &mut key), Status::InvalidState);
    }
    run_msg1(&mut table, context);
    run_msg2(&mut table, context);
    assert_eq!(sgx_mra_responder_get_keys(&table, context, 1, &mut key), Status::InvalidState);
    assert_eq!(run_msg3(&mut table, context), Status::Success);
    assert_eq!(verdict, Verdict::Revoked);
    assert_eq!(key, [0xee; 16]);

    assert_eq!(
        sgx_mra_responder_get_peer_identity(&table, context, &mut verdict, &mut identity),
        Status::Success
    );
    assert_eq!(verdict, Verdict::Trusted);
    assert_eq!(identity.isv_prod_id, 23123);
    assert_eq!(identity.isv_svn, 26721);
    let mut again = PeerIdentity::zeroed();
    let mut verdict_again = Verdict::Unspecified;
    assert_eq!(
        sgx_mra_responder_get_peer_identity(&table, context, &mut verdict_again, &mut again),
        Status::Success
    );
    assert_eq!(verdict_again, verdict);
    assert_eq!(again.mr_enclave, identity.mr_enclave);
    assert_eq!(again.mr_signer, identity.mr_signer);

    assert_eq!(sgx_mra_responder_get_keys(&table, context, 1, &mut key), Status::Success);
    assert_eq!(key, SK);
    let mut untouched = [0x11u8; 16];
    assert_eq!(sgx_mra_responder_get_keys(&table, context, 0, &mut untouched), Status::InvalidParameter);
    assert_eq!(sgx_mra_responder_get_keys(&table, context, 4, &mut untouched), Status::InvalidParameter);
    assert_eq!(untouched, [0x11u8; 16]);

    assert_eq!(sgx_mra_responder_close(&mut table, context), Status::Success);
    assert_eq!(sgx_mra_responder_get_keys(&table, context, 1, &mut key), Status::InvalidParameter);
    assert_eq!(
        sgx_mra_responder_get_peer_identity(&table, context, &mut verdict, &mut identity),
        Status::InvalidParameter
    );
}

#[test]
fn close_is_accepted_in_every_state() {
    for steps in 0..4 {
        let (mut table, context) = table_with_known_session();
        if steps >= 1 {
            run_msg1(&mut table, context);
        }
        if steps >= 2 {
            run_msg2(&mut table, context);
        }
        if steps >= 3 {
            assert_eq!(run_msg3(&mut table, context), Status::Success);
        }
        assert_eq!(sgx_mra_responder_close(&mut table, context), Status::Success);
        assert!(!table.contains(context));
    }
}

#[test]
fn buffer_fits_checks_the_end_and_the_least_size() {
    assert!(buffer_fits(0x1000, 82, 82));
    assert!(!buffer_fits(0x1000, 81, 82));
    assert!(buffer_fits(0x1000, u32::MAX, 340));
    assert!(buffer_fits(usize::MAX - 100, 100, 82));
    assert!(!buffer_fits(usize::MAX - 100, 101, 82));
    assert!(buffer_fits(0, 0, 0));
    assert!(buffer_fits(usize::MAX, 0, 0));
    assert!(!buffer_fits(usize::MAX, 1, 0));
    assert!(!buffer_fits(0, 0, 1));
}

#[test]
fn clear_closes_every_session() {
    let mut table = SessionTable::new(config());
    let mut a = 0usize;
    let mut b = 0usize;
    assert_eq!(sgx_mra_responder_init(&mut table, &mut a), Status::Success);
    assert_eq!(sgx_mra_responder_init(&mut table, &mut b), Status::Success);
    run_msg1(&mut table, a);
    table.clear();
    assert!(!table.contains(a));
    assert!(!table.contains(b));
    assert_eq!(sgx_mra_responder_close(&mut table, a), Status::InvalidParameter);
    let mut key = [0u8; 16];
    assert_eq!(sgx_mra_responder_get_keys(&table, b, 1, &mut key), Status::InvalidParameter);
    // the table serves new sessions
    let mut c = 0usize;
    assert_eq!(sgx_mra_responder_init(&mut table, &mut c), Status::Success);
    assert!(table.contains(c));
    table.clear();
    table.clear();
    assert!(!table.contains(c));
}

#[test]
fn init_with_key_takes_the_least_free_handle() {
    let mut table = SessionTable::new(config());
    let mut handles = [usize::MAX; 3];
    for (i, handle) in handles.iter_mut().enumerate() {
        assert_eq!(sgx_mra_responder_init_with_key(&mut table, handle, PRIVATE_B), Status::Success);
        assert_eq!(*handle, i);
    }
    // a handle that was released is the next one handed out
    assert_eq!(sgx_mra_responder_close(&mut table, 1), Status::Success);
    let mut next = usize::MAX;
    assert_eq!(sgx_mra_responder_init_with_key(&mut table, &mut next, PRIVATE_B), Status::Success);
    assert_eq!(next, 1);
    assert_eq!(sgx_mra_responder_init(&mut table, &mut next), Status::Success);
    assert_eq!(next, 3);
    // the session owns the key that was given: its public key is the known one
    let (own, _, _) = run_msg1(&mut table, 1);
    assert_eq!(own, PUBLIC_B);
    let mut key = [0u8; 16];
    assert_eq!(sgx_mra_responder_get_keys(&table, 1, 1, &mut key), Status::InvalidState);
}

#[test]
fn init_with_key_refuses_what_the_curve_refuses() {
    let mut table = SessionTable::new(config());
    let mut context = 7usize;
    assert_eq!(sgx_mra_responder_init_with_key(&mut table, &mut context, [0u8; 32]), Status::CryptoFailure);
    assert_eq!(sgx_mra_responder_init_with_key(&mut table, &mut context, [0xff; 32]), Status::CryptoFailure);
    assert_eq!(context, 7);
    assert!(!table.contains(0));
    assert_eq!(sgx_mra_responder_init_with_key(&mut table, &mut context, PRIVATE_B), Status::Success);
    assert_eq!(context, 0);
    assert!(table.contains(0));
}
