//! What the exchange guarantees, stated over sessions as mathematical
//! values and proved from the definitions of the steps. The executable
//! operations are specified by the same definitions, so that each
//! statement here holds of what they do.

use vstd::prelude::*;
use crate::attestation::{
    AttestedReportView, PeerIdentityView, TargetIdentityView, quote_identity_of,
    quote_report_data_of, report_answers, report_binding_of,
};
use crate::codec::{
    KDF_ID, MSG3_HEADER_LEN, Msg3View, QuoteBounds, msg2_authenticated_of, msg3_authenticated_of,
    msg3_bytes_of, msg3_declared_len, msg3_fields_of, msg3_of, msg3_well_sized,
};
use crate::bytes::{le_bytes_4, lemma_le_round_trip};
use crate::crypto::p256_agreement;
use crate::kdf::{KEY_TYPE_MK, KEY_TYPE_SK, KEY_TYPE_VK, KeyLabel, derive_key_of};
use crate::mac::{MAC_LEN, mac_tag_of};
use crate::session::{SessionState, SessionView};
use crate::status::Status;
use crate::trust::{QuoteVerification, Verdict};

verus! {

/// Whether message 3 passes every check that comes before the verifier's
/// report is looked at: it is well sized, it echoes the public key of
/// message 1, and its tag is the one the session expects.
pub open spec fn authenticates(session: SessionView, msg3: Seq<u8>) -> bool {
    &&& msg3_well_sized(msg3, session.config.bounds)
    &&& msg3_fields_of(msg3).public_key == session.peer_public_key
    &&& msg3_fields_of(msg3).mac == session.msg3_tag(
        msg3_authenticated_of(msg3_fields_of(msg3)),
    )
}

/// `msg3` with one bit of one byte inverted.
pub open spec fn with_bit_flipped(msg3: Seq<u8>, byte: int, bit: u8) -> Seq<u8> {
    msg3.update(byte, msg3[byte] ^ (1u8 << bit))
}

/// Each step is accepted in one state only and moves the session to the
/// next state; no step goes back, skips a state, or leaves `Closed`. A
/// step that is refused is refused with a failure, never with `Success`.
pub proof fn lemma_steps_follow_the_order(
    session: SessionView,
    peer_public_key: Seq<u8>,
    target: TargetIdentityView,
    nonce: Seq<u8>,
    report: AttestedReportView,
    quote_len: int,
    msg3: Seq<u8>,
    verification: QuoteVerification,
    now: i64,
)
    ensures
        session.after_msg1(peer_public_key, target, nonce) matches Ok(next) ==> session.state
            == SessionState::Created && next.state == SessionState::Msg1Processed,
        session.after_msg2(report, quote_len) matches Ok(next) ==> session.state
            == SessionState::Msg1Processed && next.state == SessionState::Msg2Sent,
        session.after_msg3(msg3, verification, now) matches Ok(next) ==> session.state
            == SessionState::Msg2Sent && next.state == SessionState::Msg3Verified,
        session.after_msg1(peer_public_key, target, nonce) != Err::<SessionView, Status>(
            Status::Success,
        ),
        session.after_msg2(report, quote_len) != Err::<SessionView, Status>(Status::Success),
        session.after_msg3(msg3, verification, now) != Err::<SessionView, Status>(
            Status::Success,
        ),
        session.state == SessionState::Closed ==> {
            &&& session.after_msg1(peer_public_key, target, nonce) == Err::<SessionView, Status>(
                Status::InvalidState,
            )
            &&& session.after_msg2(report, quote_len) == Err::<SessionView, Status>(
                Status::InvalidState,
            )
            &&& session.after_msg3(msg3, verification, now) == Err::<SessionView, Status>(
                Status::InvalidState,
            )
        },
{
}

/// A step that is accepted keeps the session valid, and so does `close`.
pub proof fn lemma_steps_keep_sessions_valid(
    session: SessionView,
    peer_public_key: Seq<u8>,
    target: TargetIdentityView,
    nonce: Seq<u8>,
    report: AttestedReportView,
    quote_len: int,
    msg3: Seq<u8>,
    verification: QuoteVerification,
    now: i64,
)
    requires
        session.valid(),
    ensures
        session.after_msg1(peer_public_key, target, nonce) matches Ok(next) ==> next.valid(),
        session.after_msg2(report, quote_len) matches Ok(next) ==> next.valid(),
        session.after_msg3(msg3, verification, now) matches Ok(next) ==> next.valid(),
        session.closed().valid(),
        session.closed().holds_no_secret(),
{
}

/// The tag that the session computes while it produces message 2 and the
/// tag that it recomputes while it processes message 3 are one function of
/// the authentication key and the authenticated bytes, under one key:
/// producing message 2 does not change the key, which is the one derived
/// from the agreement of the two exchanged keys. Over equal bytes the two
/// tags are equal in every bit.
pub proof fn lemma_tags_agree(
    before: SessionView,
    report: AttestedReportView,
    quote_len: int,
    authenticated: Seq<u8>,
)
    requires
        before.valid(),
        before.after_msg2(report, quote_len) is Ok,
    ensures
        ({
            let after = before.after_msg2(report, quote_len)->Ok_0;
            &&& after.smk == before.smk
            &&& before.smk == derive_key_of(
                p256_agreement(before.private_key, before.peer_public_key)->0,
                KeyLabel::Smk,
            )
            &&& after.msg3_tag(authenticated) == mac_tag_of(before.smk, authenticated)
            &&& authenticated == msg2_authenticated_of(before.public_key, KDF_ID)
                ==> after.msg3_tag(authenticated) == before.msg2().mac
        }),
{
}

/// A message 3 that is well sized, echoes the peer's key and carries the
/// tag computed over its authenticated bytes under the session's key is
/// never refused for its size, its key or its tag.
pub proof fn lemma_authentic_msg3_passes_the_tag_check(
    session: SessionView,
    msg3: Seq<u8>,
    verification: QuoteVerification,
    now: i64,
)
    requires
        session.state == SessionState::Msg2Sent,
        authenticates(session, msg3),
    ensures
        session.after_msg3(msg3, verification, now) != Err::<SessionView, Status>(
            Status::SizeMismatch,
        ),
        session.after_msg3(msg3, verification, now) != Err::<SessionView, Status>(
            Status::MacMismatch,
        ),
        session.after_msg3(msg3, verification, now) != Err::<SessionView, Status>(
            Status::MacVerifyFailed,
        ),
        session.after_msg3(msg3, verification, now) != Err::<SessionView, Status>(
            Status::InvalidState,
        ),
{
}

/// Once message 3 has been accepted, what `get_peer_identity` returns is
/// fixed: the verdict that was accepted and the identity that the quote
/// of message 3 attests. It is a function of the session alone, and
/// reading it does not change the session, so that every call returns the
/// same.
pub proof fn lemma_peer_identity_is_fixed(
    before: SessionView,
    msg3: Seq<u8>,
    verification: QuoteVerification,
    now: i64,
)
    requires
        before.after_msg3(msg3, verification, now) is Ok,
    ensures
        ({
            let after = before.after_msg3(msg3, verification, now)->Ok_0;
            after.peer_identity_result() == Ok::<
                (Verdict, PeerIdentityView),
                Status,
            >((verification.verdict, quote_identity_of(msg3_fields_of(msg3).quote)))
        }),
{
}

/// A quote whose length is outside the configured bounds is refused by
/// both steps that take one. Producing message 2 fails, with
/// `InvalidQuote` where the state and the report are in order. Processing
/// a message 3 that declares such a length, or carries a quote of such a
/// length, fails, with `SizeMismatch` where the state is in order. A step
/// that fails leaves the session in the state it was in.
pub proof fn lemma_quote_length_out_of_bounds_is_refused(
    session: SessionView,
    quote_len: int,
    report: AttestedReportView,
    msg3: Seq<u8>,
    verification: QuoteVerification,
    now: i64,
)
    requires
        !session.config.bounds.admits_len(quote_len),
        msg3.len() >= MSG3_HEADER_LEN,
        msg3_declared_len(msg3) == quote_len || msg3.len() - MSG3_HEADER_LEN == quote_len,
    ensures
        session.after_msg2(report, quote_len) is Err,
        session.state == SessionState::Msg1Processed && report_answers(
            report,
            session.report_request(),
        ) ==> session.after_msg2(report, quote_len) == Err::<SessionView, Status>(
            Status::InvalidQuote,
        ),
        session.after_msg3(msg3, verification, now) is Err,
        session.state == SessionState::Msg2Sent ==> session.after_msg3(msg3, verification, now)
            == Err::<SessionView, Status>(Status::SizeMismatch),
        session.left_by(session.after_msg2(report, quote_len)) == session,
        session.left_by(session.after_msg3(msg3, verification, now)) == session,
{
}

/// Inverting any single bit of the tag of a message 3 that would pass the
/// tag check makes the session refuse it with `MacVerifyFailed`; the
/// session stays in `Msg2Sent`.
pub proof fn lemma_flipped_tag_bit_is_refused(
    session: SessionView,
    msg3: Seq<u8>,
    verification: QuoteVerification,
    now: i64,
    byte: int,
    bit: u8,
)
    requires
        session.state == SessionState::Msg2Sent,
        authenticates(session, msg3),
        0 <= byte < MAC_LEN,
        bit < 8,
    ensures
        session.after_msg3(with_bit_flipped(msg3, byte, bit), verification, now) == Err::<
            SessionView,
            Status,
        >(Status::MacVerifyFailed),
        session.left_by(
            session.after_msg3(with_bit_flipped(msg3, byte, bit), verification, now),
        ).state == SessionState::Msg2Sent,
{
    let flipped = with_bit_flipped(msg3, byte, bit);
    let intact = msg3_fields_of(msg3);
    let changed = msg3_fields_of(flipped);
    let b: u8 = msg3[byte];
    assert(b ^ (1u8 << bit) != b) by (bit_vector)
        requires
            bit < 8,
    ;
    assert(flipped.subrange(336, 340) =~= msg3.subrange(336, 340));
    assert(changed.public_key =~= intact.public_key);
    assert(changed.security_properties =~= intact.security_properties);
    assert(changed.quote =~= intact.quote);
    assert(changed.mac[byte] == flipped[byte]);
    assert(intact.mac[byte] == msg3[byte]);
    assert(changed.mac != intact.mac);
}

/// A verdict that the policy does not accept makes the session refuse
/// message 3 with `QuoteNotTrusted`, also where the message passes the
/// tag check.
pub proof fn lemma_unaccepted_verdict_is_refused(
    session: SessionView,
    msg3: Seq<u8>,
    verification: QuoteVerification,
    now: i64,
)
    requires
        session.state == SessionState::Msg2Sent,
        authenticates(session, msg3),
        !session.config.policy.contains(verification.verdict),
    ensures
        session.after_msg3(msg3, verification, now) == Err::<SessionView, Status>(
            Status::QuoteNotTrusted,
        ),
        session.left_by(session.after_msg3(msg3, verification, now)) == session,
{
}

/// A verdict whose expiration time has passed makes the session refuse
/// message 3 with `QuoteExpired`, where the message passes the tag check
/// and the policy accepts the verdict.
pub proof fn lemma_expired_verdict_is_refused(
    session: SessionView,
    msg3: Seq<u8>,
    verification: QuoteVerification,
    now: i64,
)
    requires
        session.state == SessionState::Msg2Sent,
        authenticates(session, msg3),
        session.config.policy.contains(verification.verdict),
        now > verification.expiration_time,
    ensures
        session.after_msg3(msg3, verification, now) == Err::<SessionView, Status>(
            Status::QuoteExpired,
        ),
{
}

/// Until message 3 has been accepted no key is handed out: `get_keys`
/// fails with `InvalidState` for every key type, recognised or not.
pub proof fn lemma_keys_are_withheld(session: SessionView, key_type: u32)
    requires
        session.state != SessionState::Msg3Verified,
    ensures
        session.key_result(key_type) == Err::<Seq<u8>, Status>(Status::InvalidState),
{
}

/// Once message 3 has been accepted, the three keys that `get_keys`
/// hands out are derived from the one shared secret of the exchange,
/// each under its own label; any other key type is refused with
/// `InvalidParameter`.
pub proof fn lemma_keys_derive_from_the_shared_secret(session: SessionView, key_type: u32)
    requires
        session.valid(),
        session.state == SessionState::Msg3Verified,
    ensures
        p256_agreement(session.private_key, session.peer_public_key) == Some(
            session.shared_secret,
        ),
        session.key_result(KEY_TYPE_SK) == Ok::<Seq<u8>, Status>(
            derive_key_of(session.shared_secret, KeyLabel::Sk),
        ),
        session.key_result(KEY_TYPE_MK) == Ok::<Seq<u8>, Status>(
            derive_key_of(session.shared_secret, KeyLabel::Mk),
        ),
        session.key_result(KEY_TYPE_VK) == Ok::<Seq<u8>, Status>(
            derive_key_of(session.shared_secret, KeyLabel::Vk),
        ),
        key_type != KEY_TYPE_SK && key_type != KEY_TYPE_MK && key_type != KEY_TYPE_VK
            ==> session.key_result(key_type) == Err::<Seq<u8>, Status>(
            Status::InvalidParameter,
        ),
{
}

/// What a completed exchange establishes. Where the three steps were
/// accepted in turn, the session is in `Msg3Verified`; its shared secret
/// is the agreement of the responder's private key with the public key of
/// message 1; the report that was shown for message 2 answered the
/// request made for message 1; the verdict is one that the policy accepts
/// and had not expired; the quote of message 3 commits to the two public
/// keys of this exchange; and the identity and the keys that are handed
/// out are the identity that this quote attests and the keys derived from
/// this shared secret.
pub proof fn lemma_exchange_completes(
    start: SessionView,
    peer_public_key: Seq<u8>,
    target: TargetIdentityView,
    nonce: Seq<u8>,
    report: AttestedReportView,
    quote_len: int,
    msg3: Seq<u8>,
    verification: QuoteVerification,
    now: i64,
)
    requires
        start.valid(),
        start.after_msg1(peer_public_key, target, nonce) is Ok,
        start.after_msg1(peer_public_key, target, nonce)->Ok_0.after_msg2(report, quote_len) is Ok,
        start.after_msg1(peer_public_key, target, nonce)->Ok_0.after_msg2(
            report,
            quote_len,
        )->Ok_0.after_msg3(msg3, verification, now) is Ok,
    ensures
        ({
            let first = start.after_msg1(peer_public_key, target, nonce)->Ok_0;
            let second = first.after_msg2(report, quote_len)->Ok_0;
            let last = second.after_msg3(msg3, verification, now)->Ok_0;
            let quote = msg3_fields_of(msg3).quote;
            &&& start.state == SessionState::Created
            &&& last.state == SessionState::Msg3Verified
            &&& last.valid()
            &&& last.public_key == start.public_key
            &&& last.peer_public_key == peer_public_key
            &&& p256_agreement(start.private_key, peer_public_key) == Some(last.shared_secret)
            &&& report_answers(report, first.report_request())
            &&& first.report_request().target == target
            &&& first.report_request().report_data == report_binding_of(
                peer_public_key,
                start.public_key,
            )
            &&& start.config.bounds.admits_len(quote_len)
            &&& authenticates(second, msg3)
            &&& start.config.policy.contains(verification.verdict)
            &&& now <= verification.expiration_time
            &&& quote_report_data_of(quote) == report_binding_of(peer_public_key, start.public_key)
            &&& last.peer_identity_result() == Ok::<(Verdict, PeerIdentityView), Status>(
                (verification.verdict, quote_identity_of(quote)),
            )
            &&& last.key_result(KEY_TYPE_SK) == Ok::<Seq<u8>, Status>(
                derive_key_of(last.shared_secret, KeyLabel::Sk),
            )
            &&& last.key_result(KEY_TYPE_MK) == Ok::<Seq<u8>, Status>(
                derive_key_of(last.shared_secret, KeyLabel::Mk),
            )
            &&& last.key_result(KEY_TYPE_VK) == Ok::<Seq<u8>, Status>(
                derive_key_of(last.shared_secret, KeyLabel::Vk),
            )
        }),
{
}

/// Reading back a message 3 that was written gives the fields that were
/// written, where the fields have their lengths and the bounds admit the
/// quote.
pub proof fn lemma_msg3_round_trip(msg: Msg3View, bounds: QuoteBounds)
    requires
        msg.mac.len() == 16,
        msg.public_key.len() == 64,
        msg.security_properties.len() == 256,
        bounds.admits_len(msg.quote.len() as int),
    ensures
        msg3_of(msg3_bytes_of(msg), bounds) == Ok::<Msg3View, Status>(msg),
{
    let bytes = msg3_bytes_of(msg);
    let declared = msg.quote.len() as u32;
    lemma_le_round_trip(0, declared);
    assert(bytes.subrange(336, 340) =~= le_bytes_4(declared));
    assert(msg3_fields_of(bytes).mac =~= msg.mac);
    assert(msg3_fields_of(bytes).public_key =~= msg.public_key);
    assert(msg3_fields_of(bytes).security_properties =~= msg.security_properties);
    assert(msg3_fields_of(bytes).quote =~= msg.quote);
}

} // verus!
