//! The responder's session: the state machine of the exchange, with the
//! secrets it owns.
//!
//! A session is created with a fresh key pair, processes message 1,
//! produces message 2, processes message 3 and then hands out the peer's
//! identity and the session keys. Each step is accepted in one state
//! only, and a step that fails leaves the session as it was.

use vstd::prelude::*;
use crate::attestation::{
    AttestedReport, AttestedReportView, PeerIdentity, PeerIdentityView, ReportRequest,
    ReportRequestView, TargetIdentity, TargetIdentityView, report_answers, report_binding,
    report_binding_of,
};
use crate::bytes::{ct_eq, zeros};
use crate::codec::{
    KDF_ID, Msg2, Msg2View, Msg3, QuoteBounds, msg2_authenticated, msg2_authenticated_of,
    msg3_authenticated_of, msg3_of,
};
use crate::crypto::{p256_agreement, p256_public, p256_public_point, p256_shared, random_bytes, wipe};
use crate::kdf::{KeyLabel, derive_key, derive_key_of};
use crate::mac::{mac_tag, mac_tag_of};
use crate::status::Status;
use crate::trust::{QuoteVerification, TrustPolicy, Verdict, evaluate_quote, evaluation_of};

verus! {

/// The states of a session, in the order in which they are passed.
#[derive(Clone, Copy, Debug, PartialEq, Eq, Structural)]
pub enum SessionState {
    /// The session holds its key pair and has seen no message.
    Created,
    /// Message 1 was processed: the shared secret is known.
    Msg1Processed,
    /// Message 2 was produced.
    Msg2Sent,
    /// Message 3 was accepted: the peer is verified.
    Msg3Verified,
    /// The session was closed and its secrets erased.
    Closed,
}

/// What a deployment configures: the bounds on the length of a quote and
/// the verdicts that it accepts.
#[derive(Clone, Copy, Debug)]
pub struct SessionConfig {
    pub bounds: QuoteBounds,
    pub policy: TrustPolicy,
}

/// What a `SessionConfig` holds, as mathematical values.
#[verifier::ext_equal]
pub struct SessionConfigView {
    pub bounds: QuoteBounds,
    pub policy: Set<Verdict>,
}

impl View for SessionConfig {
    type V = SessionConfigView;

    open spec fn view(&self) -> SessionConfigView {
        SessionConfigView { bounds: self.bounds, policy: self.policy@ }
    }
}

/// What the verifier is taken to have reported before it reported
/// anything.
pub open spec fn no_verification() -> QuoteVerification {
    QuoteVerification {
        verdict: Verdict::Unspecified,
        expiration_time: 0,
        collateral_expiration_status: 0,
    }
}

/// A session as a mathematical value.
#[verifier::ext_equal]
pub struct SessionView {
    pub state: SessionState,
    pub config: SessionConfigView,
    /// The responder's secret scalar.
    pub private_key: Seq<u8>,
    /// The responder's public key.
    pub public_key: Seq<u8>,
    /// The initiator's public key, from message 1.
    pub peer_public_key: Seq<u8>,
    /// The raw result of the key agreement.
    pub shared_secret: Seq<u8>,
    /// The key that authenticates messages 2 and 3.
    pub smk: Seq<u8>,
    /// The session-traffic key.
    pub sk: Seq<u8>,
    /// The key for further derivation.
    pub mk: Seq<u8>,
    /// The auxiliary verification key.
    pub vk: Seq<u8>,
    /// The anti-replay nonce handed out with the report request.
    pub nonce: Seq<u8>,
    /// The enclave that the requested report is addressed to.
    pub target: TargetIdentityView,
    /// The report data that commits to the exchanged public keys.
    pub report_data: Seq<u8>,
    /// The last accepted verdict, with its expiration metadata.
    pub verification: QuoteVerification,
    /// The identity of the verified peer.
    pub peer_identity: PeerIdentityView,
}

impl SessionView {
    /// The session that holds a key pair and nothing else.
    pub open spec fn created(
        config: SessionConfigView,
        private_key: Seq<u8>,
        public_key: Seq<u8>,
    ) -> SessionView {
        SessionView {
            state: SessionState::Created,
            config,
            private_key,
            public_key,
            peer_public_key: zeros(64),
            shared_secret: zeros(32),
            smk: zeros(16),
            sk: zeros(16),
            mk: zeros(16),
            vk: zeros(16),
            nonce: zeros(16),
            target: TargetIdentityView::zeroed(),
            report_data: zeros(64),
            verification: no_verification(),
            peer_identity: PeerIdentityView::zeroed(),
        }
    }

    /// Whether the state is one in which message 1 has been processed and
    /// the session is still open.
    pub open spec fn has_exchanged(self) -> bool {
        self.state == SessionState::Msg1Processed || self.state == SessionState::Msg2Sent
            || self.state == SessionState::Msg3Verified
    }

    /// What holds of every session: an open session holds a key pair of
    /// the curve; once message 1 has been processed the shared secret is
    /// the agreement of the responder's secret with the peer's key, the
    /// authentication key is derived from it, and the report data commits
    /// to both public keys;
    /// once message 3 has been accepted the three session keys are
    /// derived from the shared secret and the stored verdict is one that
    /// the policy accepts; a closed session holds no secret.
    pub open spec fn valid(self) -> bool {
        &&& self.state != SessionState::Closed ==> p256_public_point(self.private_key) == Some(
            self.public_key,
        )
        &&& self.has_exchanged() ==> {
            &&& p256_agreement(self.private_key, self.peer_public_key) == Some(
                self.shared_secret,
            )
            &&& self.smk == derive_key_of(self.shared_secret, KeyLabel::Smk)
            &&& self.report_data == report_binding_of(self.peer_public_key, self.public_key)
        }
        &&& self.state == SessionState::Msg3Verified ==> {
            &&& self.sk == derive_key_of(self.shared_secret, KeyLabel::Sk)
            &&& self.mk == derive_key_of(self.shared_secret, KeyLabel::Mk)
            &&& self.vk == derive_key_of(self.shared_secret, KeyLabel::Vk)
            &&& self.config.policy.contains(self.verification.verdict)
        }
        &&& self.state == SessionState::Closed ==> self.holds_no_secret()
    }

    /// Whether the private key, the shared secret and the four derived
    /// keys are all zero.
    pub open spec fn holds_no_secret(self) -> bool {
        &&& self.private_key == zeros(32)
        &&& self.shared_secret == zeros(32)
        &&& self.smk == zeros(16)
        &&& self.sk == zeros(16)
        &&& self.mk == zeros(16)
        &&& self.vk == zeros(16)
    }

    /// Why message 1 is refused, if it is: the session is not in
    /// `Created`, or the key agreement with the peer's key fails.
    pub open spec fn msg1_refusal(self, peer_public_key: Seq<u8>) -> Option<Status> {
        if self.state != SessionState::Created {
            Some(Status::InvalidState)
        } else if p256_agreement(self.private_key, peer_public_key) is None {
            Some(Status::CryptoFailure)
        } else {
            None
        }
    }

    /// The session after message 1, processed with the given nonce.
    pub open spec fn after_msg1(
        self,
        peer_public_key: Seq<u8>,
        target: TargetIdentityView,
        nonce: Seq<u8>,
    ) -> Result<SessionView, Status> {
        match self.msg1_refusal(peer_public_key) {
            Some(refusal) => Err(refusal),
            None => {
                let shared_secret = p256_agreement(self.private_key, peer_public_key)->0;
                Ok(
                    SessionView {
                        state: SessionState::Msg1Processed,
                        peer_public_key,
                        shared_secret,
                        smk: derive_key_of(shared_secret, KeyLabel::Smk),
                        nonce,
                        target,
                        report_data: report_binding_of(peer_public_key, self.public_key),
                        ..self
                    },
                )
            },
        }
    }

    /// The request for a local attestation report that the session makes
    /// while it processes message 1.
    pub open spec fn report_request(self) -> ReportRequestView {
        ReportRequestView { target: self.target, report_data: self.report_data }
    }

    /// The session after message 2 was produced for the given report and
    /// a quote of the given length. The state is checked first, then the
    /// report, then the length of the quote.
    pub open spec fn after_msg2(self, report: AttestedReportView, quote_len: int) -> Result<
        SessionView,
        Status,
    > {
        if self.state != SessionState::Msg1Processed {
            Err(Status::InvalidState)
        } else if !report_answers(report, self.report_request()) {
            Err(Status::ReportMismatch)
        } else if !self.config.bounds.admits_len(quote_len) {
            Err(Status::InvalidQuote)
        } else {
            Ok(SessionView { state: SessionState::Msg2Sent, ..self })
        }
    }

    /// The tag of message 2: over the responder's public key and the
    /// key-derivation id, under the authentication key.
    pub open spec fn msg2_tag(self) -> Seq<u8> {
        mac_tag_of(self.smk, msg2_authenticated_of(self.public_key, KDF_ID))
    }

    /// The header of message 2.
    pub open spec fn msg2(self) -> Msg2View {
        Msg2View { public_key: self.public_key, kdf_id: KDF_ID, mac: self.msg2_tag() }
    }

    /// The tag that the session expects of a message 3 with the given
    /// authenticated bytes.
    pub open spec fn msg3_tag(self, authenticated: Seq<u8>) -> Seq<u8> {
        mac_tag_of(self.smk, authenticated)
    }

    /// The session after message 3 was processed with what the verifier
    /// reported of its quote. Checked in this order: the state, the size
    /// of the message, the echoed public key, the tag, the verdict, the
    /// expiration time, the binding of the quote to the exchanged keys.
    pub open spec fn after_msg3(
        self,
        bytes: Seq<u8>,
        verification: QuoteVerification,
        now: i64,
    ) -> Result<SessionView, Status> {
        if self.state != SessionState::Msg2Sent {
            Err(Status::InvalidState)
        } else {
            match msg3_of(bytes, self.config.bounds) {
                Err(e) => Err(e),
                Ok(msg) => if msg.public_key != self.peer_public_key {
                    Err(Status::MacMismatch)
                } else if msg.mac != self.msg3_tag(msg3_authenticated_of(msg)) {
                    Err(Status::MacVerifyFailed)
                } else {
                    match evaluation_of(
                        self.config.policy,
                        verification,
                        now,
                        msg.quote,
                        report_binding_of(msg.public_key, self.public_key),
                    ) {
                        Err(e) => Err(e),
                        Ok(identity) => Ok(
                            SessionView {
                                state: SessionState::Msg3Verified,
                                sk: derive_key_of(self.shared_secret, KeyLabel::Sk),
                                mk: derive_key_of(self.shared_secret, KeyLabel::Mk),
                                vk: derive_key_of(self.shared_secret, KeyLabel::Vk),
                                verification,
                                peer_identity: identity,
                                ..self
                            },
                        ),
                    }
                },
            }
        }
    }

    /// The session as a step leaves it: the next session where the step
    /// was accepted, the session itself where it was refused.
    pub open spec fn left_by(self, step: Result<SessionView, Status>) -> SessionView {
        match step {
            Ok(next) => next,
            Err(_) => self,
        }
    }

    /// What `get_peer_identity` returns: the accepted verdict and the
    /// peer's identity once message 3 has been accepted, `InvalidState`
    /// otherwise.
    pub open spec fn peer_identity_result(self) -> Result<(Verdict, PeerIdentityView), Status> {
        if self.state == SessionState::Msg3Verified {
            Ok((self.verification.verdict, self.peer_identity))
        } else {
            Err(Status::InvalidState)
        }
    }

    /// What `get_keys` returns: `InvalidState` until message 3 has been
    /// accepted, whatever the key type; then `InvalidParameter` for a key
    /// type that is not recognised, and the key otherwise.
    pub open spec fn key_result(self, key_type: u32) -> Result<Seq<u8>, Status> {
        if self.state != SessionState::Msg3Verified {
            Err(Status::InvalidState)
        } else {
            match KeyLabel::of_key_type(key_type) {
                Some(KeyLabel::Sk) => Ok(self.sk),
                Some(KeyLabel::Mk) => Ok(self.mk),
                Some(KeyLabel::Vk) => Ok(self.vk),
                _ => Err(Status::InvalidParameter),
            }
        }
    }

    /// The session after `close`: the private key, the shared secret and
    /// the derived keys are zero, and the state is `Closed`.
    pub open spec fn closed(self) -> SessionView {
        SessionView {
            state: SessionState::Closed,
            private_key: zeros(32),
            shared_secret: zeros(32),
            smk: zeros(16),
            sk: zeros(16),
            mk: zeros(16),
            vk: zeros(16),
            ..self
        }
    }
}

/// The responder's side of one exchange.
pub struct SessionContext {
    state: SessionState,
    config: SessionConfig,
    private_key: [u8; 32],
    public_key: [u8; 64],
    peer_public_key: [u8; 64],
    shared_secret: [u8; 32],
    smk: [u8; 16],
    sk: [u8; 16],
    mk: [u8; 16],
    vk: [u8; 16],
    nonce: [u8; 16],
    target: TargetIdentity,
    report_data: [u8; 64],
    verification: QuoteVerification,
    peer_identity: PeerIdentity,
}

impl View for SessionContext {
    type V = SessionView;

    closed spec fn view(&self) -> SessionView {
        SessionView {
            state: self.state,
            config: self.config@,
            private_key: self.private_key@,
            public_key: self.public_key@,
            peer_public_key: self.peer_public_key@,
            shared_secret: self.shared_secret@,
            smk: self.smk@,
            sk: self.sk@,
            mk: self.mk@,
            vk: self.vk@,
            nonce: self.nonce@,
            target: self.target@,
            report_data: self.report_data@,
            verification: self.verification,
            peer_identity: self.peer_identity@,
        }
    }
}

impl SessionContext {
    #[verifier::type_invariant]
    spec fn well_formed(self) -> bool {
        self@.valid()
    }

    /// A session in `Created` that owns the given private key. Fails with
    /// `CryptoFailure` where the curve does not accept the key.
    pub fn with_private_key(config: SessionConfig, private_key: [u8; 32]) -> (session: Result<
        SessionContext,
        Status,
    >)
        ensures
            match session {
                Ok(s) => {
                    &&& p256_public_point(private_key@) matches Some(public_key)
                    &&& s@ == SessionView::created(config@, private_key@, public_key)
                    &&& s@.valid()
                },
                Err(e) => e == Status::CryptoFailure && p256_public_point(private_key@) is None,
            },
    {
        match p256_public(&private_key) {
            None => Err(Status::CryptoFailure),
            Some(public_key) => {
                let session = SessionContext {
                    state: SessionState::Created,
                    config,
                    private_key,
                    public_key,
                    peer_public_key: [0u8; 64],
                    shared_secret: [0u8; 32],
                    smk: [0u8; 16],
                    sk: [0u8; 16],
                    mk: [0u8; 16],
                    vk: [0u8; 16],
                    nonce: [0u8; 16],
                    target: TargetIdentity::zeroed(),
                    report_data: [0u8; 64],
                    verification: QuoteVerification {
                        verdict: Verdict::Unspecified,
                        expiration_time: 0,
                        collateral_expiration_status: 0,
                    },
                    peer_identity: PeerIdentity::zeroed(),
                };
                assert(session@ =~= SessionView::created(config@, private_key@, public_key@));
                Ok(session)
            },
        }
    }

    /// A session in `Created` with a fresh key pair. Fails with
    /// `CryptoFailure` where no random bytes can be had, or where the
    /// curve does not accept the bytes as a private key.
    pub fn create(config: SessionConfig) -> (session: Result<SessionContext, Status>)
        ensures
            match session {
                Ok(s) => {
                    &&& s@ == SessionView::created(config@, s@.private_key, s@.public_key)
                    &&& s@.valid()
                },
                Err(e) => e == Status::CryptoFailure,
            },
    {
        match random_bytes::<32>() {
            None => Err(Status::CryptoFailure),
            Some(private_key) => SessionContext::with_private_key(config, private_key),
        }
    }

    /// The state of the session.
    pub fn state(&self) -> (state: SessionState)
        ensures
            state == self@.state,
            self@.valid(),
    {
        proof {
            use_type_invariant(&*self);
        }
        self.state
    }

    /// The responder's public key.
    pub fn public_key(&self) -> (key: [u8; 64])
        ensures
            key@ == self@.public_key,
    {
        self.public_key
    }

    /// Processes message 1 with the anti-replay nonce given: stores the
    /// peer's public key, computes the shared secret and the
    /// authentication key, and returns the responder's public key, the
    /// request for a local attestation report, and the nonce.
    pub fn process_msg1_with_nonce(
        &mut self,
        peer_public_key: &[u8; 64],
        target: &TargetIdentity,
        nonce: [u8; 16],
    ) -> (out: Result<([u8; 64], ReportRequest, [u8; 16]), Status>)
        ensures
            final(self)@.valid(),
            match old(self)@.after_msg1(peer_public_key@, target@, nonce@) {
                Ok(next) => {
                    &&& final(self)@ == next
                    &&& out matches Ok(o)
                    &&& o.0@ == next.public_key
                    &&& o.1@ == next.report_request()
                    &&& o.2@ == nonce@
                },
                Err(e) => {
                    &&& final(self)@ == old(self)@
                    &&& out matches Err(x)
                    &&& x == e
                },
            },
    {
        proof {
            use_type_invariant(&*self);
        }
        if self.state != SessionState::Created {
            return Err(Status::InvalidState);
        }
        let shared_secret: [u8; 32] = match p256_shared(&self.private_key, peer_public_key) {
            Some(secret) => secret,
            None => {
                return Err(Status::CryptoFailure);
            },
        };
        let smk: [u8; 16] = derive_key(&shared_secret, KeyLabel::Smk);
        let report_data: [u8; 64] = report_binding(peer_public_key, &self.public_key);
        let public_key: [u8; 64] = self.public_key;
        let request = ReportRequest { target: *target, report_data };
        let ghost next = old(self)@.after_msg1(peer_public_key@, target@, nonce@)->Ok_0;
        *self = SessionContext {
            state: SessionState::Msg1Processed,
            config: self.config,
            private_key: self.private_key,
            public_key: self.public_key,
            peer_public_key: *peer_public_key,
            shared_secret,
            smk,
            sk: self.sk,
            mk: self.mk,
            vk: self.vk,
            nonce,
            target: *target,
            report_data,
            verification: self.verification,
            peer_identity: self.peer_identity,
        };
        assert(self@ =~= next);
        Ok((public_key, request, nonce))
    }

    /// Processes message 1 with a fresh anti-replay nonce. Where the
    /// message is not refused, the call fails only if no random bytes can
    /// be had, with `CryptoFailure`; otherwise the session is as
    /// `process_msg1_with_nonce` leaves it for the nonce returned.
    pub fn process_msg1(&mut self, peer_public_key: &[u8; 64], target: &TargetIdentity) -> (out:
        Result<([u8; 64], ReportRequest, [u8; 16]), Status>)
        ensures
            final(self)@.valid(),
            match out {
                Ok(o) => {
                    &&& old(self)@.after_msg1(peer_public_key@, target@, o.2@) == Ok::<
                        SessionView,
                        Status,
                    >(final(self)@)
                    &&& o.0@ == final(self)@.public_key
                    &&& o.1@ == final(self)@.report_request()
                },
                Err(e) => {
                    &&& final(self)@ == old(self)@
                    &&& match old(self)@.msg1_refusal(peer_public_key@) {
                        Some(refusal) => e == refusal,
                        None => e == Status::CryptoFailure,
                    }
                },
            },
    {
        proof {
            use_type_invariant(&*self);
        }
        if self.state != SessionState::Created {
            return Err(Status::InvalidState);
        }
        match random_bytes::<16>() {
            None => Err(Status::CryptoFailure),
            Some(nonce) => self.process_msg1_with_nonce(peer_public_key, target, nonce),
        }
    }

    /// Produces message 2 for the attested report and the quote that the
    /// caller obtained: checks that the report is the one requested and
    /// that the length of the quote is within the configured bounds, and
    /// authenticates the responder's public key and the key-derivation
    /// id. The quote is not authenticated: its own signature covers it.
    pub fn generate_msg2(&mut self, report: &AttestedReport, quote: &[u8]) -> (out: Result<
        Msg2,
        Status,
    >)
        ensures
            final(self)@.valid(),
            match old(self)@.after_msg2(report@, quote@.len() as int) {
                Ok(next) => {
                    &&& final(self)@ == next
                    &&& out matches Ok(msg)
                    &&& msg@ == next.msg2()
                },
                Err(e) => {
                    &&& final(self)@ == old(self)@
                    &&& out matches Err(x)
                    &&& x == e
                },
            },
    {
        proof {
            use_type_invariant(&*self);
        }
        if self.state != SessionState::Msg1Processed {
            return Err(Status::InvalidState);
        }
        let request = ReportRequest { target: self.target, report_data: self.report_data };
        if !report.answers(&request) {
            return Err(Status::ReportMismatch);
        }
        if !self.config.bounds.admits(quote.len()) {
            return Err(Status::InvalidQuote);
        }
        let authenticated = msg2_authenticated(&self.public_key, KDF_ID);
        let mac: [u8; 16] = mac_tag(self.smk.as_slice(), authenticated.as_slice());
        let msg = Msg2 { public_key: self.public_key, kdf_id: KDF_ID, mac };
        self.state = SessionState::Msg2Sent;
        assert(self@ =~= old(self)@.after_msg2(report@, quote@.len() as int)->Ok_0);
        Ok(msg)
    }

    /// Processes message 3 with what the verifier reported of its quote
    /// and the current time. On success the peer's identity is stored and
    /// returned, the session keys are derived, and the session is in
    /// `Msg3Verified`. On any failure the session is as it was.
    pub fn process_msg3(&mut self, msg3: &[u8], verification: &QuoteVerification, now: i64) -> (out:
        Result<PeerIdentity, Status>)
        ensures
            final(self)@.valid(),
            match old(self)@.after_msg3(msg3@, *verification, now) {
                Ok(next) => {
                    &&& final(self)@ == next
                    &&& out matches Ok(identity)
                    &&& identity@ == next.peer_identity
                },
                Err(e) => {
                    &&& final(self)@ == old(self)@
                    &&& out matches Err(x)
                    &&& x == e
                },
            },
    {
        proof {
            use_type_invariant(&*self);
        }
        if self.state != SessionState::Msg2Sent {
            return Err(Status::InvalidState);
        }
        let msg: Msg3 = match Msg3::parse(msg3, &self.config.bounds) {
            Ok(msg) => msg,
            Err(e) => {
                return Err(e);
            },
        };
        if !ct_eq(msg.public_key.as_slice(), self.peer_public_key.as_slice()) {
            return Err(Status::MacMismatch);
        }
        let authenticated = msg.authenticated();
        let expected: [u8; 16] = mac_tag(self.smk.as_slice(), authenticated.as_slice());
        if !ct_eq(msg.mac.as_slice(), expected.as_slice()) {
            return Err(Status::MacVerifyFailed);
        }
        let sk: [u8; 16] = derive_key(&self.shared_secret, KeyLabel::Sk);
        let mk: [u8; 16] = derive_key(&self.shared_secret, KeyLabel::Mk);
        let vk: [u8; 16] = derive_key(&self.shared_secret, KeyLabel::Vk);
        let binding: [u8; 64] = report_binding(&msg.public_key, &self.public_key);
        let identity: PeerIdentity = match evaluate_quote(
            &self.config.policy,
            verification,
            now,
            msg.quote.as_slice(),
            &binding,
        ) {
            Ok(identity) => identity,
            Err(e) => {
                return Err(e);
            },
        };
        let ghost next = old(self)@.after_msg3(msg3@, *verification, now)->Ok_0;
        *self = SessionContext {
            state: SessionState::Msg3Verified,
            config: self.config,
            private_key: self.private_key,
            public_key: self.public_key,
            peer_public_key: self.peer_public_key,
            shared_secret: self.shared_secret,
            smk: self.smk,
            sk,
            mk,
            vk,
            nonce: self.nonce,
            target: self.target,
            report_data: self.report_data,
            verification: *verification,
            peer_identity: identity,
        };
        assert(self@ =~= next);
        Ok(identity)
    }

    /// The accepted verdict and the identity of the verified peer.
    /// `InvalidState` unless message 3 has been accepted.
    pub fn get_peer_identity(&self) -> (out: Result<(Verdict, PeerIdentity), Status>)
        ensures
            self@.valid(),
            match self@.peer_identity_result() {
                Ok(expected) => {
                    &&& out matches Ok(o)
                    &&& o.0 == expected.0
                    &&& o.1@ == expected.1
                },
                Err(e) => out matches Err(x) && x == e,
            },
    {
        proof {
            use_type_invariant(&*self);
        }
        if self.state != SessionState::Msg3Verified {
            return Err(Status::InvalidState);
        }
        Ok((self.verification.verdict, self.peer_identity))
    }

    /// One of the session keys, by its selector. `InvalidState` unless
    /// message 3 has been accepted, whatever the selector; then
    /// `InvalidParameter` for a selector that names no key. The
    /// authentication key has no selector.
    pub fn get_keys(&self, key_type: u32) -> (out: Result<[u8; 16], Status>)
        ensures
            self@.valid(),
            match self@.key_result(key_type) {
                Ok(expected) => out matches Ok(key) && key@ == expected,
                Err(e) => out matches Err(x) && x == e,
            },
    {
        proof {
            use_type_invariant(&*self);
        }
        if self.state != SessionState::Msg3Verified {
            return Err(Status::InvalidState);
        }
        match KeyLabel::from_key_type(key_type) {
            Some(KeyLabel::Sk) => Ok(self.sk),
            Some(KeyLabel::Mk) => Ok(self.mk),
            Some(KeyLabel::Vk) => Ok(self.vk),
            _ => Err(Status::InvalidParameter),
        }
    }

    /// Closes the session from any state: the private key, the shared
    /// secret and the derived keys are set to zero, and the memory that
    /// held them is then overwritten by writes that cannot be optimised
    /// away.
    pub fn close(&mut self)
        ensures
            final(self)@ == old(self)@.closed(),
            final(self)@.valid(),
    {
        proof {
            use_type_invariant(&*self);
        }
        let ghost next = old(self)@.closed();
        let no_secret: [u8; 32] = [0u8; 32];
        let no_key: [u8; 16] = [0u8; 16];
        assert(no_secret@ =~= zeros(32));
        assert(no_key@ =~= zeros(16));
        *self = SessionContext {
            state: SessionState::Closed,
            config: self.config,
            private_key: no_secret,
            public_key: self.public_key,
            peer_public_key: self.peer_public_key,
            shared_secret: no_secret,
            smk: no_key,
            sk: no_key,
            mk: no_key,
            vk: no_key,
            nonce: self.nonce,
            target: self.target,
            report_data: self.report_data,
            verification: self.verification,
            peer_identity: self.peer_identity,
        };
        assert(self@ =~= next);
        // The fields hold zeros by now. The writes that follow are the
        // ones that reach memory whatever the optimiser makes of the
        // assignment above.
        wipe(&mut self.private_key);
        wipe(&mut self.shared_secret);
        wipe(&mut self.smk);
        wipe(&mut self.sk);
        wipe(&mut self.mk);
        wipe(&mut self.vk);
        assert(self@ =~= next);
    }
}

} // verus!
