//! The operations that the responder exposes at its boundary: one per
//! step of the exchange, retrieval of the peer's identity and of the
//! session keys, and close.
//!
//! Sessions live in a table and are named by integer handles. Every
//! operation reports a `Status`; a malformed argument is refused with a
//! status, never with an abort, and a refused operation leaves the table
//! and the caller's buffers as they were. A session leaves the table
//! erased: the table keeps, for specification alone, a record of every
//! session as it was when its handle was released.

use vstd::prelude::*;
use crate::attestation::{AttestedReport, PeerIdentity, ReportRequest, TargetIdentity};
use crate::bytes::le_bytes_2;
use crate::codec::{KDF_ID, MSG2_HEADER_LEN, msg1_public_key_of, msg2_header_of, parse_msg1};
use crate::session::{SessionConfig, SessionConfigView, SessionContext, SessionView};
use crate::status::Status;
use crate::trust::{QuoteVerification, Verdict};

verus! {

/// The table of open sessions.
pub struct SessionTable {
    config: SessionConfig,
    slots: Vec<Option<SessionContext>>,
    /// The sessions that have left the table, each as it was at the moment
    /// its handle was released, oldest first. Nothing of it exists at run
    /// time.
    released: Ghost<Seq<SessionView>>,
}

/// The open sessions with a handle below `bound`, each as `close` leaves
/// it, in the order of their handles.
pub open spec fn closed_below(sessions: Map<usize, SessionView>, bound: nat) -> Seq<SessionView>
    decreases bound,
{
    if bound == 0 {
        Seq::empty()
    } else {
        let handle = (bound - 1) as usize;
        let lower = closed_below(sessions, (bound - 1) as nat);
        if bound - 1 <= usize::MAX && sessions.contains_key(handle) {
            lower.push(sessions[handle].closed())
        } else {
            lower
        }
    }
}

/// Every open session, each as `close` leaves it, in the order of their
/// handles.
pub open spec fn all_closed(sessions: Map<usize, SessionView>) -> Seq<SessionView> {
    closed_below(sessions, (usize::MAX + 1) as nat)
}

/// Handles that name no session add nothing: where every handle in use
/// is below `least`, the sessions below any greater bound are those below
/// `least`.
pub proof fn lemma_closed_below_stops(sessions: Map<usize, SessionView>, least: nat, bound: nat)
    requires
        least <= bound,
        forall|handle: usize| sessions.contains_key(handle) ==> handle < least,
    ensures
        closed_below(sessions, bound) == closed_below(sessions, least),
    decreases bound,
{
    if bound > least {
        lemma_closed_below_stops(sessions, least, (bound - 1) as nat);
    }
}

/// Every session that `closed_below` lists is closed and holds no secret.
pub proof fn lemma_closed_below_holds_no_secret(
    sessions: Map<usize, SessionView>,
    bound: nat,
    i: int,
)
    requires
        0 <= i < closed_below(sessions, bound).len(),
    ensures
        closed_below(sessions, bound)[i].holds_no_secret(),
        closed_below(sessions, bound)[i].state == crate::session::SessionState::Closed,
    decreases bound,
{
    if bound > 0 {
        let lower = closed_below(sessions, (bound - 1) as nat);
        if i < lower.len() {
            lemma_closed_below_holds_no_secret(sessions, (bound - 1) as nat, i);
        }
    }
}

impl View for SessionTable {
    type V = Map<usize, SessionView>;

    /// The open sessions, by handle.
    closed spec fn view(&self) -> Map<usize, SessionView> {
        Map::new(
            |handle: usize| handle < self.slots@.len() && self.slots@[handle as int] is Some,
            |handle: usize| self.slots@[handle as int]->0@,
        )
    }
}

impl SessionTable {
    /// The configuration that the sessions of this table are created
    /// with.
    pub closed spec fn config(&self) -> SessionConfigView {
        self.config@
    }

    /// The sessions that have left the table, each as it was at the moment
    /// its handle was released, oldest first.
    pub closed spec fn released(&self) -> Seq<SessionView> {
        self.released@
    }

    /// An empty table.
    pub fn new(config: SessionConfig) -> (table: SessionTable)
        ensures
            table@ == Map::<usize, SessionView>::empty(),
            table.config() == config@,
            table.released() == Seq::<SessionView>::empty(),
    {
        let table = SessionTable { config, slots: Vec::new(), released: Ghost(Seq::empty()) };
        assert(table@ =~= Map::<usize, SessionView>::empty());
        table
    }

    /// Whether `context` names an open session.
    pub fn contains(&self, context: usize) -> (yes: bool)
        ensures
            yes == self@.contains_key(context),
    {
        context < self.slots.len() && self.slots[context].is_some()
    }

    /// Closes every session and releases every handle. Each session is
    /// erased before it is released: the sessions that leave the table
    /// are the open ones, in the order of their handles, each as `close`
    /// leaves it.
    pub fn clear(&mut self)
        ensures
            final(self)@ == Map::<usize, SessionView>::empty(),
            final(self).config() == old(self).config(),
            final(self).released() == old(self).released() + all_closed(old(self)@),
    {
        let mut i: usize = 0;
        while i < self.slots.len()
            invariant
                i <= self.slots@.len() == old(self).slots@.len(),
                self.config() == old(self).config(),
                forall|j: int| 0 <= j < i ==> self.slots@[j] is None,
                forall|j: int| i <= j < self.slots@.len() ==> self.slots@[j] == old(self).slots@[j],
                self.released() == old(self).released() + closed_below(old(self)@, i as nat),
            decreases self.slots@.len() - i,
        {
            match &mut self.slots[i] {
                Some(session) => {
                    session.close();
                },
                None => {},
            }
            proof {
                if self.slots@[i as int] is Some {
                    self.released@ = self.released@.push(self.slots@[i as int]->0@);
                }
            }
            self.slots[i] = None;
            i += 1;
        }
        proof {
            lemma_closed_below_stops(old(self)@, i as nat, (usize::MAX + 1) as nat);
        }
        assert(self@ =~= Map::<usize, SessionView>::empty());
    }

    /// Puts a session into the table, under the least handle that names
    /// no session.
    pub fn insert(&mut self, session: SessionContext) -> (context: usize)
        ensures
            is_next_handle(old(self)@, context),
            final(self)@ == old(self)@.insert(context, session@),
            final(self).config() == old(self).config(),
            final(self).released() == old(self).released(),
    {
        let mut i: usize = 0;
        while i < self.slots.len()
            invariant
                i <= self.slots@.len(),
                *self == *old(self),
                forall|j: int| 0 <= j < i ==> self.slots@[j] is Some,
            decreases self.slots@.len() - i,
        {
            if self.slots[i].is_none() {
                self.slots[i] = Some(session);
                assert(self@ =~= old(self)@.insert(i, session@));
                return i;
            }
            i += 1;
        }
        self.slots.push(Some(session));
        assert(self@ =~= old(self)@.insert(i, session@));
        i
    }
}

/// Whether a buffer of `size` bytes that starts at `address` ends within
/// the address space and holds at least `least` bytes. A size that comes
/// with a buffer is checked with this before anything is computed from
/// it.
pub fn buffer_fits(address: usize, size: u32, least: usize) -> (fits: bool)
    ensures
        fits == (address + size <= usize::MAX && least <= size),
{
    size as usize <= usize::MAX - address && least <= size as usize
}

/// Creates a session with a fresh key pair and stores its handle in
/// `context`. Fails with `CryptoFailure` where key generation fails.
pub fn sgx_mra_responder_init(table: &mut SessionTable, context: &mut usize) -> (status: Status)
    ensures
        final(table).config() == old(table).config(),
        final(table).released() == old(table).released(),
        match status {
            Status::Success => {
                &&& !old(table)@.contains_key(*final(context))
                &&& final(table)@.contains_key(*final(context))
                &&& final(table)@ == old(table)@.insert(
                    *final(context),
                    final(table)@[*final(context)],
                )
                &&& final(table)@[*final(context)] == SessionView::created(
                    old(table).config(),
                    final(table)@[*final(context)].private_key,
                    final(table)@[*final(context)].public_key,
                )
                &&& final(table)@[*final(context)].valid()
            },
            e => {
                &&& e == Status::CryptoFailure
                &&& final(table)@ == old(table)@
                &&& *final(context) == *old(context)
            },
        },
{
    match crate::crypto::random_bytes::<32>() {
        Some(private_key) => sgx_mra_responder_init_with_key(table, context, private_key),
        None => Status::CryptoFailure,
    }
}

/// Whether `context` is the handle that the next session gets: the least
/// handle that names no session.
pub open spec fn is_next_handle(sessions: Map<usize, SessionView>, context: usize) -> bool {
    &&& !sessions.contains_key(context)
    &&& forall|lower: usize| lower < context ==> sessions.contains_key(lower)
}

/// Creates a session that owns the given private key and stores its
/// handle in `context`. This is what `sgx_mra_responder_init` does with the
/// random bytes it drew. The call succeeds exactly where the curve accepts
/// the key; the session is then in `Created`, holds the key and its public
/// point and nothing else, and has the least handle that named no session.
/// Otherwise the call fails with `CryptoFailure` and changes nothing.
pub fn sgx_mra_responder_init_with_key(
    table: &mut SessionTable,
    context: &mut usize,
    private_key: [u8; 32],
) -> (status: Status)
    ensures
        final(table).config() == old(table).config(),
        final(table).released() == old(table).released(),
        match crate::crypto::p256_public_point(private_key@) {
            Some(public_key) => {
                &&& status == Status::Success
                &&& is_next_handle(old(table)@, *final(context))
                &&& final(table)@ == old(table)@.insert(
                    *final(context),
                    SessionView::created(old(table).config(), private_key@, public_key),
                )
            },
            None => {
                &&& status == Status::CryptoFailure
                &&& final(table)@ == old(table)@
                &&& *final(context) == *old(context)
            },
        },
{
    match SessionContext::with_private_key(table.config, private_key) {
        Ok(session) => {
            *context = table.insert(session);
            Status::Success
        },
        Err(e) => e,
    }
}

/// Why the boundary refuses message 1, if it does: the message has not
/// the length of message 1, the handle names no session, or the session
/// refuses the message.
pub open spec fn proc_msg1_refusal(
    sessions: Map<usize, SessionView>,
    context: usize,
    msg1: Seq<u8>,
) -> Option<Status> {
    match msg1_public_key_of(msg1) {
        None => Some(Status::InvalidParameter),
        Some(peer_public_key) => if !sessions.contains_key(context) {
            Some(Status::InvalidParameter)
        } else {
            sessions[context].msg1_refusal(peer_public_key)
        },
    }
}

/// Processes message 1 for the session `context`. On success the
/// responder's public key, the request for a local attestation report
/// addressed to `qe_target` and a fresh nonce are stored in `pub_key_b`,
/// `report` and `nonce`. Where the message is not refused, the call fails
/// only if no random bytes can be had, with `CryptoFailure`.
pub fn sgx_dcap_mra_proc_msg1(
    table: &mut SessionTable,
    context: usize,
    msg1: &[u8],
    qe_target: &TargetIdentity,
    pub_key_b: &mut [u8; 64],
    report: &mut ReportRequest,
    nonce: &mut [u8; 16],
) -> (status: Status)
    ensures
        final(table).config() == old(table).config(),
        final(table).released() == old(table).released(),
        match status {
            Status::Success => {
                &&& proc_msg1_refusal(old(table)@, context, msg1@) is None
                &&& final(table)@.contains_key(context)
                &&& old(table)@[context].after_msg1(msg1@, qe_target@, final(nonce)@) == Ok::<
                    SessionView,
                    Status,
                >(final(table)@[context])
                &&& final(table)@ == old(table)@.insert(context, final(table)@[context])
                &&& final(pub_key_b)@ == final(table)@[context].public_key
                &&& final(report)@ == final(table)@[context].report_request()
                &&& final(table)@[context].valid()
            },
            e => {
                &&& match proc_msg1_refusal(old(table)@, context, msg1@) {
                    Some(refusal) => e == refusal,
                    None => e == Status::CryptoFailure,
                }
                &&& final(table)@ == old(table)@
                &&& *final(pub_key_b) == *old(pub_key_b)
                &&& *final(report) == *old(report)
                &&& *final(nonce) == *old(nonce)
            },
        },
{
    let peer_public_key: [u8; 64] = match parse_msg1(msg1) {
        Some(key) => key,
        None => {
            return Status::InvalidParameter;
        },
    };
    if !table.contains(context) {
        return Status::InvalidParameter;
    }
    match &mut table.slots[context] {
        Some(session) => match session.process_msg1(&peer_public_key, qe_target) {
            Ok(out) => {
                *pub_key_b = out.0;
                *report = out.1;
                *nonce = out.2;
                assert(table@ =~= old(table)@.insert(context, table@[context]));
                Status::Success
            },
            Err(e) => {
                assert(table@ =~= old(table)@);
                e
            },
        },
        None => Status::InvalidParameter,
    }
}

/// What the boundary answers to a request for message 2: the session
/// after the message was produced, or the reason for a refusal. The
/// buffer has to hold at least a header, and the handle has to name a
/// session; the quote is what follows the header.
pub open spec fn get_msg2_result(
    sessions: Map<usize, SessionView>,
    context: usize,
    qe_report: AttestedReport,
    msg2: Seq<u8>,
) -> Result<SessionView, Status> {
    if msg2.len() < MSG2_HEADER_LEN {
        Err(Status::InvalidParameter)
    } else if !sessions.contains_key(context) {
        Err(Status::InvalidParameter)
    } else {
        sessions[context].after_msg2(qe_report@, msg2.len() - MSG2_HEADER_LEN)
    }
}

/// Produces message 2 for the session `context`. On entry `msg2` holds
/// room for the header followed by the responder's quote; on success the
/// header has been filled in and the quote is as it was. The buffer keeps
/// its length: the public key stands in its first 64 bytes, the
/// key-derivation id in the next two, the tag in the 16 after those, and
/// the quote behind them.
pub fn sgx_dcap_mra_get_msg2(
    table: &mut SessionTable,
    context: usize,
    qe_report: &AttestedReport,
    msg2: &mut Vec<u8>,
) -> (status: Status)
    ensures
        final(table).config() == old(table).config(),
        final(table).released() == old(table).released(),
        final(msg2)@.len() == old(msg2)@.len(),
        match get_msg2_result(old(table)@, context, *qe_report, old(msg2)@) {
            Ok(next) => {
                &&& status == Status::Success
                &&& final(table)@ == old(table)@.insert(context, next)
                &&& final(msg2)@ == msg2_header_of(next.msg2()) + old(msg2)@.subrange(
                    MSG2_HEADER_LEN as int,
                    old(msg2)@.len() as int,
                )
                &&& final(msg2)@.subrange(0, 64) == next.public_key
                &&& final(msg2)@.subrange(64, 66) == le_bytes_2(KDF_ID)
                &&& final(msg2)@.subrange(66, MSG2_HEADER_LEN as int) == next.msg2_tag()
                &&& final(msg2)@.subrange(MSG2_HEADER_LEN as int, final(msg2)@.len() as int)
                    == old(msg2)@.subrange(MSG2_HEADER_LEN as int, old(msg2)@.len() as int)
                &&& next.valid()
            },
            Err(e) => {
                &&& status == e
                &&& final(table)@ == old(table)@
                &&& final(msg2)@ == old(msg2)@
            },
        },
{
    let len: usize = msg2.len();
    if len < MSG2_HEADER_LEN {
        return Status::InvalidParameter;
    }
    if !table.contains(context) {
        return Status::InvalidParameter;
    }
    let produced = match &mut table.slots[context] {
        Some(session) => session.generate_msg2(qe_report, &msg2[MSG2_HEADER_LEN..len]),
        None => Err(Status::InvalidParameter),
    };
    match produced {
        Ok(msg) => {
            let header = msg.encode_header();
            let mut i: usize = 0;
            while i < MSG2_HEADER_LEN
                invariant
                    i <= MSG2_HEADER_LEN,
                    header@.len() == MSG2_HEADER_LEN,
                    msg2@.len() == old(msg2)@.len() >= MSG2_HEADER_LEN,
                    forall|j: int| 0 <= j < i ==> msg2@[j] == header@[j],
                    forall|j: int| i <= j < msg2@.len() ==> msg2@[j] == old(msg2)@[j],
                decreases MSG2_HEADER_LEN - i,
            {
                msg2[i] = header[i];
                i += 1;
            }
            assert(msg2@ =~= header@ + old(msg2)@.subrange(
                MSG2_HEADER_LEN as int,
                old(msg2)@.len() as int,
            ));
            assert(msg2@.subrange(0, 64) =~= msg.public_key@);
            assert(msg2@.subrange(64, 66) =~= le_bytes_2(KDF_ID));
            assert(msg2@.subrange(66, MSG2_HEADER_LEN as int) =~= msg.mac@);
            assert(msg2@.subrange(MSG2_HEADER_LEN as int, msg2@.len() as int) =~= old(
                msg2,
            )@.subrange(MSG2_HEADER_LEN as int, old(msg2)@.len() as int));
            assert(table@ =~= old(table)@.insert(context, table@[context]));
            Status::Success
        },
        Err(e) => {
            assert(table@ =~= old(table)@);
            e
        },
    }
}

/// What the boundary answers to message 3: the session after the message
/// was accepted, or the reason for a refusal. Supplemental data, where
/// given, must not be empty, and the handle has to name a session.
pub open spec fn proc_msg3_result(
    sessions: Map<usize, SessionView>,
    context: usize,
    msg3: Seq<u8>,
    verification: QuoteVerification,
    supplemental_data: Option<Seq<u8>>,
    current_time: i64,
) -> Result<SessionView, Status> {
    if supplemental_data matches Some(data) && data.len() == 0 {
        Err(Status::InvalidParameter)
    } else if !sessions.contains_key(context) {
        Err(Status::InvalidParameter)
    } else {
        sessions[context].after_msg3(msg3, verification, current_time)
    }
}

/// The bytes behind an optional slice.
pub open spec fn option_slice_view(data: Option<&[u8]>) -> Option<Seq<u8>> {
    match data {
        Some(bytes) => Some(bytes@),
        None => None,
    }
}

/// Processes message 3 for the session `context`, with what the external
/// verifier reported of the message's quote and the current trusted time.
/// On success the peer is verified and its identity and the session keys
/// can be read.
pub fn sgx_dcap_mra_proc_msg3(
    table: &mut SessionTable,
    context: usize,
    msg3: &[u8],
    expiration_time: i64,
    collateral_expiration_status: u32,
    quote_verification_result: Verdict,
    supplemental_data: Option<&[u8]>,
    current_time: i64,
) -> (status: Status)
    ensures
        final(table).config() == old(table).config(),
        final(table).released() == old(table).released(),
        match proc_msg3_result(
            old(table)@,
            context,
            msg3@,
            (QuoteVerification {
                verdict: quote_verification_result,
                expiration_time,
                collateral_expiration_status,
            }),
            option_slice_view(supplemental_data),
            current_time,
        ) {
            Ok(next) => {
                &&& status == Status::Success
                &&& final(table)@ == old(table)@.insert(context, next)
                &&& next.valid()
            },
            Err(e) => {
                &&& status == e
                &&& final(table)@ == old(table)@
            },
        },
{
    match supplemental_data {
        Some(data) => {
            if data.len() == 0 {
                return Status::InvalidParameter;
            }
        },
        None => {},
    }
    if !table.contains(context) {
        return Status::InvalidParameter;
    }
    let verification = QuoteVerification {
        verdict: quote_verification_result,
        expiration_time,
        collateral_expiration_status,
    };
    match &mut table.slots[context] {
        Some(session) => match session.process_msg3(msg3, &verification, current_time) {
            Ok(_) => {
                assert(table@ =~= old(table)@.insert(context, table@[context]));
                Status::Success
            },
            Err(e) => {
                assert(table@ =~= old(table)@);
                e
            },
        },
        None => Status::InvalidParameter,
    }
}

/// Reads the accepted verdict and the identity of the verified peer of
/// the session `context`. `InvalidParameter` where the handle names no
/// session, `InvalidState` unless message 3 has been accepted. The session
/// that is read is a valid one: the verdict is one the policy accepts.
pub fn sgx_mra_responder_get_peer_identity(
    table: &SessionTable,
    context: usize,
    quote_verification_result: &mut Verdict,
    enclave_identity: &mut PeerIdentity,
) -> (status: Status)
    ensures
        !table@.contains_key(context) ==> status == Status::InvalidParameter,
        table@.contains_key(context) ==> table@[context].valid(),
        table@.contains_key(context) ==> match table@[context].peer_identity_result() {
            Ok(expected) => {
                &&& status == Status::Success
                &&& *final(quote_verification_result) == expected.0
                &&& final(enclave_identity)@ == expected.1
            },
            Err(e) => status == e,
        },
        status != Status::Success ==> {
            &&& *final(quote_verification_result) == *old(quote_verification_result)
            &&& *final(enclave_identity) == *old(enclave_identity)
        },
{
    if !table.contains(context) {
        return Status::InvalidParameter;
    }
    match &table.slots[context] {
        Some(session) => match session.get_peer_identity() {
            Ok(out) => {
                *quote_verification_result = out.0;
                *enclave_identity = out.1;
                Status::Success
            },
            Err(e) => e,
        },
        None => Status::InvalidParameter,
    }
}

/// Reads one of the session keys of the session `context`.
/// `InvalidParameter` where the handle names no session; `InvalidState`
/// unless message 3 has been accepted, whatever the key type; then
/// `InvalidParameter` for a key type that is not recognised. The session
/// that is read is a valid one: a key that is handed out is the one
/// derived from the shared secret of the exchange.
pub fn sgx_mra_responder_get_keys(
    table: &SessionTable,
    context: usize,
    key_type: u32,
    key: &mut [u8; 16],
) -> (status: Status)
    ensures
        !table@.contains_key(context) ==> status == Status::InvalidParameter,
        table@.contains_key(context) ==> table@[context].valid(),
        table@.contains_key(context) ==> match table@[context].key_result(key_type) {
            Ok(expected) => status == Status::Success && final(key)@ == expected,
            Err(e) => status == e,
        },
        status != Status::Success ==> *final(key) == *old(key),
{
    if !table.contains(context) {
        return Status::InvalidParameter;
    }
    match &table.slots[context] {
        Some(session) => match session.get_keys(key_type) {
            Ok(out) => {
                *key = out;
                Status::Success
            },
            Err(e) => e,
        },
        None => Status::InvalidParameter,
    }
}

/// Closes the session `context` from any state: its private key, its
/// shared secret and its derived keys are erased, and then its handle is
/// released. The session that leaves the table is the one that `close`
/// leaves, and no other session is changed. `InvalidParameter` where the
/// handle names no session; nothing is released then.
pub fn sgx_mra_responder_close(table: &mut SessionTable, context: usize) -> (status: Status)
    ensures
        final(table).config() == old(table).config(),
        final(table)@ == old(table)@.remove(context),
        status == if old(table)@.contains_key(context) {
            Status::Success
        } else {
            Status::InvalidParameter
        },
        final(table).released() == if old(table)@.contains_key(context) {
            old(table).released().push(old(table)@[context].closed())
        } else {
            old(table).released()
        },
{
    if !table.contains(context) {
        assert(table@ =~= old(table)@.remove(context));
        return Status::InvalidParameter;
    }
    match &mut table.slots[context] {
        Some(session) => {
            session.close();
        },
        None => {},
    }
    proof {
        table.released@ = table.released@.push(table.slots@[context as int]->0@);
    }
    table.slots[context] = None;
    assert(table@ =~= old(table)@.remove(context));
    Status::Success
}

} // verus!
