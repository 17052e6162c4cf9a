//! The attestation data that the responder handles: the identity a local
//! report is addressed to, the report data that binds a report to one
//! exchange of public keys, and the identity that a peer's quote attests.

use vstd::prelude::*;
use crate::bytes::{array_at, join_bytes, ct_eq, le_value_2, le_value_8, read_le_u16, read_le_u64, zeros};
use crate::crypto::{sha256, sha256_digest};

verus! {

/// Length of the report data of a report.
pub const REPORT_DATA_LEN: usize = 64;

/// Length of the header that precedes a quote's report body.
pub const QUOTE_HEADER_LEN: usize = 48;

/// Length of the report body inside a quote.
pub const REPORT_BODY_LEN: usize = 384;

/// Length of the fixed part of a quote: header, report body, and the
/// 4-byte length of the signature data. No shorter quote is accepted.
pub const QUOTE_MIN_LEN: usize = 436;

/// Where the attribute flags of the attested enclave stand in a quote.
pub const QUOTE_ATTRIBUTE_FLAGS_AT: usize = 96;

/// Where the extended feature mask of the attested enclave stands.
pub const QUOTE_ATTRIBUTE_XFRM_AT: usize = 104;

/// Where the enclave measurement stands in a quote.
pub const QUOTE_MR_ENCLAVE_AT: usize = 112;

/// Where the signer measurement stands in a quote.
pub const QUOTE_MR_SIGNER_AT: usize = 176;

/// Where the product id stands in a quote.
pub const QUOTE_ISV_PROD_ID_AT: usize = 304;

/// Where the security version stands in a quote.
pub const QUOTE_ISV_SVN_AT: usize = 306;

/// Where the report data stands in a quote.
pub const QUOTE_REPORT_DATA_AT: usize = 368;

/// The enclave that a local attestation report is addressed to.
#[derive(Clone, Copy, Debug)]
pub struct TargetIdentity {
    pub mr_enclave: [u8; 32],
    pub attribute_flags: u64,
    pub attribute_xfrm: u64,
    pub misc_select: u32,
    pub config_svn: u16,
    pub config_id: [u8; 64],
}

/// What a `TargetIdentity` holds, as mathematical values.
#[verifier::ext_equal]
pub struct TargetIdentityView {
    pub mr_enclave: Seq<u8>,
    pub attribute_flags: u64,
    pub attribute_xfrm: u64,
    pub misc_select: u32,
    pub config_svn: u16,
    pub config_id: Seq<u8>,
}

impl View for TargetIdentity {
    type V = TargetIdentityView;

    open spec fn view(&self) -> TargetIdentityView {
        TargetIdentityView {
            mr_enclave: self.mr_enclave@,
            attribute_flags: self.attribute_flags,
            attribute_xfrm: self.attribute_xfrm,
            misc_select: self.misc_select,
            config_svn: self.config_svn,
            config_id: self.config_id@,
        }
    }
}

impl TargetIdentity {
    /// The identity whose every field is zero.
    pub fn zeroed() -> (target: TargetIdentity)
        ensures
            target@ == TargetIdentityView::zeroed(),
    {
        let target = TargetIdentity {
            mr_enclave: [0u8; 32],
            attribute_flags: 0,
            attribute_xfrm: 0,
            misc_select: 0,
            config_svn: 0,
            config_id: [0u8; 64],
        };
        assert(target.mr_enclave@ =~= zeros(32));
        assert(target.config_id@ =~= zeros(64));
        target
    }

    /// Whether two identities agree in every field.
    pub fn same_as(&self, other: &TargetIdentity) -> (same: bool)
        ensures
            same == (self@ == other@),
    {
        let same = ct_eq(self.mr_enclave.as_slice(), other.mr_enclave.as_slice())
            && self.attribute_flags == other.attribute_flags
            && self.attribute_xfrm == other.attribute_xfrm
            && self.misc_select == other.misc_select
            && self.config_svn == other.config_svn
            && ct_eq(self.config_id.as_slice(), other.config_id.as_slice());
        same
    }
}

impl TargetIdentityView {
    pub open spec fn zeroed() -> TargetIdentityView {
        TargetIdentityView {
            mr_enclave: zeros(32),
            attribute_flags: 0,
            attribute_xfrm: 0,
            misc_select: 0,
            config_svn: 0,
            config_id: zeros(64),
        }
    }
}

/// The report data that commits a report to one exchange of public keys:
/// the SHA-256 digest of the peer's key followed by the responder's key,
/// then 32 zero bytes.
pub open spec fn report_binding_of(peer_public_key: Seq<u8>, own_public_key: Seq<u8>) -> Seq<u8> {
    sha256_digest(peer_public_key + own_public_key) + zeros(32)
}

/// Computes the report data that commits to `peer_public_key` and
/// `own_public_key`, in this order.
pub fn report_binding(peer_public_key: &[u8; 64], own_public_key: &[u8; 64]) -> (data: [u8; 64])
    ensures
        data@ == report_binding_of(peer_public_key@, own_public_key@),
{
    let keys = join_bytes(peer_public_key.as_slice(), own_public_key.as_slice());
    let digest: [u8; 32] = sha256(keys.as_slice());
    let mut data: [u8; 64] = [0u8; 64];
    let mut i: usize = 0;
    while i < 32
        invariant
            i <= 32,
            forall|j: int| 0 <= j < i ==> data@[j] == digest@[j],
            forall|j: int| i <= j < 64 ==> data@[j] == 0u8,
        decreases 32 - i,
    {
        data[i] = digest[i];
        i += 1;
    }
    assert(data@ =~= digest@ + zeros(32));
    data
}

/// A request for a local attestation report: the enclave it is addressed
/// to, and the report data it must embed.
#[derive(Clone, Copy, Debug)]
pub struct ReportRequest {
    pub target: TargetIdentity,
    pub report_data: [u8; 64],
}

/// What a `ReportRequest` holds, as mathematical values.
#[verifier::ext_equal]
pub struct ReportRequestView {
    pub target: TargetIdentityView,
    pub report_data: Seq<u8>,
}

impl View for ReportRequest {
    type V = ReportRequestView;

    open spec fn view(&self) -> ReportRequestView {
        ReportRequestView { target: self.target@, report_data: self.report_data@ }
    }
}

/// An attested report as the caller obtained it: the enclave it was
/// addressed to, and the report data it embeds.
#[derive(Clone, Copy, Debug)]
pub struct AttestedReport {
    pub target: TargetIdentity,
    pub report_data: [u8; 64],
}

/// What an `AttestedReport` holds, as mathematical values.
#[verifier::ext_equal]
pub struct AttestedReportView {
    pub target: TargetIdentityView,
    pub report_data: Seq<u8>,
}

impl View for AttestedReport {
    type V = AttestedReportView;

    open spec fn view(&self) -> AttestedReportView {
        AttestedReportView { target: self.target@, report_data: self.report_data@ }
    }
}

/// Whether a report answers a request: same target, same report data.
pub open spec fn report_answers(report: AttestedReportView, request: ReportRequestView) -> bool {
    report.target == request.target && report.report_data == request.report_data
}

impl AttestedReport {
    /// Whether this report is the one that `request` asked for.
    pub fn answers(&self, request: &ReportRequest) -> (yes: bool)
        ensures
            yes == report_answers(self@, request@),
    {
        let same_target = self.target.same_as(&request.target);
        let same_data = ct_eq(self.report_data.as_slice(), request.report_data.as_slice());
        same_target && same_data
    }
}

/// The software identity of a verified peer.
#[derive(Clone, Copy, Debug)]
pub struct PeerIdentity {
    /// Measurement of the enclave.
    pub mr_enclave: [u8; 32],
    /// Measurement of the enclave's signer.
    pub mr_signer: [u8; 32],
    /// Product id.
    pub isv_prod_id: u16,
    /// Security version.
    pub isv_svn: u16,
    /// Attribute flags.
    pub attribute_flags: u64,
    /// Extended feature mask that accompanies the flags.
    pub attribute_xfrm: u64,
}

/// What a `PeerIdentity` holds, as mathematical values.
#[verifier::ext_equal]
pub struct PeerIdentityView {
    pub mr_enclave: Seq<u8>,
    pub mr_signer: Seq<u8>,
    pub isv_prod_id: u16,
    pub isv_svn: u16,
    pub attribute_flags: u64,
    pub attribute_xfrm: u64,
}

impl View for PeerIdentity {
    type V = PeerIdentityView;

    open spec fn view(&self) -> PeerIdentityView {
        PeerIdentityView {
            mr_enclave: self.mr_enclave@,
            mr_signer: self.mr_signer@,
            isv_prod_id: self.isv_prod_id,
            isv_svn: self.isv_svn,
            attribute_flags: self.attribute_flags,
            attribute_xfrm: self.attribute_xfrm,
        }
    }
}

impl PeerIdentityView {
    pub open spec fn zeroed() -> PeerIdentityView {
        PeerIdentityView {
            mr_enclave: zeros(32),
            mr_signer: zeros(32),
            isv_prod_id: 0,
            isv_svn: 0,
            attribute_flags: 0,
            attribute_xfrm: 0,
        }
    }
}

impl PeerIdentity {
    /// The identity whose every field is zero.
    pub fn zeroed() -> (identity: PeerIdentity)
        ensures
            identity@ == PeerIdentityView::zeroed(),
    {
        let identity = PeerIdentity {
            mr_enclave: [0u8; 32],
            mr_signer: [0u8; 32],
            isv_prod_id: 0,
            isv_svn: 0,
            attribute_flags: 0,
            attribute_xfrm: 0,
        };
        assert(identity.mr_enclave@ =~= zeros(32));
        assert(identity.mr_signer@ =~= zeros(32));
        identity
    }
}

/// What a quote attests: the identity of the enclave that was measured,
/// and the report data that the enclave chose.
#[derive(Clone, Copy, Debug)]
pub struct QuoteReport {
    pub identity: PeerIdentity,
    pub report_data: [u8; 64],
}

/// What a `QuoteReport` holds, as mathematical values.
#[verifier::ext_equal]
pub struct QuoteReportView {
    pub identity: PeerIdentityView,
    pub report_data: Seq<u8>,
}

impl View for QuoteReport {
    type V = QuoteReportView;

    open spec fn view(&self) -> QuoteReportView {
        QuoteReportView { identity: self.identity@, report_data: self.report_data@ }
    }
}

/// The identity that the report body of `quote` names. Meaningful where
/// the quote holds a whole report body.
pub open spec fn quote_identity_of(quote: Seq<u8>) -> PeerIdentityView {
    PeerIdentityView {
        mr_enclave: quote.subrange(QUOTE_MR_ENCLAVE_AT as int, QUOTE_MR_ENCLAVE_AT + 32),
        mr_signer: quote.subrange(QUOTE_MR_SIGNER_AT as int, QUOTE_MR_SIGNER_AT + 32),
        isv_prod_id: le_value_2(
            quote.subrange(QUOTE_ISV_PROD_ID_AT as int, QUOTE_ISV_PROD_ID_AT + 2),
        ) as u16,
        isv_svn: le_value_2(quote.subrange(QUOTE_ISV_SVN_AT as int, QUOTE_ISV_SVN_AT + 2)) as u16,
        attribute_flags: le_value_8(
            quote.subrange(QUOTE_ATTRIBUTE_FLAGS_AT as int, QUOTE_ATTRIBUTE_FLAGS_AT + 8),
        ) as u64,
        attribute_xfrm: le_value_8(
            quote.subrange(QUOTE_ATTRIBUTE_XFRM_AT as int, QUOTE_ATTRIBUTE_XFRM_AT + 8),
        ) as u64,
    }
}

/// The report data that the report body of `quote` embeds.
pub open spec fn quote_report_data_of(quote: Seq<u8>) -> Seq<u8> {
    quote.subrange(QUOTE_REPORT_DATA_AT as int, QUOTE_REPORT_DATA_AT + REPORT_DATA_LEN)
}

/// What `quote` attests; `None` where it is too short to hold a header
/// and a report body.
pub open spec fn quote_report_of(quote: Seq<u8>) -> Option<QuoteReportView> {
    if quote.len() >= QUOTE_HEADER_LEN + REPORT_BODY_LEN {
        Some(
            QuoteReportView {
                identity: quote_identity_of(quote),
                report_data: quote_report_data_of(quote),
            },
        )
    } else {
        None
    }
}

impl QuoteReport {
    /// Reads the report body of a quote.
    pub fn parse(quote: &[u8]) -> (report: Option<QuoteReport>)
        ensures
            match report {
                Some(r) => quote_report_of(quote@) == Some(r@),
                None => quote_report_of(quote@) is None,
            },
    {
        if quote.len() < QUOTE_HEADER_LEN + REPORT_BODY_LEN {
            return None;
        }
        let identity = PeerIdentity {
            mr_enclave: array_at::<32>(quote, QUOTE_MR_ENCLAVE_AT),
            mr_signer: array_at::<32>(quote, QUOTE_MR_SIGNER_AT),
            isv_prod_id: read_le_u16(quote, QUOTE_ISV_PROD_ID_AT),
            isv_svn: read_le_u16(quote, QUOTE_ISV_SVN_AT),
            attribute_flags: read_le_u64(quote, QUOTE_ATTRIBUTE_FLAGS_AT),
            attribute_xfrm: read_le_u64(quote, QUOTE_ATTRIBUTE_XFRM_AT),
        };
        let report_data: [u8; 64] = array_at::<64>(quote, QUOTE_REPORT_DATA_AT);
        Some(QuoteReport { identity, report_data })
    }
}

} // verus!
