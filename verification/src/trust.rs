//! Evaluation of a quote-verification verdict.
//!
//! The cryptographic verification of a quote is done elsewhere. This
//! module takes the verdict that the verifier produced and decides whether
//! the session may trust the peer: the verdict has to be one that the
//! configured policy accepts, the verdict must not have expired, and the
//! quote has to commit to the public keys that were exchanged.

use vstd::prelude::*;
use crate::attestation::{PeerIdentity, PeerIdentityView, QuoteReport, quote_report_of};
use crate::bytes::ct_eq;
use crate::status::Status;

verus! {

/// Number of verdicts.
pub const VERDICT_COUNT: usize = 9;

/// The outcome of verifying a quote, as the external verifier reports it.
#[derive(Clone, Copy, Debug, PartialEq, Eq, Structural)]
pub enum Verdict {
    /// The quote verifies and the platform is up to date.
    Trusted,
    /// The quote verifies; the platform needs additional configuration.
    ConfigNeeded,
    /// The quote verifies; the platform's patch level is out of date.
    OutOfDate,
    /// Out of date, and additional configuration is needed.
    OutOfDateConfigNeeded,
    /// The signature of the quote is invalid.
    InvalidSignature,
    /// The platform's attestation key or certificate was revoked.
    Revoked,
    /// The verifier could not say more.
    Unspecified,
    /// The quote verifies; software hardening is needed.
    SwHardeningNeeded,
    /// Additional configuration and software hardening are needed.
    ConfigAndSwHardeningNeeded,
}

impl Verdict {
    /// The position of a verdict in the list of verdicts.
    pub open spec fn index_of(self) -> int {
        match self {
            Verdict::Trusted => 0,
            Verdict::ConfigNeeded => 1,
            Verdict::OutOfDate => 2,
            Verdict::OutOfDateConfigNeeded => 3,
            Verdict::InvalidSignature => 4,
            Verdict::Revoked => 5,
            Verdict::Unspecified => 6,
            Verdict::SwHardeningNeeded => 7,
            Verdict::ConfigAndSwHardeningNeeded => 8,
        }
    }

    /// The number by which the verifier reports a verdict.
    pub open spec fn code_of(self) -> u32 {
        match self {
            Verdict::Trusted => 0x0000,
            Verdict::ConfigNeeded => 0xA001,
            Verdict::OutOfDate => 0xA002,
            Verdict::OutOfDateConfigNeeded => 0xA003,
            Verdict::InvalidSignature => 0xA004,
            Verdict::Revoked => 0xA005,
            Verdict::Unspecified => 0xA006,
            Verdict::SwHardeningNeeded => 0xA007,
            Verdict::ConfigAndSwHardeningNeeded => 0xA008,
        }
    }

    /// The verdict that a number stands for, if any.
    pub open spec fn of_code(code: u32) -> Option<Verdict> {
        if code == 0x0000 {
            Some(Verdict::Trusted)
        } else if code == 0xA001 {
            Some(Verdict::ConfigNeeded)
        } else if code == 0xA002 {
            Some(Verdict::OutOfDate)
        } else if code == 0xA003 {
            Some(Verdict::OutOfDateConfigNeeded)
        } else if code == 0xA004 {
            Some(Verdict::InvalidSignature)
        } else if code == 0xA005 {
            Some(Verdict::Revoked)
        } else if code == 0xA006 {
            Some(Verdict::Unspecified)
        } else if code == 0xA007 {
            Some(Verdict::SwHardeningNeeded)
        } else if code == 0xA008 {
            Some(Verdict::ConfigAndSwHardeningNeeded)
        } else {
            None
        }
    }

    pub fn index(self) -> (i: usize)
        ensures
            i == self.index_of(),
            i < VERDICT_COUNT,
    {
        match self {
            Verdict::Trusted => 0,
            Verdict::ConfigNeeded => 1,
            Verdict::OutOfDate => 2,
            Verdict::OutOfDateConfigNeeded => 3,
            Verdict::InvalidSignature => 4,
            Verdict::Revoked => 5,
            Verdict::Unspecified => 6,
            Verdict::SwHardeningNeeded => 7,
            Verdict::ConfigAndSwHardeningNeeded => 8,
        }
    }

    pub fn code(self) -> (code: u32)
        ensures
            code == self.code_of(),
    {
        match self {
            Verdict::Trusted => 0x0000,
            Verdict::ConfigNeeded => 0xA001,
            Verdict::OutOfDate => 0xA002,
            Verdict::OutOfDateConfigNeeded => 0xA003,
            Verdict::InvalidSignature => 0xA004,
            Verdict::Revoked => 0xA005,
            Verdict::Unspecified => 0xA006,
            Verdict::SwHardeningNeeded => 0xA007,
            Verdict::ConfigAndSwHardeningNeeded => 0xA008,
        }
    }

    pub fn from_code(code: u32) -> (verdict: Option<Verdict>)
        ensures
            verdict == Verdict::of_code(code),
    {
        match code {
            0x0000 => Some(Verdict::Trusted),
            0xA001 => Some(Verdict::ConfigNeeded),
            0xA002 => Some(Verdict::OutOfDate),
            0xA003 => Some(Verdict::OutOfDateConfigNeeded),
            0xA004 => Some(Verdict::InvalidSignature),
            0xA005 => Some(Verdict::Revoked),
            0xA006 => Some(Verdict::Unspecified),
            0xA007 => Some(Verdict::SwHardeningNeeded),
            0xA008 => Some(Verdict::ConfigAndSwHardeningNeeded),
            _ => None,
        }
    }
}

/// Verdicts and their numbers correspond one to one.
pub proof fn lemma_verdict_codes_one_to_one(verdict: Verdict, code: u32)
    ensures
        Verdict::of_code(verdict.code_of()) == Some(verdict),
        Verdict::of_code(code) matches Some(v) ==> v.code_of() == code,
{
}

/// The set of verdicts that a deployment accepts.
#[derive(Clone, Copy, Debug)]
pub struct TrustPolicy {
    accepted: [bool; 9],
}

impl View for TrustPolicy {
    type V = Set<Verdict>;

    closed spec fn view(&self) -> Set<Verdict> {
        Set::new(|v: Verdict| self.accepted@[v.index_of()])
    }
}

impl TrustPolicy {
    /// The policy that accepts no verdict.
    pub fn none() -> (policy: TrustPolicy)
        ensures
            policy@ == Set::<Verdict>::empty(),
    {
        let policy = TrustPolicy { accepted: [false; 9] };
        assert(policy@ =~= Set::<Verdict>::empty());
        policy
    }

    /// The policy that accepts the fully trusted verdict and no other.
    pub fn strict() -> (policy: TrustPolicy)
        ensures
            policy@ == Set::<Verdict>::empty().insert(Verdict::Trusted),
    {
        TrustPolicy::none().allow(Verdict::Trusted)
    }

    /// This policy, with `verdict` accepted as well.
    pub fn allow(self, verdict: Verdict) -> (policy: TrustPolicy)
        ensures
            policy@ == self@.insert(verdict),
    {
        let mut accepted: [bool; 9] = self.accepted;
        accepted[verdict.index()] = true;
        let policy = TrustPolicy { accepted };
        assert(policy@ =~= self@.insert(verdict)) by {
            assert forall|v: Verdict| policy@.contains(v) == self@.insert(verdict).contains(v) by {
                if v.index_of() == verdict.index_of() {
                    assert(v == verdict);
                }
            }
        }
        policy
    }

    /// Whether the policy accepts `verdict`.
    pub fn accepts(&self, verdict: Verdict) -> (yes: bool)
        ensures
            yes == self@.contains(verdict),
    {
        self.accepted[verdict.index()]
    }
}

/// What the external verifier reports of a quote.
#[derive(Clone, Copy, Debug, PartialEq, Eq, Structural)]
pub struct QuoteVerification {
    /// The verdict.
    pub verdict: Verdict,
    /// The time, in seconds since the epoch, until which the verdict
    /// stands.
    pub expiration_time: i64,
    /// The verifier's flag on the collateral it used; kept with the
    /// session, not judged here.
    pub collateral_expiration_status: u32,
}

/// The decision taken on what the verifier reported, which is either the
/// identity that the quote attests or the reason for which the peer is not
/// trusted. The verdict is checked
/// first, then the expiration time, then the binding of the quote to the
/// exchanged keys.
pub open spec fn evaluation_of(
    policy: Set<Verdict>,
    verification: QuoteVerification,
    now: i64,
    quote: Seq<u8>,
    expected_report_data: Seq<u8>,
) -> Result<PeerIdentityView, Status> {
    if !policy.contains(verification.verdict) {
        Err(Status::QuoteNotTrusted)
    } else if now > verification.expiration_time {
        Err(Status::QuoteExpired)
    } else {
        match quote_report_of(quote) {
            Some(report) => if report.report_data == expected_report_data {
                Ok(report.identity)
            } else {
                Err(Status::BindingMismatch)
            },
            None => Err(Status::BindingMismatch),
        }
    }
}

/// Decides whether the peer that sent `quote` is trusted, given what the
/// verifier reported of the quote, the current time and the report data
/// that the quote must embed.
pub fn evaluate_quote(
    policy: &TrustPolicy,
    verification: &QuoteVerification,
    now: i64,
    quote: &[u8],
    expected_report_data: &[u8; 64],
) -> (decision: Result<PeerIdentity, Status>)
    ensures
        match decision {
            Ok(identity) => evaluation_of(
                policy@,
                *verification,
                now,
                quote@,
                expected_report_data@,
            ) == Ok::<PeerIdentityView, Status>(identity@),
            Err(e) => evaluation_of(policy@, *verification, now, quote@, expected_report_data@)
                == Err::<PeerIdentityView, Status>(e),
        },
{
    if !policy.accepts(verification.verdict) {
        return Err(Status::QuoteNotTrusted);
    }
    if now > verification.expiration_time {
        return Err(Status::QuoteExpired);
    }
    match QuoteReport::parse(quote) {
        Some(report) => {
            if ct_eq(report.report_data.as_slice(), expected_report_data.as_slice()) {
                Ok(report.identity)
            } else {
                Err(Status::BindingMismatch)
            }
        },
        None => Err(Status::BindingMismatch),
    }
}

} // verus!
