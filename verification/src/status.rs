//! The status enumeration that every operation of the responder reports.

use vstd::prelude::*;

verus! {

/// Outcome of an operation. `Success` is the only value that is not a
/// failure; every failure is reported by exactly one of the others.
#[derive(Clone, Copy, Debug, PartialEq, Eq, Structural)]
pub enum Status {
    /// The operation completed.
    Success,
    /// An argument is malformed: an unknown handle, a buffer of the wrong
    /// size, an unrecognised key type.
    InvalidParameter,
    /// The operation was invoked outside the state that must precede it.
    InvalidState,
    /// Key generation, key agreement or random number generation failed.
    CryptoFailure,
    /// The attested report is not the one requested while message 1 was
    /// processed.
    ReportMismatch,
    /// The length of the quote is outside the configured bounds.
    InvalidQuote,
    /// The size of a message disagrees with the quote length it declares.
    SizeMismatch,
    /// The public key echoed in message 3 is not the one of message 1.
    MacMismatch,
    /// The authentication tag of message 3 does not verify.
    MacVerifyFailed,
    /// The verdict on the quote is not one that the policy accepts.
    QuoteNotTrusted,
    /// The expiration time declared for the verdict has passed.
    QuoteExpired,
    /// The quote does not commit to the exchanged pair of public keys.
    BindingMismatch,
}

/// The families into which failures fall.
#[derive(Clone, Copy, Debug, PartialEq, Eq, Structural)]
pub enum ErrorClass {
    Parameter,
    State,
    Crypto,
    Trust,
    Integrity,
}

impl Status {
    /// The number that stands for a status at a foreign-function boundary.
    pub open spec fn code_of(self) -> u32 {
        match self {
            Status::Success => 0,
            Status::InvalidParameter => 1,
            Status::InvalidState => 2,
            Status::CryptoFailure => 3,
            Status::ReportMismatch => 4,
            Status::InvalidQuote => 5,
            Status::SizeMismatch => 6,
            Status::MacMismatch => 7,
            Status::MacVerifyFailed => 8,
            Status::QuoteNotTrusted => 9,
            Status::QuoteExpired => 10,
            Status::BindingMismatch => 11,
        }
    }

    /// The status that a number stands for, if any.
    pub open spec fn of_code(code: u32) -> Option<Status> {
        if code == 0 {
            Some(Status::Success)
        } else if code == 1 {
            Some(Status::InvalidParameter)
        } else if code == 2 {
            Some(Status::InvalidState)
        } else if code == 3 {
            Some(Status::CryptoFailure)
        } else if code == 4 {
            Some(Status::ReportMismatch)
        } else if code == 5 {
            Some(Status::InvalidQuote)
        } else if code == 6 {
            Some(Status::SizeMismatch)
        } else if code == 7 {
            Some(Status::MacMismatch)
        } else if code == 8 {
            Some(Status::MacVerifyFailed)
        } else if code == 9 {
            Some(Status::QuoteNotTrusted)
        } else if code == 10 {
            Some(Status::QuoteExpired)
        } else if code == 11 {
            Some(Status::BindingMismatch)
        } else {
            None
        }
    }

    /// The family of a failure; `None` for `Success`.
    pub open spec fn class_of(self) -> Option<ErrorClass> {
        match self {
            Status::Success => None,
            Status::InvalidParameter => Some(ErrorClass::Parameter),
            Status::InvalidQuote => Some(ErrorClass::Parameter),
            Status::SizeMismatch => Some(ErrorClass::Parameter),
            Status::InvalidState => Some(ErrorClass::State),
            Status::CryptoFailure => Some(ErrorClass::Crypto),
            Status::ReportMismatch => Some(ErrorClass::Trust),
            Status::QuoteNotTrusted => Some(ErrorClass::Trust),
            Status::QuoteExpired => Some(ErrorClass::Trust),
            Status::BindingMismatch => Some(ErrorClass::Trust),
            Status::MacMismatch => Some(ErrorClass::Integrity),
            Status::MacVerifyFailed => Some(ErrorClass::Integrity),
        }
    }

    pub fn is_success(self) -> (ok: bool)
        ensures
            ok == (self == Status::Success),
    {
        match self {
            Status::Success => true,
            _ => false,
        }
    }

    pub fn code(self) -> (code: u32)
        ensures
            code == self.code_of(),
    {
        match self {
            Status::Success => 0,
            Status::InvalidParameter => 1,
            Status::InvalidState => 2,
            Status::CryptoFailure => 3,
            Status::ReportMismatch => 4,
            Status::InvalidQuote => 5,
            Status::SizeMismatch => 6,
            Status::MacMismatch => 7,
            Status::MacVerifyFailed => 8,
            Status::QuoteNotTrusted => 9,
            Status::QuoteExpired => 10,
            Status::BindingMismatch => 11,
        }
    }

    pub fn from_code(code: u32) -> (status: Option<Status>)
        ensures
            status == Status::of_code(code),
    {
        match code {
            0 => Some(Status::Success),
            1 => Some(Status::InvalidParameter),
            2 => Some(Status::InvalidState),
            3 => Some(Status::CryptoFailure),
            4 => Some(Status::ReportMismatch),
            5 => Some(Status::InvalidQuote),
            6 => Some(Status::SizeMismatch),
            7 => Some(Status::MacMismatch),
            8 => Some(Status::MacVerifyFailed),
            9 => Some(Status::QuoteNotTrusted),
            10 => Some(Status::QuoteExpired),
            11 => Some(Status::BindingMismatch),
            _ => None,
        }
    }

    pub fn class(self) -> (class: Option<ErrorClass>)
        ensures
            class == self.class_of(),
    {
        match self {
            Status::Success => None,
            Status::InvalidParameter | Status::InvalidQuote | Status::SizeMismatch => Some(
                ErrorClass::Parameter,
            ),
            Status::InvalidState => Some(ErrorClass::State),
            Status::CryptoFailure => Some(ErrorClass::Crypto),
            Status::ReportMismatch
            | Status::QuoteNotTrusted
            | Status::QuoteExpired
            | Status::BindingMismatch => Some(ErrorClass::Trust),
            Status::MacMismatch | Status::MacVerifyFailed => Some(ErrorClass::Integrity),
        }
    }
}

/// Statuses and their numbers correspond one to one: decoding the number of
/// a status gives that status back, and a number that decodes was the number
/// of what it decodes to.
pub proof fn lemma_status_codes_one_to_one(status: Status, code: u32)
    ensures
        Status::of_code(status.code_of()) == Some(status),
        Status::of_code(code) matches Some(s) ==> s.code_of() == code,
{
}

/// Every failure belongs to a family, and only `Success` belongs to none.
pub proof fn lemma_every_failure_has_a_class(status: Status)
    ensures
        status.class_of() is None <==> status == Status::Success,
{
}

} // verus!
