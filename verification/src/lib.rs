//! The responder side of a mutual remote-attestation key exchange.
//!
//! Two isolated execution contexts authenticate one another's software
//! identity and derive shared symmetric keys. The initiator sends its
//! ephemeral public key (message 1); the responder answers with its own
//! public key, authenticated under a key derived from the Diffie-Hellman
//! agreement, and with its quote (message 2); the initiator replies with
//! its quote, authenticated under the same key (message 3). The responder
//! accepts the peer where an external verifier's report on that quote is
//! one the configured policy accepts, has not expired, and the quote
//! commits to the two public keys of this exchange.
//!
//! - [`session`] holds the state machine and its secrets.
//! - [`responder`] exposes the operations over a table of sessions named
//!   by handles, each reporting a [`status::Status`].
//! - [`codec`] defines the wire layout of the messages.
//! - [`trust`] evaluates what the verifier reports.
//! - [`attestation`] holds report requests, reports and identities.
//! - [`mac`] and [`kdf`] authenticate messages and derive keys.
//! - [`crypto`] states what is taken on trust from other crates.
//! - [`guarantees`] proves what the exchange guarantees.

pub mod status;
pub mod bytes;
pub mod crypto;
pub mod mac;
pub mod kdf;
pub mod attestation;
pub mod codec;
pub mod trust;
pub mod session;
pub mod responder;
pub mod guarantees;
