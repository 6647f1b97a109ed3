//! Verification of SGX DCAP attestation quotes.
//!
//! A relying party hands [`verify`] a raw quote, the signed TCB advisory
//! document with its issuer chain, and the current time. The result is either
//! the attested identity of the enclave together with the trust status of the
//! platform, or the first check that failed.

pub mod attestation;
pub mod bytes;
pub mod chain;
pub mod constants;
pub mod der;
pub mod error;
pub mod extension;
pub mod laws;
pub mod primitives;
pub mod quote;
pub mod tcb_info;

pub use attestation::verify;
pub use attestation::verify_with_trust_anchor;
pub use attestation::SgxV30QuoteCollateral;
pub use chain::TrustAnchor;
pub use error::DecodeError;
pub use error::Error;
pub use quote::AuthData;
pub use quote::EnclaveReport;
pub use quote::Quote;
pub use tcb_info::TcbInfo;
