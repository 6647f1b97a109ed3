//! Sizes and type codes of the quote format.

use vstd::prelude::*;

verus! {

/// Bytes of a quote header.
pub const HEADER_BYTE_LEN: usize = 48;

/// Bytes of an enclave report.
pub const ENCLAVE_REPORT_BYTE_LEN: usize = 384;

/// Bytes of the part of a quote that its signature covers.
pub const SIGNED_QUOTE_BYTE_LEN: usize = HEADER_BYTE_LEN + ENCLAVE_REPORT_BYTE_LEN;

/// Bytes of a version-3 authentication block up to and including the length
/// prefix of the quoting enclave's authentication data.
pub const AUTH_DATA_V3_FIXED_BYTE_LEN: usize = 578;

/// Bytes of the type and length prefix of the certification data.
pub const CERTIFICATION_DATA_PREFIX_BYTE_LEN: usize = 6;

/// The one quote version that is verified.
pub const QUOTE_VERSION_V3: u16 = 3;

/// The one attestation key type that is verified: ECDSA on P-256.
pub const ATTESTATION_KEY_TYPE_ECDSA256_WITH_P256_CURVE: u16 = 2;

/// The one certification data type that is verified: a PEM certificate chain.
pub const PCK_ID_PCK_CERT_CHAIN: u16 = 5;

} // verus!
