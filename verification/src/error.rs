//! Failure codes.

use vstd::prelude::*;

verus! {

/// Why a quote could not be verified. Every variant is terminal: the first
/// check that fails decides the result.
#[derive(Clone, Copy, Debug, PartialEq, Eq, Structural)]
pub enum Error {
    /// The quote bytes or the TCB advisory document are malformed.
    CodecError,
    /// The TCB advisory document is past its next update.
    TCBInfoExpired,
    /// A raw signature does not have the fixed width of two 32-byte integers.
    KeyLengthIsInvalid,
    /// A signature made with a certificate's key does not verify.
    RsaSignatureIsInvalid,
    /// The quote header names a version other than 3.
    UnsupportedDCAPQuoteVersion,
    /// The quote header names an attestation key other than ECDSA on P-256.
    UnsupportedDCAPAttestationKeyType,
    /// The authentication data is not of the version-3 shape.
    UnsupportedQuoteAuthData,
    /// The certification data is not a PEM certificate chain.
    UnsupportedDCAPPckCertFormat,
    /// The first certificate of a chain is not a well-formed certificate.
    LeafCertificateParsingError,
    /// No valid path leads from a chain's leaf to the trust anchor.
    CertificateChainIsInvalid,
    /// A chain holds fewer than two certificates.
    CertificateChainIsTooShort,
    /// The leaf certificate is not DER of the shape that holds extensions.
    IntelExtensionCertificateDecodingError,
    /// The leaf certificate holds no platform extension, or more than one.
    IntelExtensionAmbiguity,
    /// The CPU security versions in the extension are not 16 bytes.
    CpuSvnLengthMismatch,
    /// The PCE security version in the extension is not 1 or 2 bytes.
    PceSvnLengthMismatch,
    /// The platform identifier in the extension is not 6 bytes.
    FmspcLengthMismatch,
    /// The platform identifier of the certificate is not the one the TCB
    /// advisory document was issued for.
    FmspcMismatch,
    /// The hash in the quoting enclave's report does not bind the
    /// attestation key.
    QEReportHashMismatch,
    /// The quote's own signature does not verify.
    IsvEnclaveReportSignatureIsInvalid,
    /// The platform extension is not a DER sequence of (name, value) pairs.
    DerDecodingError,
    /// The platform extension lacks a field.
    OidIsMissing,
}

/// Why a byte buffer is not a quote.
#[derive(Clone, Copy, Debug, PartialEq, Eq, Structural)]
pub enum DecodeError {
    /// The buffer ends inside a fixed-size part.
    UnexpectedEnd,
    /// A length prefix claims more bytes than remain.
    LengthOutOfBounds,
}

} // verus!
