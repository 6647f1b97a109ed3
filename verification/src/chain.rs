//! Certificate chains: the trust anchor, the path from a leaf to it, and
//! signatures made with a leaf's key.

use vstd::prelude::*;
use vstd::slice::slice_subrange;
use vstd::slice::slice_to_vec;
use crate::der::encode_as_der;
use crate::der::spec_der_signature;
use crate::error::Error;
use crate::primitives::cert_signature_valid;
use crate::primitives::chain_valid;
use crate::primitives::end_entity_cert_parses;
use crate::primitives::pem_contents;
use crate::primitives::spec_byte_strings;
use crate::primitives::spec_cert_signature_valid;
use crate::primitives::spec_chain_valid;
use crate::primitives::spec_end_entity_cert_parses;
use crate::primitives::spec_pem_contents;
use crate::primitives::MAX_MESSAGE_LEN;

verus! {

/// The subject of the Intel SGX Root CA, as the content of its DER name:
/// CN=Intel SGX Root CA, O=Intel Corporation, L=Santa Clara, ST=CA, C=US.
pub const INTEL_SGX_ROOT_SUBJECT: [u8; 104] = [
    0x31, 0x1A, 0x30, 0x18, 0x06, 0x03, 0x55, 0x04, 0x03, 0x0C, 0x11, 0x49, 0x6E, 0x74, 0x65, 0x6C,
    0x20, 0x53, 0x47, 0x58, 0x20, 0x52, 0x6F, 0x6F, 0x74, 0x20, 0x43, 0x41, 0x31, 0x1A, 0x30, 0x18,
    0x06, 0x03, 0x55, 0x04, 0x0A, 0x0C, 0x11, 0x49, 0x6E, 0x74, 0x65, 0x6C, 0x20, 0x43, 0x6F, 0x72,
    0x70, 0x6F, 0x72, 0x61, 0x74, 0x69, 0x6F, 0x6E, 0x31, 0x14, 0x30, 0x12, 0x06, 0x03, 0x55, 0x04,
    0x07, 0x0C, 0x0B, 0x53, 0x61, 0x6E, 0x74, 0x61, 0x20, 0x43, 0x6C, 0x61, 0x72, 0x61, 0x31, 0x0B,
    0x30, 0x09, 0x06, 0x03, 0x55, 0x04, 0x08, 0x0C, 0x02, 0x43, 0x41, 0x31, 0x0B, 0x30, 0x09, 0x06,
    0x03, 0x55, 0x04, 0x06, 0x13, 0x02, 0x55, 0x53,
];

/// The public key of the Intel SGX Root CA, as the content of its DER
/// subject public key info: an uncompressed point on P-256.
pub const INTEL_SGX_ROOT_SPKI: [u8; 89] = [
    0x30, 0x13, 0x06, 0x07, 0x2A, 0x86, 0x48, 0xCE, 0x3D, 0x02, 0x01, 0x06, 0x08, 0x2A, 0x86, 0x48,
    0xCE, 0x3D, 0x03, 0x01, 0x07, 0x03, 0x42, 0x00, 0x04, 0x0B, 0xA9, 0xC4, 0xC0, 0xC0, 0xC8, 0x61,
    0x93, 0xA3, 0xFE, 0x23, 0xD6, 0xB0, 0x2C, 0xDA, 0x10, 0xA8, 0xBB, 0xD4, 0xE8, 0x8E, 0x48, 0xB4,
    0x45, 0x85, 0x61, 0xA3, 0x6E, 0x70, 0x55, 0x25, 0xF5, 0x67, 0x91, 0x8E, 0x2E, 0xDC, 0x88, 0xE4,
    0x0D, 0x86, 0x0B, 0xD0, 0xCC, 0x4E, 0xE2, 0x6A, 0xAC, 0xC9, 0x88, 0xE5, 0x05, 0xA9, 0x53, 0x55,
    0x8C, 0x45, 0x3F, 0x6B, 0x09, 0x04, 0xAE, 0x73, 0x94,
];

/// The root of trust of a verification: the subject and the public key of
/// the authority at which every certificate chain must end.
#[derive(Clone, Debug)]
pub struct TrustAnchor {
    /// The content of the DER name of the authority.
    pub subject: Vec<u8>,
    /// The content of the DER subject public key info of the authority.
    pub subject_public_key_info: Vec<u8>,
}

pub ghost struct TrustAnchorView {
    pub subject: Seq<u8>,
    pub subject_public_key_info: Seq<u8>,
}

impl View for TrustAnchor {
    type V = TrustAnchorView;

    open spec fn view(&self) -> TrustAnchorView {
        TrustAnchorView {
            subject: self.subject@,
            subject_public_key_info: self.subject_public_key_info@,
        }
    }
}

/// The Intel SGX Root CA.
pub open spec fn spec_intel_sgx_root() -> TrustAnchorView {
    TrustAnchorView {
        subject: INTEL_SGX_ROOT_SUBJECT@,
        subject_public_key_info: INTEL_SGX_ROOT_SPKI@,
    }
}

impl TrustAnchor {
    /// The Intel SGX Root CA, under which genuine platforms are certified.
    pub fn intel_sgx_root() -> (r: TrustAnchor)
        ensures
            r@ == spec_intel_sgx_root(),
    {
        TrustAnchor {
            subject: slice_to_vec(INTEL_SGX_ROOT_SUBJECT.as_slice()),
            subject_public_key_info: slice_to_vec(INTEL_SGX_ROOT_SPKI.as_slice()),
        }
    }
}

/// What the check of a PEM certificate chain at `seconds` after the Unix
/// epoch yields: the leaf, which is the first certificate, where the chain
/// holds at least two certificates, the leaf reads as a certificate, and a
/// valid path leads from it over the others to the trust anchor.
pub open spec fn spec_check_chain(anchor: TrustAnchorView, pem: Seq<u8>, seconds: u64) -> Result<
    Seq<u8>,
    Error,
> {
    match spec_pem_contents(pem) {
        None => Err(Error::CodecError),
        Some(certs) => if certs.len() < 2 {
            Err(Error::CertificateChainIsTooShort)
        } else if !spec_end_entity_cert_parses(certs[0]) {
            Err(Error::LeafCertificateParsingError)
        } else if !spec_chain_valid(
            anchor.subject,
            anchor.subject_public_key_info,
            certs[0],
            certs.skip(1),
            seconds,
        ) {
            Err(Error::CertificateChainIsInvalid)
        } else {
            Ok(certs[0])
        },
    }
}

/// What the check of a raw signature made with a leaf's key yields: the
/// signature must be 64 bytes wide, and its DER form must be valid for the
/// message under the key of the leaf.
pub open spec fn spec_check_cert_signature(leaf: Seq<u8>, message: Seq<u8>, raw: Seq<u8>) -> Result<
    (),
    Error,
> {
    if raw.len() != 64 {
        Err(Error::KeyLengthIsInvalid)
    } else if !spec_cert_signature_valid(leaf, message, spec_der_signature(raw)) {
        Err(Error::RsaSignatureIsInvalid)
    } else {
        Ok(())
    }
}

/// Takes the certificates out of a PEM text, in order, as DER.
pub fn extract_certs(cert_chain: &[u8]) -> (r: Result<Vec<Vec<u8>>, Error>)
    ensures
        match r {
            Ok(certs) => spec_pem_contents(cert_chain@) == Some(spec_byte_strings(certs@)),
            Err(e) => e == Error::CodecError && spec_pem_contents(cert_chain@) is None,
        },
{
    match pem_contents(cert_chain) {
        Some(certs) => Ok(certs),
        None => Err(Error::CodecError),
    }
}

/// Checks that a valid path leads from a leaf over the intermediate
/// certificates to the trust anchor, at a time given in milliseconds since
/// the Unix epoch. The path is judged at the second that the time falls in.
pub fn verify_certificate_chain(
    anchor: &TrustAnchor,
    leaf_cert: &[u8],
    intermediate_certs: &[Vec<u8>],
    verification_time: u64,
) -> (r: Result<(), Error>)
    requires
        spec_end_entity_cert_parses(leaf_cert@),
    ensures
        r == if spec_chain_valid(
            anchor@.subject,
            anchor@.subject_public_key_info,
            leaf_cert@,
            spec_byte_strings(intermediate_certs@),
            (verification_time / 1000) as u64,
        ) {
            Ok::<(), Error>(())
        } else {
            Err::<(), Error>(Error::CertificateChainIsInvalid)
        },
{
    let seconds: u64 = verification_time / 1000;
    if chain_valid(
        anchor.subject.as_slice(),
        anchor.subject_public_key_info.as_slice(),
        leaf_cert,
        intermediate_certs,
        seconds,
    ) {
        Ok(())
    } else {
        Err(Error::CertificateChainIsInvalid)
    }
}

/// Checks a PEM certificate chain against the trust anchor, at a time given
/// in milliseconds since the Unix epoch, and hands out its certificates. The
/// first of them is the leaf.
///
/// The length of the chain is checked before anything is parsed or verified.
pub fn check_certificate_chain(anchor: &TrustAnchor, cert_chain: &[u8], verification_time: u64) -> (r:
    Result<Vec<Vec<u8>>, Error>)
    ensures
        match r {
            Ok(certs) => {
                &&& certs@.len() >= 2
                &&& spec_end_entity_cert_parses(certs@[0]@)
                &&& spec_check_chain(anchor@, cert_chain@, (verification_time / 1000) as u64) == Ok::<
                    Seq<u8>,
                    Error,
                >(certs@[0]@)
            },
            Err(e) => spec_check_chain(anchor@, cert_chain@, (verification_time / 1000) as u64)
                == Err::<Seq<u8>, Error>(e),
        },
{
    let certs: Vec<Vec<u8>> = match extract_certs(cert_chain) {
        Ok(certs) => certs,
        Err(e) => {
            return Err(e);
        },
    };
    if certs.len() < 2 {
        return Err(Error::CertificateChainIsTooShort);
    }
    if !end_entity_cert_parses(certs[0].as_slice()) {
        return Err(Error::LeafCertificateParsingError);
    }
    let intermediate_certs = slice_subrange(certs.as_slice(), 1, certs.len());
    assert(spec_byte_strings(intermediate_certs@) =~= spec_byte_strings(certs@).skip(1));
    match verify_certificate_chain(
        anchor,
        certs[0].as_slice(),
        intermediate_certs,
        verification_time,
    ) {
        Ok(()) => Ok(certs),
        Err(e) => Err(e),
    }
}

/// Checks a raw signature over a message against the key of a leaf
/// certificate.
pub fn verify_leaf_signature(leaf_cert: &[u8], message: &[u8], signature: &[u8]) -> (r: Result<
    (),
    Error,
>)
    requires
        spec_end_entity_cert_parses(leaf_cert@),
        message@.len() < MAX_MESSAGE_LEN,
    ensures
        r == spec_check_cert_signature(leaf_cert@, message@, signature@),
{
    let asn1_signature: Vec<u8> = match encode_as_der(signature) {
        Ok(der) => der,
        Err(e) => {
            return Err(e);
        },
    };
    if cert_signature_valid(leaf_cert, message, asn1_signature.as_slice()) {
        Ok(())
    } else {
        Err(Error::RsaSignatureIsInvalid)
    }
}

} // verus!
