//! The primitives that the verification rests on and does not prove:
//! hashing and signature checks, certificate path validation, and the
//! decoding of PEM, hexadecimal and timestamps.
//!
//! Each is a thin call into the crate that provides it. What a call returns
//! is a function of its arguments alone, so each result has a name that the
//! contracts of the verification speak of. Nothing more is assumed of a name
//! than what is written beside it here.

use vstd::prelude::*;
use core::time::Duration;
use webpki::types::CertificateDer;
use webpki::types::Der;
use webpki::types::TrustAnchor;
use webpki::types::UnixTime;
use webpki::EndEntityCert;
use webpki::KeyUsage;

verus! {

/// No message of this many bytes or more can be hashed.
pub const MAX_MESSAGE_LEN: u64 = 0x2000_0000_0000_0000;

/// The byte strings of a sequence of vectors.
pub open spec fn spec_byte_strings(v: Seq<Vec<u8>>) -> Seq<Seq<u8>> {
    Seq::new(v.len(), |i: int| v[i]@)
}

/// The SHA-256 digest of `data`.
pub uninterp spec fn spec_sha256(data: Seq<u8>) -> Seq<u8>;

/// Whether `signature`, the two 32-byte integers of an ECDSA signature, is
/// valid for `message` under the P-256 public key `public_key`, given as an
/// uncompressed point, with SHA-256 as the digest.
pub uninterp spec fn spec_ecdsa_p256_sha256_valid(
    public_key: Seq<u8>,
    message: Seq<u8>,
    signature: Seq<u8>,
) -> bool;

/// Whether `der` reads as an X.509 certificate of an end entity.
pub uninterp spec fn spec_end_entity_cert_parses(der: Seq<u8>) -> bool;

/// Whether a valid certification path leads, at `seconds` after the Unix
/// epoch, from the certificate `leaf` over some of `intermediates` to the
/// trust anchor with the given subject and public key, for a certificate
/// that authenticates a server, with ECDSA on P-256 with SHA-256 as the only
/// signature algorithm and without revocation checks.
pub uninterp spec fn spec_chain_valid(
    anchor_subject: Seq<u8>,
    anchor_spki: Seq<u8>,
    leaf: Seq<u8>,
    intermediates: Seq<Seq<u8>>,
    seconds: u64,
) -> bool;

/// Whether `signature`, an ECDSA signature in DER, is valid for `message`
/// under the public key of the certificate `leaf`, on P-256 with SHA-256.
pub uninterp spec fn spec_cert_signature_valid(
    leaf: Seq<u8>,
    message: Seq<u8>,
    signature: Seq<u8>,
) -> bool;

/// The contents of the PEM sections that are found in `text`, in order;
/// `None` where one of them does not decode.
pub uninterp spec fn spec_pem_contents(text: Seq<u8>) -> Option<Seq<Seq<u8>>>;

/// The seconds from the Unix epoch to the instant that the RFC 3339
/// timestamp `text` names; `None` where `text` is no such timestamp.
pub uninterp spec fn spec_rfc3339_timestamp(text: Seq<char>) -> Option<i64>;

/// The value of a hexadecimal digit, of either case.
pub open spec fn spec_hex_digit(c: char) -> Option<u8> {
    let v = c as u32;
    if 48 <= v <= 57 {
        Some((v - 48) as u8)
    } else if 65 <= v <= 70 {
        Some((v - 55) as u8)
    } else if 97 <= v <= 102 {
        Some((v - 87) as u8)
    } else {
        None
    }
}

/// The bytes that a hexadecimal text spells, two digits to a byte; `None`
/// where the text has an odd number of characters or holds one that is no
/// hexadecimal digit.
pub open spec fn spec_hex_decode(text: Seq<char>) -> Option<Seq<u8>> {
    if text.len() % 2 == 0 && forall|i: int| 0 <= i < text.len() ==> spec_hex_digit(text[i]) is Some {
        Some(
            Seq::new(
                text.len() / 2,
                |i: int|
                    (16 * spec_hex_digit(text[2 * i])->Some_0 + spec_hex_digit(
                        text[2 * i + 1],
                    )->Some_0) as u8,
            ),
        )
    } else {
        None
    }
}

/// `ring::digest::digest` with SHA-256. The call panics on a message whose
/// length in bits does not fit in 64 bits, which `requires` leaves out. The
/// digest is named, and it has 32 bytes.
#[verifier::external_body]
pub(crate) fn sha256(data: &[u8]) -> (r: Vec<u8>)
    requires
        data@.len() < MAX_MESSAGE_LEN,
    ensures
        r@ == spec_sha256(data@),
        r@.len() == 32,
{
    ring::digest::digest(&ring::digest::SHA256, data).as_ref().to_vec()
}

/// `ring::signature::UnparsedPublicKey::verify` with
/// `ECDSA_P256_SHA256_FIXED`: whether the signature is accepted. The message
/// is hashed, so one too long to hash is left out.
#[verifier::external_body]
pub(crate) fn ecdsa_p256_sha256_valid(public_key: &[u8], message: &[u8], signature: &[u8]) -> (r:
    bool)
    requires
        message@.len() < MAX_MESSAGE_LEN,
    ensures
        r == spec_ecdsa_p256_sha256_valid(public_key@, message@, signature@),
{
    ring::signature::UnparsedPublicKey::new(
        &ring::signature::ECDSA_P256_SHA256_FIXED,
        public_key,
    ).verify(message, signature).is_ok()
}

/// `webpki::EndEntityCert::try_from`: whether the bytes are accepted as a
/// certificate.
#[verifier::external_body]
pub(crate) fn end_entity_cert_parses(der: &[u8]) -> (r: bool)
    ensures
        r == spec_end_entity_cert_parses(der@),
{
    EndEntityCert::try_from(&CertificateDer::from(der)).is_ok()
}

/// `webpki::EndEntityCert::verify_for_usage`: whether a path is found. The
/// leaf must be one that `EndEntityCert::try_from` accepts; the call is made
/// on the certificate that it yields.
#[verifier::external_body]
pub(crate) fn chain_valid(
    anchor_subject: &[u8],
    anchor_spki: &[u8],
    leaf: &[u8],
    intermediates: &[Vec<u8>],
    seconds: u64,
) -> (r: bool)
    requires
        spec_end_entity_cert_parses(leaf@),
    ensures
        r == spec_chain_valid(
            anchor_subject@,
            anchor_spki@,
            leaf@,
            spec_byte_strings(intermediates@),
            seconds,
        ),
{
    let anchor = TrustAnchor {
        subject: Der::from_slice(anchor_subject),
        subject_public_key_info: Der::from_slice(anchor_spki),
        name_constraints: None,
    };
    let chain: Vec<CertificateDer> = intermediates.iter().map(|c| c.as_slice().into()).collect();
    let time = UnixTime::since_unix_epoch(Duration::from_secs(seconds));
    let algs = [webpki::ring::ECDSA_P256_SHA256];
    let usage = KeyUsage::server_auth();
    match EndEntityCert::try_from(&CertificateDer::from(leaf)) {
        Ok(cert) => cert.verify_for_usage(&algs, &[anchor], &chain, time, usage, None, None).is_ok(),
        Err(_) => false,
    }
}

/// `webpki::EndEntityCert::verify_signature` with `ECDSA_P256_SHA256`:
/// whether the signature is accepted. The leaf must be one that
/// `EndEntityCert::try_from` accepts, and the message one that can be
/// hashed.
#[verifier::external_body]
pub(crate) fn cert_signature_valid(leaf: &[u8], message: &[u8], signature: &[u8]) -> (r: bool)
    requires
        spec_end_entity_cert_parses(leaf@),
        message@.len() < MAX_MESSAGE_LEN,
    ensures
        r == spec_cert_signature_valid(leaf@, message@, signature@),
{
    match EndEntityCert::try_from(&CertificateDer::from(leaf)) {
        Ok(cert) => cert.verify_signature(webpki::ring::ECDSA_P256_SHA256, message, signature).is_ok(),
        Err(_) => false,
    }
}

/// `pem::parse_many`: the contents of the sections, or `None` where the call
/// fails.
#[verifier::external_body]
pub(crate) fn pem_contents(text: &[u8]) -> (r: Option<Vec<Vec<u8>>>)
    ensures
        match r {
            Some(v) => spec_pem_contents(text@) == Some(spec_byte_strings(v@)),
            None => spec_pem_contents(text@) is None,
        },
{
    match pem::parse_many(text) {
        Ok(sections) => Some(sections.into_iter().map(|s| s.into_contents()).collect()),
        Err(_) => None,
    }
}

/// `hex::decode`: the bytes, or `None` where the call fails. The call reads
/// the text byte by byte, fails on an odd number of bytes and on a byte that
/// is no hexadecimal digit, and no byte of a character outside ASCII is one.
#[verifier::external_body]
pub(crate) fn hex_decode(text: &str) -> (r: Option<Vec<u8>>)
    ensures
        match r {
            Some(v) => spec_hex_decode(text@) == Some(v@),
            None => spec_hex_decode(text@) is None,
        },
{
    hex::decode(text).ok()
}

/// `chrono::DateTime::parse_from_rfc3339`, then `DateTime::timestamp`: the
/// seconds, or `None` where the text does not parse. A date of this crate
/// holds its year in 19 bits, so the seconds stay far below 2^48 either way.
#[verifier::external_body]
pub(crate) fn rfc3339_timestamp(text: &str) -> (r: Option<i64>)
    ensures
        r == spec_rfc3339_timestamp(text@),
        r matches Some(t) ==> -0x1_0000_0000_0000 < t < 0x1_0000_0000_0000,
{
    match chrono::DateTime::parse_from_rfc3339(text) {
        Ok(instant) => Some(instant.timestamp()),
        Err(_) => None,
    }
}

} // verus!
