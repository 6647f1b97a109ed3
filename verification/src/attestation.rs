//! The verification of a quote, end to end.
//!
//! The steps run in a fixed order and the first that fails decides the
//! result. Cheap structural checks stand before the cryptographic work that
//! they guard.

use vstd::prelude::*;
use vstd::slice::slice_subrange;
use vstd::utf8::encode_utf8;
use crate::bytes::append;
use crate::bytes::append_u16_be;
use crate::bytes::spec_u16_be_bytes;
use crate::chain::check_certificate_chain;
use crate::chain::spec_check_cert_signature;
use crate::chain::spec_check_chain;
use crate::chain::spec_intel_sgx_root;
use crate::chain::verify_leaf_signature;
use crate::chain::TrustAnchor;
use crate::chain::TrustAnchorView;
use crate::constants::ATTESTATION_KEY_TYPE_ECDSA256_WITH_P256_CURVE;
use crate::constants::PCK_ID_PCK_CERT_CHAIN;
use crate::constants::QUOTE_VERSION_V3;
use crate::constants::SIGNED_QUOTE_BYTE_LEN;
use crate::der::bytes_eq;
use crate::error::Error;
use crate::extension::get_cpu_svn;
use crate::extension::get_fmspc;
use crate::extension::get_intel_extension;
use crate::extension::get_pce_svn;
use crate::extension::spec_cpu_svn;
use crate::extension::spec_fmspc;
use crate::extension::spec_intel_extension;
use crate::extension::spec_pce_svn;
use crate::primitives::ecdsa_p256_sha256_valid;
use crate::primitives::hex_decode;
use crate::primitives::rfc3339_timestamp;
use crate::primitives::sha256;
use crate::primitives::spec_ecdsa_p256_sha256_valid;
use crate::primitives::spec_hex_decode;
use crate::primitives::spec_rfc3339_timestamp;
use crate::primitives::spec_sha256;
use crate::primitives::MAX_MESSAGE_LEN;
use crate::quote::spec_enclave_report;
use crate::quote::spec_quote;
use crate::quote::AuthData;
use crate::quote::AuthDataV3;
use crate::quote::AuthDataV3View;
use crate::quote::AuthDataView;
use crate::quote::EnclaveReport;
use crate::quote::EnclaveReportView;
use crate::quote::Quote;
use crate::quote::QuoteView;
use crate::tcb_info::match_tcb_levels;
use crate::tcb_info::spec_strings;
use crate::tcb_info::spec_tcb_verdict;
use crate::tcb_info::TcbInfo;
use crate::tcb_info::TcbInfoView;

verus! {

/// What comes with a quote: the TCB advisory document as it was signed, the
/// PEM certificate chain of its issuer, and the issuer's raw signature over
/// the document.
#[derive(Clone, Debug)]
pub struct SgxV30QuoteCollateral {
    pub tcb_info_issuer_chain: String,
    pub tcb_info: String,
    pub tcb_info_signature: Vec<u8>,
}

pub ghost struct SgxV30QuoteCollateralView {
    pub tcb_info_issuer_chain: Seq<char>,
    pub tcb_info: Seq<char>,
    pub tcb_info_signature: Seq<u8>,
}

impl View for SgxV30QuoteCollateral {
    type V = SgxV30QuoteCollateralView;

    open spec fn view(&self) -> SgxV30QuoteCollateralView {
        SgxV30QuoteCollateralView {
            tcb_info_issuer_chain: self.tcb_info_issuer_chain@,
            tcb_info: self.tcb_info@,
            tcb_info_signature: self.tcb_info_signature@,
        }
    }
}

/// What a verified quote attests.
pub ghost struct Verdict {
    /// The 64 bytes that the enclave bound into its report.
    pub report_data: Seq<u8>,
    /// The enclave's measurement, product id, security version and signer,
    /// in one string.
    pub tcb_hash: Seq<u8>,
    /// The trust status of the platform.
    pub tcb_status: Seq<char>,
    /// The advisories that apply to the platform.
    pub advisory_ids: Seq<Seq<char>>,
    /// The measurement of the enclave.
    pub mr_enclave: Seq<u8>,
    /// The measurement of the enclave's signer.
    pub mr_signer: Seq<u8>,
}

/// The verdict that a result of [`verify`] stands for.
pub open spec fn spec_verdict_of(
    t: ([u8; 64], Vec<u8>, String, Vec<String>, [u8; 32], [u8; 32]),
) -> Verdict {
    Verdict {
        report_data: t.0@,
        tcb_hash: t.1@,
        tcb_status: t.2@,
        advisory_ids: spec_strings(t.3@),
        mr_enclave: t.4@,
        mr_signer: t.5@,
    }
}

/// The advisory document is usable at `now`: every level names 16 CPU
/// components, the signed text is short enough to be hashed, the next update
/// is an RFC 3339 timestamp, and `now`, in seconds since the Unix epoch, is
/// not past it.
pub open spec fn spec_check_tcb_info(tcb_info: TcbInfoView, text: Seq<char>, now: u64) -> Result<
    (),
    Error,
> {
    if !tcb_info.wf() || encode_utf8(text).len() >= MAX_MESSAGE_LEN {
        Err(Error::CodecError)
    } else {
        match spec_rfc3339_timestamp(tcb_info.next_update) {
            None => Err(Error::CodecError),
            Some(next_update) => if now > next_update {
                Err(Error::TCBInfoExpired)
            } else {
                Ok(())
            },
        }
    }
}

/// The version-3 authentication data of a quote whose version, attestation
/// key type and certification data type are the supported ones.
pub open spec fn spec_supported_auth_data(quote: QuoteView) -> Result<AuthDataV3View, Error> {
    if quote.header.version != 3 {
        Err(Error::UnsupportedDCAPQuoteVersion)
    } else if quote.header.attestation_key_type != 2 {
        Err(Error::UnsupportedDCAPAttestationKeyType)
    } else {
        match quote.auth_data {
            AuthDataView::Unsupported(_) => Err(Error::UnsupportedQuoteAuthData),
            AuthDataView::V3(auth) => if auth.certification_data.cert_type != 5 {
                Err(Error::UnsupportedDCAPPckCertFormat)
            } else {
                Ok(auth)
            },
        }
    }
}

/// The quoting enclave vouches for the attestation key: the first 32 bytes
/// of the data in its report are the SHA-256 digest of the key followed by
/// the quoting enclave's authentication data.
pub open spec fn spec_check_qe_binding(auth: AuthDataV3View) -> Result<(), Error> {
    if spec_sha256(auth.ecdsa_attestation_key + auth.qe_auth_data) == spec_enclave_report(
        auth.qe_report,
    ).report_data.subrange(0, 32) {
        Ok(())
    } else {
        Err(Error::QEReportHashMismatch)
    }
}

/// The attestation key signed the quote: the raw signature is valid for the
/// header and the enclave report, the first 432 bytes of the quote, under
/// the key as an uncompressed point. A quote of fewer bytes is malformed.
pub open spec fn spec_check_quote_signature(raw_quote: Seq<u8>, auth: AuthDataV3View) -> Result<
    (),
    Error,
> {
    if raw_quote.len() < 432 {
        Err(Error::CodecError)
    } else if spec_ecdsa_p256_sha256_valid(
        seq![4u8] + auth.ecdsa_attestation_key,
        raw_quote.subrange(0, 432),
        auth.ecdsa_signature,
    ) {
        Ok(())
    } else {
        Err(Error::IsvEnclaveReportSignatureIsInvalid)
    }
}

/// The security versions of the platform that a leaf certificate certifies,
/// of the CPU and of the PCE, where the platform identifier of the
/// certificate is the one that `fmspc` spells in hexadecimal.
pub open spec fn spec_platform(leaf: Seq<u8>, fmspc: Seq<char>) -> Result<(Seq<u8>, u16), Error> {
    match spec_intel_extension(leaf) {
        Err(e) => Err(e),
        Ok(extension) => match spec_cpu_svn(extension) {
            Err(e) => Err(e),
            Ok(cpu_svn) => match spec_pce_svn(extension) {
                Err(e) => Err(e),
                Ok(pce_svn) => match spec_fmspc(extension) {
                    Err(e) => Err(e),
                    Ok(found) => match spec_hex_decode(fmspc) {
                        None => Err(Error::CodecError),
                        Some(expected) => if found == expected {
                            Ok((cpu_svn, pce_svn))
                        } else {
                            Err(Error::FmspcMismatch)
                        },
                    },
                },
            },
        },
    }
}

/// The identity of an enclave in one string: its measurement, its product id
/// and its security version, both most significant byte first, and the
/// measurement of its signer.
pub open spec fn spec_tcb_hash(report: EnclaveReportView) -> Seq<u8> {
    report.mr_enclave + spec_u16_be_bytes(report.isv_prod_id) + spec_u16_be_bytes(report.isv_svn)
        + report.mr_signer
}

/// The result of verifying `raw_quote` with its collateral against a trust
/// anchor at `now`, in seconds since the Unix epoch: the verdict, or the
/// first check that fails. The checks, in their order:
///
/// - the quote decodes, and the advisory document is usable at `now`;
/// - the issuer chain of the document is valid, and its leaf signed the text
///   of the document;
/// - the quote is of the supported version, key type and certification data
///   type;
/// - the certificate chain in the quote is valid;
/// - its leaf signed the report of the quoting enclave;
/// - that report vouches for the attestation key;
/// - the attestation key signed the quote;
/// - the leaf certifies a platform of the model that the document is for.
///
/// The security versions of that platform then decide status and advisories.
pub open spec fn spec_verify(
    anchor: TrustAnchorView,
    raw_quote: Seq<u8>,
    collateral: SgxV30QuoteCollateralView,
    tcb_info: TcbInfoView,
    now: u64,
) -> Result<Verdict, Error> {
    match spec_quote(raw_quote) {
        Err(_) => Err(Error::CodecError),
        Ok(quote) => match spec_check_tcb_info(tcb_info, collateral.tcb_info, now) {
            Err(e) => Err(e),
            Ok(()) => match spec_check_chain(
                anchor,
                encode_utf8(collateral.tcb_info_issuer_chain),
                now,
            ) {
                Err(e) => Err(e),
                Ok(issuer) => match spec_check_cert_signature(
                    issuer,
                    encode_utf8(collateral.tcb_info),
                    collateral.tcb_info_signature,
                ) {
                    Err(e) => Err(e),
                    Ok(()) => match spec_supported_auth_data(quote) {
                        Err(e) => Err(e),
                        Ok(auth) => spec_verify_auth_data(anchor, raw_quote, quote, auth, tcb_info, now),
                    },
                },
            },
        },
    }
}

/// The second half of [`spec_verify`]: the checks on the authentication data
/// of a quote of the supported kind, and the verdict.
pub open spec fn spec_verify_auth_data(
    anchor: TrustAnchorView,
    raw_quote: Seq<u8>,
    quote: QuoteView,
    auth: AuthDataV3View,
    tcb_info: TcbInfoView,
    now: u64,
) -> Result<Verdict, Error> {
    match spec_check_chain(anchor, auth.certification_data.body, now) {
        Err(e) => Err(e),
        Ok(leaf) => match spec_check_cert_signature(
            leaf,
            auth.qe_report,
            auth.qe_report_signature,
        ) {
            Err(e) => Err(e),
            Ok(()) => match spec_check_qe_binding(auth) {
                Err(e) => Err(e),
                Ok(()) => match spec_check_quote_signature(raw_quote, auth) {
                    Err(e) => Err(e),
                    Ok(()) => match spec_platform(leaf, tcb_info.fmspc) {
                        Err(e) => Err(e),
                        Ok((cpu_svn, pce_svn)) => {
                            let verdict = spec_tcb_verdict(cpu_svn, pce_svn, tcb_info.tcb_levels);
                            Ok(
                                Verdict {
                                    report_data: quote.report.report_data,
                                    tcb_hash: spec_tcb_hash(quote.report),
                                    tcb_status: verdict.0,
                                    advisory_ids: verdict.1,
                                    mr_enclave: quote.report.mr_enclave,
                                    mr_signer: quote.report.mr_signer,
                                },
                            )
                        },
                    },
                },
            },
        },
    }
}

/// Whether `r` is what the verification of the given input yields: the first
/// check that fails, or a verdict with the views that [`spec_verify`] gives.
pub open spec fn spec_is_result(
    r: Result<([u8; 64], Vec<u8>, String, Vec<String>, [u8; 32], [u8; 32]), Error>,
    anchor: TrustAnchorView,
    raw_quote: Seq<u8>,
    collateral: SgxV30QuoteCollateralView,
    tcb_info: TcbInfoView,
    now: u64,
) -> bool {
    match r {
        Ok(t) => spec_verify(anchor, raw_quote, collateral, tcb_info, now) == Ok::<Verdict, Error>(
            spec_verdict_of(t),
        ),
        Err(e) => spec_verify(anchor, raw_quote, collateral, tcb_info, now) == Err::<
            Verdict,
            Error,
        >(e),
    }
}

/// Checks that the advisory document is usable at `now`.
///
/// `text` is the document as it was signed, and `tcb_info` what it says.
pub fn check_tcb_info(tcb_info: &TcbInfo, text: &str, now: u64) -> (r: Result<(), Error>)
    ensures
        r == spec_check_tcb_info(tcb_info@, text@, now),
        r is Ok ==> now < 0x1_0000_0000_0000,
{
    if !tcb_info.is_well_formed() {
        return Err(Error::CodecError);
    }
    if text.as_bytes().len() as u64 >= MAX_MESSAGE_LEN {
        return Err(Error::CodecError);
    }
    match rfc3339_timestamp(tcb_info.next_update.as_str()) {
        None => Err(Error::CodecError),
        Some(next_update) => {
            if next_update < 0 || now > next_update as u64 {
                Err(Error::TCBInfoExpired)
            } else {
                Ok(())
            }
        },
    }
}

/// Checks that a quote is of the supported version, key type and
/// certification data type, and hands out its authentication data.
pub fn supported_auth_data(quote: &Quote) -> (r: Result<&AuthDataV3, Error>)
    ensures
        match r {
            Ok(auth) => spec_supported_auth_data(quote@) == Ok::<AuthDataV3View, Error>(auth@),
            Err(e) => spec_supported_auth_data(quote@) == Err::<AuthDataV3View, Error>(e),
        },
{
    if quote.header.version != QUOTE_VERSION_V3 {
        return Err(Error::UnsupportedDCAPQuoteVersion);
    }
    if quote.header.attestation_key_type != ATTESTATION_KEY_TYPE_ECDSA256_WITH_P256_CURVE {
        return Err(Error::UnsupportedDCAPAttestationKeyType);
    }
    match &quote.auth_data {
        AuthData::Unsupported(_) => Err(Error::UnsupportedQuoteAuthData),
        AuthData::V3(auth) => {
            if auth.certification_data.cert_type != PCK_ID_PCK_CERT_CHAIN {
                Err(Error::UnsupportedDCAPPckCertFormat)
            } else {
                Ok(auth)
            }
        },
    }
}

/// Checks that the report of the quoting enclave vouches for the
/// attestation key.
pub fn check_qe_binding(auth: &AuthDataV3) -> (r: Result<(), Error>)
    requires
        auth@.qe_auth_data.len() < MAX_MESSAGE_LEN - 64,
    ensures
        r == spec_check_qe_binding(auth@),
{
    let qe_report: EnclaveReport = match EnclaveReport::decode(auth.qe_report.as_slice()) {
        Ok(report) => report,
        Err(_) => {
            return Err(Error::CodecError);
        },
    };
    let mut qe_hash_data: Vec<u8> = Vec::new();
    append(&mut qe_hash_data, auth.ecdsa_attestation_key.as_slice());
    append(&mut qe_hash_data, auth.qe_auth_data.as_slice());
    assert(qe_hash_data@ =~= auth@.ecdsa_attestation_key + auth@.qe_auth_data);
    let qe_hash: Vec<u8> = sha256(qe_hash_data.as_slice());
    let bound = slice_subrange(qe_report.report_data.as_slice(), 0, 32);
    if bytes_eq(qe_hash.as_slice(), bound) {
        Ok(())
    } else {
        Err(Error::QEReportHashMismatch)
    }
}

/// Checks that the attestation key signed the header and the enclave report
/// of a quote.
pub fn check_quote_signature(raw_quote: &[u8], auth: &AuthDataV3) -> (r: Result<(), Error>)
    ensures
        r == spec_check_quote_signature(raw_quote@, auth@),
{
    if raw_quote.len() < SIGNED_QUOTE_BYTE_LEN {
        return Err(Error::CodecError);
    }
    let mut pub_key: Vec<u8> = Vec::new();
    pub_key.push(4u8);
    append(&mut pub_key, auth.ecdsa_attestation_key.as_slice());
    assert(pub_key@ =~= seq![4u8] + auth@.ecdsa_attestation_key);
    let signed = slice_subrange(raw_quote, 0, SIGNED_QUOTE_BYTE_LEN);
    if ecdsa_p256_sha256_valid(pub_key.as_slice(), signed, auth.ecdsa_signature.as_slice()) {
        Ok(())
    } else {
        Err(Error::IsvEnclaveReportSignatureIsInvalid)
    }
}

/// Reads out of a leaf certificate the security versions of the platform,
/// of the CPU and of the PCE, and checks that the platform is of the model
/// that `fmspc` spells in hexadecimal.
pub fn platform_of(leaf_cert: &[u8], fmspc: &str) -> (r: Result<([u8; 16], u16), Error>)
    ensures
        match r {
            Ok((cpu_svn, pce_svn)) => spec_platform(leaf_cert@, fmspc@) == Ok::<
                (Seq<u8>, u16),
                Error,
            >((cpu_svn@, pce_svn)),
            Err(e) => spec_platform(leaf_cert@, fmspc@) == Err::<(Seq<u8>, u16), Error>(e),
        },
{
    let extension_section: Vec<u8> = match get_intel_extension(leaf_cert) {
        Ok(v) => v,
        Err(e) => {
            return Err(e);
        },
    };
    let cpu_svn: [u8; 16] = match get_cpu_svn(extension_section.as_slice()) {
        Ok(v) => v,
        Err(e) => {
            return Err(e);
        },
    };
    let pce_svn: u16 = match get_pce_svn(extension_section.as_slice()) {
        Ok(v) => v,
        Err(e) => {
            return Err(e);
        },
    };
    let found: [u8; 6] = match get_fmspc(extension_section.as_slice()) {
        Ok(v) => v,
        Err(e) => {
            return Err(e);
        },
    };
    let expected: Vec<u8> = match hex_decode(fmspc) {
        Some(v) => v,
        None => {
            return Err(Error::CodecError);
        },
    };
    if !bytes_eq(found.as_slice(), expected.as_slice()) {
        return Err(Error::FmspcMismatch);
    }
    Ok((cpu_svn, pce_svn))
}

/// Writes the identity of an enclave in one string.
pub fn tcb_hash(report: &EnclaveReport) -> (r: Vec<u8>)
    ensures
        r@ == spec_tcb_hash(report@),
{
    let mut out: Vec<u8> = Vec::new();
    append(&mut out, report.mr_enclave.as_slice());
    append_u16_be(&mut out, report.isv_prod_id);
    append_u16_be(&mut out, report.isv_svn);
    append(&mut out, report.mr_signer.as_slice());
    assert(out@ =~= spec_tcb_hash(report@));
    out
}

/// Verifies a quote against a trust anchor.
///
/// `tcb_info` is what the advisory document in `quote_collateral` says, and
/// `now` the current time in seconds since the Unix epoch. The result is the
/// data that the enclave bound into its report, the identity of the enclave
/// in one string, the trust status of the platform, the advisories that
/// apply to it, and the measurements of the enclave and of its signer; or
/// the first check that failed.
pub fn verify_with_trust_anchor(
    anchor: &TrustAnchor,
    raw_quote: &[u8],
    quote_collateral: &SgxV30QuoteCollateral,
    tcb_info: &TcbInfo,
    now: u64,
) -> (r: Result<([u8; 64], Vec<u8>, String, Vec<String>, [u8; 32], [u8; 32]), Error>)
    ensures
        spec_is_result(r, anchor@, raw_quote@, quote_collateral@, tcb_info@, now),
{
    let quote: Quote = match Quote::decode(raw_quote) {
        Ok((quote, _)) => quote,
        Err(_) => {
            return Err(Error::CodecError);
        },
    };
    match check_tcb_info(tcb_info, quote_collateral.tcb_info.as_str(), now) {
        Ok(()) => {},
        Err(e) => {
            return Err(e);
        },
    }
    let now_in_milli: u64 = now * 1000;

    let issuer_certs: Vec<Vec<u8>> = match check_certificate_chain(
        anchor,
        quote_collateral.tcb_info_issuer_chain.as_str().as_bytes(),
        now_in_milli,
    ) {
        Ok(certs) => certs,
        Err(e) => {
            return Err(e);
        },
    };
    match verify_leaf_signature(
        issuer_certs[0].as_slice(),
        quote_collateral.tcb_info.as_str().as_bytes(),
        quote_collateral.tcb_info_signature.as_slice(),
    ) {
        Ok(()) => {},
        Err(e) => {
            return Err(e);
        },
    }

    let auth_data: &AuthDataV3 = match supported_auth_data(&quote) {
        Ok(auth) => auth,
        Err(e) => {
            return Err(e);
        },
    };

    let certification_certs: Vec<Vec<u8>> = match check_certificate_chain(
        anchor,
        auth_data.certification_data.body.as_slice(),
        now_in_milli,
    ) {
        Ok(certs) => certs,
        Err(e) => {
            return Err(e);
        },
    };
    match verify_leaf_signature(
        certification_certs[0].as_slice(),
        auth_data.qe_report.as_slice(),
        auth_data.qe_report_signature.as_slice(),
    ) {
        Ok(()) => {},
        Err(e) => {
            return Err(e);
        },
    }
    match check_qe_binding(auth_data) {
        Ok(()) => {},
        Err(e) => {
            return Err(e);
        },
    }
    match check_quote_signature(raw_quote, auth_data) {
        Ok(()) => {},
        Err(e) => {
            return Err(e);
        },
    }

    let (cpu_svn, pce_svn) = match platform_of(
        certification_certs[0].as_slice(),
        tcb_info.fmspc.as_str(),
    ) {
        Ok(platform) => platform,
        Err(e) => {
            return Err(e);
        },
    };
    let (tcb_status, advisory_ids) = match_tcb_levels(&cpu_svn, pce_svn, &tcb_info.tcb_levels);

    Ok(
        (
            quote.report.report_data,
            tcb_hash(&quote.report),
            tcb_status,
            advisory_ids,
            quote.report.mr_enclave,
            quote.report.mr_signer,
        ),
    )
}

/// Verifies a quote of a genuine platform: one whose certificates chain up
/// to the Intel SGX Root CA.
pub fn verify(
    raw_quote: &[u8],
    quote_collateral: &SgxV30QuoteCollateral,
    tcb_info: &TcbInfo,
    now: u64,
) -> (r: Result<([u8; 64], Vec<u8>, String, Vec<String>, [u8; 32], [u8; 32]), Error>)
    ensures
        spec_is_result(r, spec_intel_sgx_root(), raw_quote@, quote_collateral@, tcb_info@, now),
{
    let anchor: TrustAnchor = TrustAnchor::intel_sgx_root();
    verify_with_trust_anchor(&anchor, raw_quote, quote_collateral, tcb_info, now)
}

} // verus!
