//! What holds of every verification, stated over [`spec_verify`].

use vstd::prelude::*;
use vstd::utf8::encode_utf8;
use crate::chain::spec_check_cert_signature;
use crate::chain::spec_check_chain;
use crate::chain::TrustAnchorView;
use crate::der::spec_der_signature;
use crate::error::Error;
use crate::extension::lemma_extension_errors;
use crate::extension::spec_cpu_svn;
use crate::extension::spec_fmspc;
use crate::extension::spec_intel_extension;
use crate::extension::spec_pce_svn;
use crate::primitives::spec_cert_signature_valid;
use crate::primitives::spec_ecdsa_p256_sha256_valid;
use crate::primitives::spec_hex_decode;
use crate::primitives::spec_pem_contents;
use crate::primitives::spec_rfc3339_timestamp;
use crate::primitives::MAX_MESSAGE_LEN;
use crate::quote::spec_quote;
use crate::quote::AuthDataV3View;
use crate::quote::QuoteView;
use crate::tcb_info::law_first_matching_level_decides;
use crate::tcb_info::law_no_matching_level_is_unknown;
use crate::tcb_info::spec_level_matches;
use crate::tcb_info::TcbInfoView;
use crate::attestation::spec_check_qe_binding;
use crate::attestation::spec_is_result;
use crate::attestation::spec_check_quote_signature;
use crate::attestation::spec_check_tcb_info;
use crate::attestation::spec_platform;
use crate::attestation::spec_supported_auth_data;
use crate::attestation::spec_verdict_of;
use crate::attestation::spec_verify;
use crate::attestation::SgxV30QuoteCollateralView;
use crate::attestation::Verdict;

verus! {

/// A quote that passes every check is accepted, and the verdict speaks of
/// that quote: the measurements of the enclave and of its signer, and the
/// data that the enclave bound, are the bytes of the report in the quote.
/// Where the platform meets level `k` of the advisory document and none
/// before it, status and advisories are those of level `k`.
pub proof fn law_valid_quote_is_accepted(
    anchor: TrustAnchorView,
    raw_quote: Seq<u8>,
    collateral: SgxV30QuoteCollateralView,
    tcb_info: TcbInfoView,
    now: u64,
    quote: QuoteView,
    auth: AuthDataV3View,
    issuer: Seq<u8>,
    leaf: Seq<u8>,
    cpu_svn: Seq<u8>,
    pce_svn: u16,
    k: int,
)
    requires
        spec_quote(raw_quote) == Ok::<QuoteView, crate::error::DecodeError>(quote),
        spec_check_tcb_info(tcb_info, collateral.tcb_info, now) is Ok,
        spec_check_chain(anchor, encode_utf8(collateral.tcb_info_issuer_chain), now) == Ok::<
            Seq<u8>,
            Error,
        >(issuer),
        spec_check_cert_signature(
            issuer,
            encode_utf8(collateral.tcb_info),
            collateral.tcb_info_signature,
        ) is Ok,
        spec_supported_auth_data(quote) == Ok::<AuthDataV3View, Error>(auth),
        spec_check_chain(anchor, auth.certification_data.body, now) == Ok::<Seq<u8>, Error>(leaf),
        spec_check_cert_signature(leaf, auth.qe_report, auth.qe_report_signature) is Ok,
        spec_check_qe_binding(auth) is Ok,
        spec_check_quote_signature(raw_quote, auth) is Ok,
        spec_platform(leaf, tcb_info.fmspc) == Ok::<(Seq<u8>, u16), Error>((cpu_svn, pce_svn)),
        0 <= k < tcb_info.tcb_levels.len(),
        spec_level_matches(cpu_svn, pce_svn, tcb_info.tcb_levels[k]),
        forall|j: int| 0 <= j < k ==> !spec_level_matches(cpu_svn, pce_svn, tcb_info.tcb_levels[j]),
    ensures
        spec_verify(anchor, raw_quote, collateral, tcb_info, now) is Ok,
        ({
            let verdict = spec_verify(anchor, raw_quote, collateral, tcb_info, now)->Ok_0;
            &&& verdict.mr_enclave == raw_quote.subrange(112, 144)
            &&& verdict.mr_signer == raw_quote.subrange(176, 208)
            &&& verdict.report_data == raw_quote.subrange(368, 432)
            &&& verdict.tcb_status == tcb_info.tcb_levels[k].tcb_status
            &&& verdict.advisory_ids == tcb_info.tcb_levels[k].advisory_ids
            &&& tcb_info.tcb_levels[k].tcb_status != "Unknown"@ ==> verdict.tcb_status
                != "Unknown"@
        }),
{
    law_first_matching_level_decides(cpu_svn, pce_svn, tcb_info.tcb_levels, k);
    let report = raw_quote.subrange(48, 432);
    assert(report.subrange(64, 96) =~= raw_quote.subrange(112, 144));
    assert(report.subrange(128, 160) =~= raw_quote.subrange(176, 208));
    assert(report.subrange(320, 384) =~= raw_quote.subrange(368, 432));
}

/// A quote that passes every check on a platform that meets no level of the
/// advisory document is accepted all the same, with the status "Unknown" and
/// no advisory.
pub proof fn law_unmatched_platform_is_unknown(
    anchor: TrustAnchorView,
    raw_quote: Seq<u8>,
    collateral: SgxV30QuoteCollateralView,
    tcb_info: TcbInfoView,
    now: u64,
    quote: QuoteView,
    auth: AuthDataV3View,
    issuer: Seq<u8>,
    leaf: Seq<u8>,
    cpu_svn: Seq<u8>,
    pce_svn: u16,
)
    requires
        spec_quote(raw_quote) == Ok::<QuoteView, crate::error::DecodeError>(quote),
        spec_check_tcb_info(tcb_info, collateral.tcb_info, now) is Ok,
        spec_check_chain(anchor, encode_utf8(collateral.tcb_info_issuer_chain), now) == Ok::<
            Seq<u8>,
            Error,
        >(issuer),
        spec_check_cert_signature(
            issuer,
            encode_utf8(collateral.tcb_info),
            collateral.tcb_info_signature,
        ) is Ok,
        spec_supported_auth_data(quote) == Ok::<AuthDataV3View, Error>(auth),
        spec_check_chain(anchor, auth.certification_data.body, now) == Ok::<Seq<u8>, Error>(leaf),
        spec_check_cert_signature(leaf, auth.qe_report, auth.qe_report_signature) is Ok,
        spec_check_qe_binding(auth) is Ok,
        spec_check_quote_signature(raw_quote, auth) is Ok,
        spec_platform(leaf, tcb_info.fmspc) == Ok::<(Seq<u8>, u16), Error>((cpu_svn, pce_svn)),
        forall|j: int|
            0 <= j < tcb_info.tcb_levels.len() ==> !spec_level_matches(
                cpu_svn,
                pce_svn,
                tcb_info.tcb_levels[j],
            ),
    ensures
        spec_verify(anchor, raw_quote, collateral, tcb_info, now) is Ok,
        spec_verify(anchor, raw_quote, collateral, tcb_info, now)->Ok_0.tcb_status == "Unknown"@,
        spec_verify(anchor, raw_quote, collateral, tcb_info, now)->Ok_0.advisory_ids.len() == 0,
{
    law_no_matching_level_is_unknown(cpu_svn, pce_svn, tcb_info.tcb_levels);
}

/// A quote that decodes, with a well-formed advisory document whose next
/// update lies before `now`, is refused as stale, whatever the certificates
/// and the signatures are.
pub proof fn law_stale_document_is_refused(
    anchor: TrustAnchorView,
    raw_quote: Seq<u8>,
    collateral: SgxV30QuoteCollateralView,
    tcb_info: TcbInfoView,
    now: u64,
    next_update: i64,
)
    requires
        spec_quote(raw_quote) is Ok,
        tcb_info.wf(),
        encode_utf8(collateral.tcb_info).len() < MAX_MESSAGE_LEN,
        spec_rfc3339_timestamp(tcb_info.next_update) == Some(next_update),
        now > next_update,
    ensures
        spec_verify(anchor, raw_quote, collateral, tcb_info, now) == Err::<Verdict, Error>(
            Error::TCBInfoExpired,
        ),
{
}

/// A chain of fewer than two certificates is refused as too short, whatever
/// the trust anchor, the time and the certificates are: nothing is parsed
/// and no path is searched.
pub proof fn law_short_chain_is_refused(
    anchor: TrustAnchorView,
    pem: Seq<u8>,
    seconds: u64,
    certs: Seq<Seq<u8>>,
)
    requires
        spec_pem_contents(pem) == Some(certs),
        certs.len() < 2,
    ensures
        spec_check_chain(anchor, pem, seconds) == Err::<Seq<u8>, Error>(
            Error::CertificateChainIsTooShort,
        ),
{
}

/// Where the issuer chain of the advisory document holds fewer than two
/// certificates, a quote that decodes, with a document usable at `now`, is
/// refused for that, whatever the signatures and the rest of the quote are.
pub proof fn law_short_issuer_chain_is_refused(
    anchor: TrustAnchorView,
    raw_quote: Seq<u8>,
    collateral: SgxV30QuoteCollateralView,
    tcb_info: TcbInfoView,
    now: u64,
    certs: Seq<Seq<u8>>,
)
    requires
        spec_quote(raw_quote) is Ok,
        spec_check_tcb_info(tcb_info, collateral.tcb_info, now) is Ok,
        spec_pem_contents(encode_utf8(collateral.tcb_info_issuer_chain)) == Some(certs),
        certs.len() < 2,
    ensures
        spec_verify(anchor, raw_quote, collateral, tcb_info, now) == Err::<Verdict, Error>(
            Error::CertificateChainIsTooShort,
        ),
{
}

/// Where the certificate chain in the quote holds fewer than two
/// certificates, a quote that passed the checks before that chain is refused
/// for it, whatever the signatures in the quote are.
pub proof fn law_short_quote_chain_is_refused(
    anchor: TrustAnchorView,
    raw_quote: Seq<u8>,
    collateral: SgxV30QuoteCollateralView,
    tcb_info: TcbInfoView,
    now: u64,
    quote: QuoteView,
    auth: AuthDataV3View,
    issuer: Seq<u8>,
    certs: Seq<Seq<u8>>,
)
    requires
        spec_quote(raw_quote) == Ok::<QuoteView, crate::error::DecodeError>(quote),
        spec_check_tcb_info(tcb_info, collateral.tcb_info, now) is Ok,
        spec_check_chain(anchor, encode_utf8(collateral.tcb_info_issuer_chain), now) == Ok::<
            Seq<u8>,
            Error,
        >(issuer),
        spec_check_cert_signature(
            issuer,
            encode_utf8(collateral.tcb_info),
            collateral.tcb_info_signature,
        ) is Ok,
        spec_supported_auth_data(quote) == Ok::<AuthDataV3View, Error>(auth),
        spec_pem_contents(auth.certification_data.body) == Some(certs),
        certs.len() < 2,
    ensures
        spec_verify(anchor, raw_quote, collateral, tcb_info, now) == Err::<Verdict, Error>(
            Error::CertificateChainIsTooShort,
        ),
{
}

/// An accepted quote carries three valid signatures: of the issuer's leaf
/// over the text of the advisory document, of the certified leaf over the
/// report of the quoting enclave, and of the attestation key over the header
/// and the report of the quote. So no change to a signature or to what it
/// covers is accepted unless the changed signature is valid for the changed
/// bytes.
pub proof fn law_accepted_quote_is_signed(
    anchor: TrustAnchorView,
    raw_quote: Seq<u8>,
    collateral: SgxV30QuoteCollateralView,
    tcb_info: TcbInfoView,
    now: u64,
)
    requires
        spec_verify(anchor, raw_quote, collateral, tcb_info, now) is Ok,
    ensures
        ({
            let auth = spec_supported_auth_data(spec_quote(raw_quote)->Ok_0)->Ok_0;
            let issuer = spec_check_chain(
                anchor,
                encode_utf8(collateral.tcb_info_issuer_chain),
                now,
            )->Ok_0;
            let leaf = spec_check_chain(anchor, auth.certification_data.body, now)->Ok_0;
            &&& spec_cert_signature_valid(
                issuer,
                encode_utf8(collateral.tcb_info),
                spec_der_signature(collateral.tcb_info_signature),
            )
            &&& spec_cert_signature_valid(
                leaf,
                auth.qe_report,
                spec_der_signature(auth.qe_report_signature),
            )
            &&& spec_ecdsa_p256_sha256_valid(
                seq![4u8] + auth.ecdsa_attestation_key,
                raw_quote.subrange(0, 432),
                auth.ecdsa_signature,
            )
        }),
{
}

/// Where the signature over the advisory document is of the right width but
/// not valid for the text under the key of the issuer's leaf, a quote that
/// passed the checks before it is refused for that signature.
pub proof fn law_forged_document_is_refused(
    anchor: TrustAnchorView,
    raw_quote: Seq<u8>,
    collateral: SgxV30QuoteCollateralView,
    tcb_info: TcbInfoView,
    now: u64,
    issuer: Seq<u8>,
)
    requires
        spec_quote(raw_quote) is Ok,
        spec_check_tcb_info(tcb_info, collateral.tcb_info, now) is Ok,
        spec_check_chain(anchor, encode_utf8(collateral.tcb_info_issuer_chain), now) == Ok::<
            Seq<u8>,
            Error,
        >(issuer),
        collateral.tcb_info_signature.len() == 64,
        !spec_cert_signature_valid(
            issuer,
            encode_utf8(collateral.tcb_info),
            spec_der_signature(collateral.tcb_info_signature),
        ),
    ensures
        spec_verify(anchor, raw_quote, collateral, tcb_info, now) == Err::<Verdict, Error>(
            Error::RsaSignatureIsInvalid,
        ),
{
}

/// Where the signature of the quote is not valid for its header and report
/// under the attestation key, a quote that passed the checks before it is
/// refused for that signature.
pub proof fn law_forged_quote_is_refused(
    anchor: TrustAnchorView,
    raw_quote: Seq<u8>,
    collateral: SgxV30QuoteCollateralView,
    tcb_info: TcbInfoView,
    now: u64,
    quote: QuoteView,
    auth: AuthDataV3View,
    issuer: Seq<u8>,
    leaf: Seq<u8>,
)
    requires
        spec_quote(raw_quote) == Ok::<QuoteView, crate::error::DecodeError>(quote),
        spec_check_tcb_info(tcb_info, collateral.tcb_info, now) is Ok,
        spec_check_chain(anchor, encode_utf8(collateral.tcb_info_issuer_chain), now) == Ok::<
            Seq<u8>,
            Error,
        >(issuer),
        spec_check_cert_signature(
            issuer,
            encode_utf8(collateral.tcb_info),
            collateral.tcb_info_signature,
        ) is Ok,
        spec_supported_auth_data(quote) == Ok::<AuthDataV3View, Error>(auth),
        spec_check_chain(anchor, auth.certification_data.body, now) == Ok::<Seq<u8>, Error>(leaf),
        spec_check_cert_signature(leaf, auth.qe_report, auth.qe_report_signature) is Ok,
        spec_check_qe_binding(auth) is Ok,
        !spec_ecdsa_p256_sha256_valid(
            seq![4u8] + auth.ecdsa_attestation_key,
            raw_quote.subrange(0, 432),
            auth.ecdsa_signature,
        ),
    ensures
        spec_verify(anchor, raw_quote, collateral, tcb_info, now) == Err::<Verdict, Error>(
            Error::IsvEnclaveReportSignatureIsInvalid,
        ),
{
}

/// The platform identifier of the certificate must be, byte for byte, the
/// one that the advisory document spells in hexadecimal: where both can be
/// read and differ, the platform is refused for the mismatch and for nothing
/// else.
pub proof fn law_fmspc_mismatch_is_refused(
    leaf: Seq<u8>,
    fmspc: Seq<char>,
    extension: Seq<u8>,
    found: Seq<u8>,
    expected: Seq<u8>,
)
    requires
        spec_intel_extension(leaf) == Ok::<Seq<u8>, Error>(extension),
        spec_cpu_svn(extension) is Ok,
        spec_pce_svn(extension) is Ok,
        spec_fmspc(extension) == Ok::<Seq<u8>, Error>(found),
        spec_hex_decode(fmspc) == Some(expected),
    ensures
        found != expected ==> spec_platform(leaf, fmspc) == Err::<(Seq<u8>, u16), Error>(
            Error::FmspcMismatch,
        ),
        found == expected ==> spec_platform(leaf, fmspc) is Ok,
{
}

/// An accepted quote comes from a platform of the model that the advisory
/// document is for: the platform identifier in the certified leaf is the one
/// that the document spells.
pub proof fn law_accepted_quote_has_the_fmspc_of_the_document(
    anchor: TrustAnchorView,
    raw_quote: Seq<u8>,
    collateral: SgxV30QuoteCollateralView,
    tcb_info: TcbInfoView,
    now: u64,
)
    requires
        spec_verify(anchor, raw_quote, collateral, tcb_info, now) is Ok,
    ensures
        ({
            let auth = spec_supported_auth_data(spec_quote(raw_quote)->Ok_0)->Ok_0;
            let leaf = spec_check_chain(anchor, auth.certification_data.body, now)->Ok_0;
            let extension = spec_intel_extension(leaf)->Ok_0;
            &&& spec_fmspc(extension) is Ok
            &&& spec_hex_decode(tcb_info.fmspc) == Some(spec_fmspc(extension)->Ok_0)
        }),
{
}

/// Verifying the same input at the same time twice gives the same result:
/// both calls fail with the same error, or both succeed with the same
/// verdict.
pub proof fn law_verification_is_repeatable(
    first: Result<([u8; 64], Vec<u8>, String, Vec<String>, [u8; 32], [u8; 32]), Error>,
    second: Result<([u8; 64], Vec<u8>, String, Vec<String>, [u8; 32], [u8; 32]), Error>,
    anchor: TrustAnchorView,
    raw_quote: Seq<u8>,
    collateral: SgxV30QuoteCollateralView,
    tcb_info: TcbInfoView,
    now: u64,
)
    requires
        spec_is_result(first, anchor, raw_quote, collateral, tcb_info, now),
        spec_is_result(second, anchor, raw_quote, collateral, tcb_info, now),
    ensures
        match (first, second) {
            (Ok(a), Ok(b)) => spec_verdict_of(a) == spec_verdict_of(b),
            (Err(a), Err(b)) => a == b,
            _ => false,
        },
{
}

/// The authentication data of a quote that decodes is taken apart exactly
/// where the version in its header is 3.
pub proof fn law_auth_data_follows_the_version(raw_quote: Seq<u8>)
    requires
        spec_quote(raw_quote) is Ok,
    ensures
        spec_quote(raw_quote)->Ok_0.auth_data is V3 <==> spec_quote(raw_quote)->Ok_0.header.version
            == 3,
{
}

/// So no quote is refused for the shape of its authentication data: one of
/// another version is refused for its version, and that comes first.
pub proof fn law_version_is_refused_before_auth_data(
    anchor: TrustAnchorView,
    raw_quote: Seq<u8>,
    collateral: SgxV30QuoteCollateralView,
    tcb_info: TcbInfoView,
    now: u64,
)
    ensures
        spec_verify(anchor, raw_quote, collateral, tcb_info, now) != Err::<Verdict, Error>(
            Error::UnsupportedQuoteAuthData,
        ),
{
    match spec_quote(raw_quote) {
        Err(_) => {},
        Ok(quote) => {
            law_auth_data_follows_the_version(raw_quote);
            assert(spec_supported_auth_data(quote) != Err::<AuthDataV3View, Error>(
                Error::UnsupportedQuoteAuthData,
            ));
            match spec_supported_auth_data(quote) {
                Err(_) => {},
                Ok(auth) => {
                    match spec_check_chain(anchor, auth.certification_data.body, now) {
                        Err(_) => {},
                        Ok(leaf) => {
                            match spec_intel_extension(leaf) {
                                Err(_) => {},
                                Ok(extension) => {
                                    lemma_extension_errors(extension);
                                },
                            }
                        },
                    }
                },
            }
        },
    }
}

} // verus!
