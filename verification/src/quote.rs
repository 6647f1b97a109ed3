//! The binary layout of a quote: header, enclave report, authentication data.
//!
//! Decoding checks the structure only. Which versions and key types are
//! acceptable is decided by the verification that follows.

use vstd::prelude::*;
use crate::bytes::read_array;
use crate::bytes::read_u16_le;
use crate::bytes::read_u32_le;
use crate::bytes::read_vec;
use crate::bytes::spec_u16_le;
use crate::bytes::spec_u32_le;
use crate::constants::AUTH_DATA_V3_FIXED_BYTE_LEN;
use crate::constants::CERTIFICATION_DATA_PREFIX_BYTE_LEN;
use crate::constants::ENCLAVE_REPORT_BYTE_LEN;
use crate::constants::HEADER_BYTE_LEN;
use crate::constants::QUOTE_VERSION_V3;
use crate::error::DecodeError;

verus! {

/// The fixed head of a quote.
#[derive(Clone, Debug)]
pub struct Header {
    pub version: u16,
    pub attestation_key_type: u16,
    pub tee_type: u32,
    pub qe_svn: u16,
    pub pce_svn: u16,
    pub qe_vendor_id: [u8; 16],
    pub user_data: [u8; 20],
}

pub ghost struct HeaderView {
    pub version: u16,
    pub attestation_key_type: u16,
    pub tee_type: u32,
    pub qe_svn: u16,
    pub pce_svn: u16,
    pub qe_vendor_id: Seq<u8>,
    pub user_data: Seq<u8>,
}

impl View for Header {
    type V = HeaderView;

    open spec fn view(&self) -> HeaderView {
        HeaderView {
            version: self.version,
            attestation_key_type: self.attestation_key_type,
            tee_type: self.tee_type,
            qe_svn: self.qe_svn,
            pce_svn: self.pce_svn,
            qe_vendor_id: self.qe_vendor_id@,
            user_data: self.user_data@,
        }
    }
}

/// What the hardware reports of an enclave.
#[derive(Clone, Debug)]
pub struct EnclaveReport {
    pub cpu_svn: [u8; 16],
    pub misc_select: u32,
    pub attributes: [u8; 16],
    pub mr_enclave: [u8; 32],
    pub mr_signer: [u8; 32],
    pub isv_prod_id: u16,
    pub isv_svn: u16,
    pub report_data: [u8; 64],
}

pub ghost struct EnclaveReportView {
    pub cpu_svn: Seq<u8>,
    pub misc_select: u32,
    pub attributes: Seq<u8>,
    pub mr_enclave: Seq<u8>,
    pub mr_signer: Seq<u8>,
    pub isv_prod_id: u16,
    pub isv_svn: u16,
    pub report_data: Seq<u8>,
}

impl View for EnclaveReport {
    type V = EnclaveReportView;

    open spec fn view(&self) -> EnclaveReportView {
        EnclaveReportView {
            cpu_svn: self.cpu_svn@,
            misc_select: self.misc_select,
            attributes: self.attributes@,
            mr_enclave: self.mr_enclave@,
            mr_signer: self.mr_signer@,
            isv_prod_id: self.isv_prod_id,
            isv_svn: self.isv_svn,
            report_data: self.report_data@,
        }
    }
}

/// The data that certifies the quoting enclave's key, with its type tag.
#[derive(Clone, Debug)]
pub struct CertificationData {
    pub cert_type: u16,
    pub body: Vec<u8>,
}

pub ghost struct CertificationDataView {
    pub cert_type: u16,
    pub body: Seq<u8>,
}

impl View for CertificationData {
    type V = CertificationDataView;

    open spec fn view(&self) -> CertificationDataView {
        CertificationDataView { cert_type: self.cert_type, body: self.body@ }
    }
}

/// The authentication data of a version-3 quote.
#[derive(Clone, Debug)]
pub struct AuthDataV3 {
    pub ecdsa_signature: [u8; 64],
    pub ecdsa_attestation_key: [u8; 64],
    pub qe_report: [u8; 384],
    pub qe_report_signature: [u8; 64],
    pub qe_auth_data: Vec<u8>,
    pub certification_data: CertificationData,
}

pub ghost struct AuthDataV3View {
    pub ecdsa_signature: Seq<u8>,
    pub ecdsa_attestation_key: Seq<u8>,
    pub qe_report: Seq<u8>,
    pub qe_report_signature: Seq<u8>,
    pub qe_auth_data: Seq<u8>,
    pub certification_data: CertificationDataView,
}

impl View for AuthDataV3 {
    type V = AuthDataV3View;

    open spec fn view(&self) -> AuthDataV3View {
        AuthDataV3View {
            ecdsa_signature: self.ecdsa_signature@,
            ecdsa_attestation_key: self.ecdsa_attestation_key@,
            qe_report: self.qe_report@,
            qe_report_signature: self.qe_report_signature@,
            qe_auth_data: self.qe_auth_data@,
            certification_data: self.certification_data@,
        }
    }
}

/// The authentication data of a quote, by the version in its header.
#[derive(Clone, Debug)]
pub enum AuthData {
    /// Version 3.
    V3(AuthDataV3),
    /// Any other version: the block as it stands in the quote.
    Unsupported(Vec<u8>),
}

pub ghost enum AuthDataView {
    V3(AuthDataV3View),
    Unsupported(Seq<u8>),
}

impl View for AuthData {
    type V = AuthDataView;

    open spec fn view(&self) -> AuthDataView {
        match self {
            AuthData::V3(a) => AuthDataView::V3(a@),
            AuthData::Unsupported(raw) => AuthDataView::Unsupported(raw@),
        }
    }
}

/// A decoded quote.
#[derive(Clone, Debug)]
pub struct Quote {
    pub header: Header,
    pub report: EnclaveReport,
    pub auth_data: AuthData,
}

pub ghost struct QuoteView {
    pub header: HeaderView,
    pub report: EnclaveReportView,
    pub auth_data: AuthDataView,
}

impl View for Quote {
    type V = QuoteView;

    open spec fn view(&self) -> QuoteView {
        QuoteView { header: self.header@, report: self.report@, auth_data: self.auth_data@ }
    }
}

/// The header that the first 48 bytes of `s` hold.
pub open spec fn spec_header(s: Seq<u8>) -> HeaderView {
    HeaderView {
        version: spec_u16_le(s, 0),
        attestation_key_type: spec_u16_le(s, 2),
        tee_type: spec_u32_le(s, 4),
        qe_svn: spec_u16_le(s, 8),
        pce_svn: spec_u16_le(s, 10),
        qe_vendor_id: s.subrange(12, 28),
        user_data: s.subrange(28, 48),
    }
}

/// The enclave report that the first 384 bytes of `s` hold. The bytes
/// between the fields are reserved and not kept.
pub open spec fn spec_enclave_report(s: Seq<u8>) -> EnclaveReportView {
    EnclaveReportView {
        cpu_svn: s.subrange(0, 16),
        misc_select: spec_u32_le(s, 16),
        attributes: s.subrange(48, 64),
        mr_enclave: s.subrange(64, 96),
        mr_signer: s.subrange(128, 160),
        isv_prod_id: spec_u16_le(s, 256),
        isv_svn: spec_u16_le(s, 258),
        report_data: s.subrange(320, 384),
    }
}

/// Where the certification data starts in a version-3 authentication block.
pub open spec fn spec_certification_offset(block: Seq<u8>) -> int {
    578 + spec_u16_le(block, 576) as int
}

/// A version-3 authentication block: four fixed fields, then the quoting
/// enclave's authentication data behind a 16-bit length, then the
/// certification data as a 16-bit type and a body behind a 32-bit length.
/// Bytes behind the certification data are not read.
pub open spec fn spec_auth_data_v3(block: Seq<u8>) -> Result<AuthDataV3View, DecodeError> {
    let at = spec_certification_offset(block);
    let body_len = spec_u32_le(block, at + 2) as int;
    if block.len() < 578 {
        Err(DecodeError::UnexpectedEnd)
    } else if block.len() < at {
        Err(DecodeError::LengthOutOfBounds)
    } else if block.len() < at + 6 {
        Err(DecodeError::UnexpectedEnd)
    } else if block.len() < at + 6 + body_len {
        Err(DecodeError::LengthOutOfBounds)
    } else {
        Ok(
            AuthDataV3View {
                ecdsa_signature: block.subrange(0, 64),
                ecdsa_attestation_key: block.subrange(64, 128),
                qe_report: block.subrange(128, 512),
                qe_report_signature: block.subrange(512, 576),
                qe_auth_data: block.subrange(578, at),
                certification_data: CertificationDataView {
                    cert_type: spec_u16_le(block, at),
                    body: block.subrange(at + 6, at + 6 + body_len),
                },
            },
        )
    }
}

/// The number of bytes that a quote at the start of `s` takes: header,
/// report, and the authentication block with its length prefix.
pub open spec fn spec_quote_len(s: Seq<u8>) -> int {
    436 + spec_u32_le(s, 432) as int
}

/// The quote at the start of `s`. The authentication block is taken apart
/// where the header's version is 3 and kept whole otherwise. Bytes behind
/// the quote are not read.
pub open spec fn spec_quote(s: Seq<u8>) -> Result<QuoteView, DecodeError> {
    let block = s.subrange(436, spec_quote_len(s));
    if s.len() < 436 {
        Err(DecodeError::UnexpectedEnd)
    } else if s.len() < spec_quote_len(s) {
        Err(DecodeError::LengthOutOfBounds)
    } else if spec_header(s).version == 3 {
        match spec_auth_data_v3(block) {
            Ok(auth) => Ok(
                QuoteView {
                    header: spec_header(s),
                    report: spec_enclave_report(s.subrange(48, 432)),
                    auth_data: AuthDataView::V3(auth),
                },
            ),
            Err(e) => Err(e),
        }
    } else {
        Ok(
            QuoteView {
                header: spec_header(s),
                report: spec_enclave_report(s.subrange(48, 432)),
                auth_data: AuthDataView::Unsupported(block),
            },
        )
    }
}

impl Header {
    /// Decodes the header at the start of `input`.
    pub fn decode(input: &[u8]) -> (r: Result<Header, DecodeError>)
        ensures
            input@.len() >= 48 ==> r is Ok && r->Ok_0@ == spec_header(input@),
            input@.len() < 48 ==> r == Err::<Header, DecodeError>(DecodeError::UnexpectedEnd),
    {
        if input.len() < HEADER_BYTE_LEN {
            return Err(DecodeError::UnexpectedEnd);
        }
        Ok(
            Header {
                version: read_u16_le(input, 0),
                attestation_key_type: read_u16_le(input, 2),
                tee_type: read_u32_le(input, 4),
                qe_svn: read_u16_le(input, 8),
                pce_svn: read_u16_le(input, 10),
                qe_vendor_id: read_array::<16>(input, 12),
                user_data: read_array::<20>(input, 28),
            },
        )
    }
}

impl EnclaveReport {
    /// Decodes the enclave report at the start of `input`.
    pub fn decode(input: &[u8]) -> (r: Result<EnclaveReport, DecodeError>)
        ensures
            input@.len() >= 384 ==> r is Ok && r->Ok_0@ == spec_enclave_report(input@),
            input@.len() < 384 ==> r == Err::<EnclaveReport, DecodeError>(
                DecodeError::UnexpectedEnd,
            ),
    {
        if input.len() < ENCLAVE_REPORT_BYTE_LEN {
            return Err(DecodeError::UnexpectedEnd);
        }
        Ok(
            EnclaveReport {
                cpu_svn: read_array::<16>(input, 0),
                misc_select: read_u32_le(input, 16),
                attributes: read_array::<16>(input, 48),
                mr_enclave: read_array::<32>(input, 64),
                mr_signer: read_array::<32>(input, 128),
                isv_prod_id: read_u16_le(input, 256),
                isv_svn: read_u16_le(input, 258),
                report_data: read_array::<64>(input, 320),
            },
        )
    }
}

impl AuthDataV3 {
    /// Decodes a version-3 authentication block.
    pub fn decode(block: &[u8]) -> (r: Result<AuthDataV3, DecodeError>)
        ensures
            match r {
                Ok(a) => spec_auth_data_v3(block@) == Ok::<AuthDataV3View, DecodeError>(a@),
                Err(e) => spec_auth_data_v3(block@) == Err::<AuthDataV3View, DecodeError>(e),
            },
    {
        let len: usize = block.len();
        if len < AUTH_DATA_V3_FIXED_BYTE_LEN {
            return Err(DecodeError::UnexpectedEnd);
        }
        let qe_auth_len: usize = read_u16_le(block, 576) as usize;
        if len - AUTH_DATA_V3_FIXED_BYTE_LEN < qe_auth_len {
            return Err(DecodeError::LengthOutOfBounds);
        }
        let at: usize = AUTH_DATA_V3_FIXED_BYTE_LEN + qe_auth_len;
        if len - at < CERTIFICATION_DATA_PREFIX_BYTE_LEN {
            return Err(DecodeError::UnexpectedEnd);
        }
        let cert_type: u16 = read_u16_le(block, at);
        let body_len: u32 = read_u32_le(block, at + 2);
        let body_at: usize = at + CERTIFICATION_DATA_PREFIX_BYTE_LEN;
        if ((len - body_at) as u64) < body_len as u64 {
            return Err(DecodeError::LengthOutOfBounds);
        }
        let body_end: usize = body_at + body_len as usize;
        Ok(
            AuthDataV3 {
                ecdsa_signature: read_array::<64>(block, 0),
                ecdsa_attestation_key: read_array::<64>(block, 64),
                qe_report: read_array::<384>(block, 128),
                qe_report_signature: read_array::<64>(block, 512),
                qe_auth_data: read_vec(block, AUTH_DATA_V3_FIXED_BYTE_LEN, at),
                certification_data: CertificationData {
                    cert_type,
                    body: read_vec(block, body_at, body_end),
                },
            },
        )
    }
}

impl Quote {
    /// Decodes the quote at the start of `input` and says how many bytes it
    /// took.
    pub fn decode(input: &[u8]) -> (r: Result<(Quote, usize), DecodeError>)
        ensures
            match r {
                Ok((quote, taken)) => spec_quote(input@) == Ok::<QuoteView, DecodeError>(quote@)
                    && taken == spec_quote_len(input@),
                Err(e) => spec_quote(input@) == Err::<QuoteView, DecodeError>(e),
            },
    {
        let len: usize = input.len();
        if len < HEADER_BYTE_LEN + ENCLAVE_REPORT_BYTE_LEN + 4 {
            return Err(DecodeError::UnexpectedEnd);
        }
        let block_len: u32 = read_u32_le(input, 432);
        if ((len - 436) as u64) < block_len as u64 {
            return Err(DecodeError::LengthOutOfBounds);
        }
        let end: usize = 436 + block_len as usize;
        let header = match Header::decode(input) {
            Ok(h) => h,
            Err(e) => { return Err(e); },
        };
        let report_bytes = vstd::slice::slice_subrange(input, 48, 432);
        let report = match EnclaveReport::decode(report_bytes) {
            Ok(r) => r,
            Err(e) => { return Err(e); },
        };
        let block = vstd::slice::slice_subrange(input, 436, end);
        if header.version == QUOTE_VERSION_V3 {
            match AuthDataV3::decode(block) {
                Ok(auth) => Ok((Quote { header, report, auth_data: AuthData::V3(auth) }, end)),
                Err(e) => Err(e),
            }
        } else {
            let raw = read_vec(block, 0, block.len());
            assert(raw@ =~= block@);
            Ok((Quote { header, report, auth_data: AuthData::Unsupported(raw) }, end))
        }
    }
}

/// A quote is decoded from the bytes that it takes and from no others: the
/// bytes up to its length decode to the same quote, whatever stood behind
/// them.
pub proof fn law_quote_is_its_own_bytes(s: Seq<u8>)
    requires
        spec_quote(s) is Ok,
    ensures
        436 <= spec_quote_len(s) <= s.len(),
        spec_quote(s.subrange(0, spec_quote_len(s))) == spec_quote(s),
{
    let len = spec_quote_len(s);
    let own = s.subrange(0, len);
    assert(spec_quote_len(own) == len);
    assert(own.subrange(436, len) =~= s.subrange(436, len));
    assert(own.subrange(48, 432) =~= s.subrange(48, 432));
    assert(own.subrange(12, 28) =~= s.subrange(12, 28));
    assert(own.subrange(28, 48) =~= s.subrange(28, 48));
    assert(spec_header(own) == spec_header(s));
}

} // verus!
