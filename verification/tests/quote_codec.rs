use sgx_attestation::quote::AuthData;
use sgx_attestation::quote::AuthDataV3;
use sgx_attestation::quote::EnclaveReport;
use sgx_attestation::quote::Header;
use sgx_attestation::quote::Quote;
use sgx_attestation::DecodeError;

fn sample_header(version: u16) -> Vec<u8> {
    let mut out = Vec::new();
    out.extend_from_slice(&version.to_le_bytes());
    out.extend_from_slice(&2u16.to_le_bytes());
    out.extend_from_slice(&0x0403_0201u32.to_le_bytes());
    out.extend_from_slice(&0x0102u16.to_le_bytes());
    out.extend_from_slice(&0x0a0bu16.to_le_bytes());
    out.extend((0u8..16).map(|i| 0x10 + i));
    out.extend((0u8..20).map(|i| 0x40 + i));
    out
}

fn sample_report() -> Vec<u8> {
    (0..384u32).map(|i| (i % 251) as u8).collect()
}

fn sample_auth_block(qe_auth: &[u8], cert_type: u16, body: &[u8]) -> Vec<u8> {
    let mut out = Vec::new();
    out.extend(std::iter::repeat(0xA1u8).take(64));
    out.extend(std::iter::repeat(0xB2u8).take(64));
    out.extend((0..384u32).map(|i| (i % 7) as u8));
    out.extend(std::iter::repeat(0xC3u8).take(64));
    out.extend_from_slice(&(qe_auth.len() as u16).to_le_bytes());
    out.extend_from_slice(qe_auth);
    out.extend_from_slice(&cert_type.to_le_bytes());
    out.extend_from_slice(&(body.len() as u32).to_le_bytes());
    out.extend_from_slice(body);
    out
}

fn sample_quote(version: u16, block: &[u8]) -> Vec<u8> {
    let mut out = sample_header(version);
    out.extend(sample_report());
    out.extend_from_slice(&(block.len() as u32).to_le_bytes());
    out.extend_from_slice(block);
    out
}

#[test]
fn header_fields_are_little_endian() {
    let header = Header::decode(&sample_header(3)).unwrap();
    assert_eq!(header.version, 3);
    assert_eq!(header.attestation_key_type, 2);
    assert_eq!(header.tee_type, 0x0403_0201);
    assert_eq!(header.qe_svn, 0x0102);
    assert_eq!(header.pce_svn, 0x0a0b);
    assert_eq!(header.qe_vendor_id[0], 0x10);
    assert_eq!(header.qe_vendor_id[15], 0x1f);
    assert_eq!(header.user_data[0], 0x40);
    assert_eq!(header.user_data[19], 0x53);
}

#[test]
fn header_exact_bytes() {
    let mut bytes = vec![0u8; 48];
    bytes[0] = 0x34;
    bytes[1] = 0x12;
    bytes[4] = 0x78;
    bytes[5] = 0x56;
    bytes[6] = 0x34;
    bytes[7] = 0x12;
    let header = Header::decode(&bytes).unwrap();
    assert_eq!(header.version, 0x1234);
    assert_eq!(header.tee_type, 0x1234_5678);
}

#[test]
fn header_needs_48_bytes() {
    assert_eq!(Header::decode(&[0u8; 47]).unwrap_err(), DecodeError::UnexpectedEnd);
    assert!(Header::decode(&[0u8; 48]).is_ok());
    assert_eq!(Header::decode(&[]).unwrap_err(), DecodeError::UnexpectedEnd);
}

#[test]
fn report_fields_at_their_offsets() {
    let bytes = sample_report();
    let report = EnclaveReport::decode(&bytes).unwrap();
    assert_eq!(&report.cpu_svn[..], &bytes[0..16]);
    assert_eq!(report.misc_select, u32::from_le_bytes([16, 17, 18, 19]));
    assert_eq!(&report.attributes[..], &bytes[48..64]);
    assert_eq!(&report.mr_enclave[..], &bytes[64..96]);
    assert_eq!(&report.mr_signer[..], &bytes[128..160]);
    assert_eq!(report.isv_prod_id, u16::from_le_bytes([bytes[256], bytes[257]]));
    assert_eq!(report.isv_svn, u16::from_le_bytes([bytes[258], bytes[259]]));
    assert_eq!(&report.report_data[..], &bytes[320..384]);
}

#[test]
fn report_needs_384_bytes() {
    assert_eq!(EnclaveReport::decode(&[0u8; 383]).unwrap_err(), DecodeError::UnexpectedEnd);
    assert!(EnclaveReport::decode(&[0u8; 384]).is_ok());
}

#[test]
fn report_ignores_what_follows() {
    let mut bytes = sample_report();
    let first = EnclaveReport::decode(&bytes).unwrap();
    bytes.extend_from_slice(&[9, 9, 9]);
    let second = EnclaveReport::decode(&bytes).unwrap();
    assert_eq!(first.report_data, second.report_data);
    assert_eq!(first.mr_enclave, second.mr_enclave);
}

#[test]
fn auth_data_v3_fields() {
    let block = sample_auth_block(&[1, 2, 3], 5, b"chain");
    let auth = AuthDataV3::decode(&block).unwrap();
    assert_eq!(auth.ecdsa_signature, [0xA1u8; 64]);
    assert_eq!(auth.ecdsa_attestation_key, [0xB2u8; 64]);
    assert_eq!(&auth.qe_report[..], &block[128..512]);
    assert_eq!(auth.qe_report_signature, [0xC3u8; 64]);
    assert_eq!(auth.qe_auth_data, vec![1, 2, 3]);
    assert_eq!(auth.certification_data.cert_type, 5);
    assert_eq!(auth.certification_data.body, b"chain".to_vec());
}

#[test]
fn auth_data_v3_empty_variable_parts() {
    let block = sample_auth_block(&[], 1, &[]);
    assert_eq!(block.len(), 584);
    let auth = AuthDataV3::decode(&block).unwrap();
    assert!(auth.qe_auth_data.is_empty());
    assert_eq!(auth.certification_data.cert_type, 1);
    assert!(auth.certification_data.body.is_empty());
}

#[test]
fn auth_data_v3_truncated_fixed_part() {
    let block = sample_auth_block(&[], 5, &[]);
    assert_eq!(AuthDataV3::decode(&block[..577]).unwrap_err(), DecodeError::UnexpectedEnd);
    assert_eq!(AuthDataV3::decode(&[]).unwrap_err(), DecodeError::UnexpectedEnd);
}

#[test]
fn auth_data_v3_qe_auth_data_claims_too_much() {
    let block = sample_auth_block(&[7; 10], 5, &[]);
    assert_eq!(AuthDataV3::decode(&block[..587]).unwrap_err(), DecodeError::LengthOutOfBounds);
}

#[test]
fn auth_data_v3_truncated_certification_prefix() {
    let block = sample_auth_block(&[7; 10], 5, &[]);
    assert_eq!(block.len(), 594);
    assert_eq!(AuthDataV3::decode(&block[..593]).unwrap_err(), DecodeError::UnexpectedEnd);
    assert_eq!(AuthDataV3::decode(&block[..588]).unwrap_err(), DecodeError::UnexpectedEnd);
}

#[test]
fn auth_data_v3_body_claims_too_much() {
    let block = sample_auth_block(&[], 5, b"0123456789");
    assert_eq!(
        AuthDataV3::decode(&block[..block.len() - 1]).unwrap_err(),
        DecodeError::LengthOutOfBounds
    );
    let mut huge = sample_auth_block(&[], 5, &[]);
    let at = huge.len() - 4;
    huge[at..].copy_from_slice(&u32::MAX.to_le_bytes());
    assert_eq!(AuthDataV3::decode(&huge).unwrap_err(), DecodeError::LengthOutOfBounds);
}

#[test]
fn auth_data_v3_ignores_what_follows() {
    let mut block = sample_auth_block(&[1], 5, b"abc");
    block.extend_from_slice(&[0xEE; 5]);
    let auth = AuthDataV3::decode(&block).unwrap();
    assert_eq!(auth.certification_data.body, b"abc".to_vec());
}

#[test]
fn quote_version_3_is_taken_apart() {
    let block = sample_auth_block(&[4, 5], 5, b"pem");
    let bytes = sample_quote(3, &block);
    let (quote, taken) = Quote::decode(&bytes).unwrap();
    assert_eq!(taken, 48 + 384 + 4 + block.len());
    assert_eq!(taken, bytes.len());
    assert_eq!(quote.header.version, 3);
    assert_eq!(&quote.report.mr_enclave[..], &bytes[112..144]);
    assert_eq!(&quote.report.mr_signer[..], &bytes[176..208]);
    assert_eq!(&quote.report.report_data[..], &bytes[368..432]);
    match quote.auth_data {
        AuthData::V3(auth) => {
            assert_eq!(auth.qe_auth_data, vec![4, 5]);
            assert_eq!(auth.certification_data.body, b"pem".to_vec());
        }
        AuthData::Unsupported(_) => panic!("version 3 must be taken apart"),
    }
}

#[test]
fn quote_other_version_keeps_the_block() {
    let bytes = sample_quote(4, &[1, 2, 3, 4, 5]);
    let (quote, taken) = Quote::decode(&bytes).unwrap();
    assert_eq!(taken, 441);
    assert_eq!(quote.header.version, 4);
    match quote.auth_data {
        AuthData::Unsupported(raw) => assert_eq!(raw, vec![1, 2, 3, 4, 5]),
        AuthData::V3(_) => panic!("version 4 must not be taken apart"),
    }
}

#[test]
fn quote_ignores_what_follows() {
    let block = sample_auth_block(&[], 5, &[]);
    let mut bytes = sample_quote(3, &block);
    let exact = bytes.len();
    bytes.extend_from_slice(&[0xFF; 9]);
    let (_, taken) = Quote::decode(&bytes).unwrap();
    assert_eq!(taken, exact);
}

#[test]
fn quote_too_short_for_fixed_part() {
    let bytes = sample_quote(3, &sample_auth_block(&[], 5, &[]));
    assert_eq!(Quote::decode(&bytes[..435]).unwrap_err(), DecodeError::UnexpectedEnd);
    assert_eq!(Quote::decode(&bytes[..47]).unwrap_err(), DecodeError::UnexpectedEnd);
    assert_eq!(Quote::decode(&[]).unwrap_err(), DecodeError::UnexpectedEnd);
}

#[test]
fn quote_block_claims_too_much() {
    let bytes = sample_quote(4, &[1, 2, 3]);
    assert_eq!(
        Quote::decode(&bytes[..bytes.len() - 1]).unwrap_err(),
        DecodeError::LengthOutOfBounds
    );
    assert_eq!(Quote::decode(&bytes[..436]).unwrap_err(), DecodeError::LengthOutOfBounds);
}

#[test]
fn quote_version_3_with_malformed_block() {
    let bytes = sample_quote(3, &[0u8; 100]);
    assert_eq!(Quote::decode(&bytes).unwrap_err(), DecodeError::UnexpectedEnd);
    let mut block = sample_auth_block(&[], 5, &[]);
    block[576] = 0xFF;
    block[577] = 0xFF;
    let bytes = sample_quote(3, &block);
    assert_eq!(Quote::decode(&bytes).unwrap_err(), DecodeError::LengthOutOfBounds);
}

#[test]
fn quote_empty_block_of_other_version() {
    let bytes = sample_quote(0, &[]);
    let (quote, taken) = Quote::decode(&bytes).unwrap();
    assert_eq!(taken, 436);
    assert!(matches!(quote.auth_data, AuthData::Unsupported(ref raw) if raw.is_empty()));
}
