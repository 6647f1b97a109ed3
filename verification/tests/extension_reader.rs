use sgx_attestation::extension::get_cpu_svn;
use sgx_attestation::extension::get_fmspc;
use sgx_attestation::extension::get_intel_extension;
use sgx_attestation::extension::get_pce_svn;
use sgx_attestation::Error;

const SGX: [u8; 9] = [0x2A, 0x86, 0x48, 0x86, 0xF8, 0x4D, 0x01, 0x0D, 0x01];

fn tlv(tag: u8, content: &[u8]) -> Vec<u8> {
    let mut out = vec![tag];
    let len = content.len();
    if len < 128 {
        out.push(len as u8);
    } else if len < 256 {
        out.extend_from_slice(&[0x81, len as u8]);
    } else {
        out.extend_from_slice(&[0x82, (len >> 8) as u8, len as u8]);
    }
    out.extend_from_slice(content);
    out
}

fn seq(parts: &[Vec<u8>]) -> Vec<u8> {
    tlv(0x30, &parts.concat())
}

fn sgx_oid(tail: &[u8]) -> Vec<u8> {
    let mut content = SGX.to_vec();
    content.extend_from_slice(tail);
    tlv(0x06, &content)
}

fn field(tail: &[u8], value: Vec<u8>) -> Vec<u8> {
    seq(&[sgx_oid(tail), value])
}

fn tcb_fields(cpu_svn: &[u8], pce_svn: &[u8]) -> Vec<Vec<u8>> {
    let mut fields: Vec<Vec<u8>> = (1u8..=16).map(|i| field(&[2, i], tlv(0x02, &[i]))).collect();
    fields.push(field(&[2, 17], tlv(0x02, pce_svn)));
    fields.push(field(&[2, 18], tlv(0x04, cpu_svn)));
    fields
}

fn extension_with(fmspc: Vec<u8>, tcb: Vec<u8>) -> Vec<u8> {
    seq(&[
        field(&[1], tlv(0x04, &[0x11; 16])),
        field(&[2], tcb),
        field(&[3], tlv(0x04, &[0, 0])),
        field(&[4], fmspc),
        field(&[5], tlv(0x0A, &[0])),
    ])
}

fn sample_cpu_svn() -> [u8; 16] {
    [4, 4, 2, 4, 1, 128, 0, 0, 0, 0, 0, 0, 0, 0, 0, 255]
}

fn sample_extension() -> Vec<u8> {
    extension_with(
        tlv(0x04, &[0x00, 0x90, 0x6E, 0xA1, 0x00, 0x00]),
        seq(&tcb_fields(&sample_cpu_svn(), &[0x0B])),
    )
}

fn certificate(extensions: Option<Vec<Vec<u8>>>) -> Vec<u8> {
    let algorithm = seq(&[tlv(0x06, &[0x2A, 0x86, 0x48, 0xCE, 0x3D, 0x04, 0x03, 0x02])]);
    let name = seq(&[tlv(0x31, &seq(&[tlv(0x06, &[0x55, 0x04, 0x03]), tlv(0x0C, b"Leaf")]))]);
    let mut tbs = vec![
        tlv(0xA0, &tlv(0x02, &[2])),
        tlv(0x02, &[0x01, 0x02, 0x03]),
        algorithm.clone(),
        name.clone(),
        seq(&[tlv(0x17, b"200101000000Z"), tlv(0x17, b"400101000000Z")]),
        name,
        seq(&[seq(&[tlv(0x06, &[1, 2]), tlv(0x06, &[3, 4])]), tlv(0x03, &[0u8; 66])]),
    ];
    if let Some(list) = extensions {
        tbs.push(tlv(0xA3, &seq(&list)));
    }
    seq(&[seq(&tbs), algorithm, tlv(0x03, &[0u8; 72])])
}

fn sgx_extension_entry(value: &[u8]) -> Vec<u8> {
    seq(&[tlv(0x06, &SGX), tlv(0x04, value)])
}

fn basic_constraints_entry() -> Vec<u8> {
    seq(&[
        tlv(0x06, &[0x55, 0x1D, 0x13]),
        tlv(0x01, &[0xFF]),
        tlv(0x04, &seq(&[tlv(0x01, &[0xFF])])),
    ])
}

#[test]
fn fmspc_is_read() {
    assert_eq!(get_fmspc(&sample_extension()).unwrap(), [0x00, 0x90, 0x6E, 0xA1, 0x00, 0x00]);
}

#[test]
fn cpu_svn_is_read() {
    assert_eq!(get_cpu_svn(&sample_extension()).unwrap(), sample_cpu_svn());
}

#[test]
fn pce_svn_of_one_byte() {
    assert_eq!(get_pce_svn(&sample_extension()).unwrap(), 11);
}

#[test]
fn pce_svn_of_two_bytes_is_big_endian() {
    let extension = extension_with(
        tlv(0x04, &[0; 6]),
        seq(&tcb_fields(&sample_cpu_svn(), &[0x01, 0x02])),
    );
    assert_eq!(get_pce_svn(&extension).unwrap(), 258);
    let extension = extension_with(
        tlv(0x04, &[0; 6]),
        seq(&tcb_fields(&sample_cpu_svn(), &[0x00, 0x80])),
    );
    assert_eq!(get_pce_svn(&extension).unwrap(), 128);
}

#[test]
fn pce_svn_of_other_widths_is_refused() {
    let extension = extension_with(
        tlv(0x04, &[0; 6]),
        seq(&tcb_fields(&sample_cpu_svn(), &[0x00, 0x01, 0x02])),
    );
    assert_eq!(get_pce_svn(&extension).unwrap_err(), Error::PceSvnLengthMismatch);
    let extension =
        extension_with(tlv(0x04, &[0; 6]), seq(&tcb_fields(&sample_cpu_svn(), &[])));
    assert_eq!(get_pce_svn(&extension).unwrap_err(), Error::PceSvnLengthMismatch);
}

#[test]
fn fmspc_of_wrong_length_is_refused() {
    let tcb = seq(&tcb_fields(&sample_cpu_svn(), &[1]));
    let extension = extension_with(tlv(0x04, &[0; 5]), tcb.clone());
    assert_eq!(get_fmspc(&extension).unwrap_err(), Error::FmspcLengthMismatch);
    let extension = extension_with(tlv(0x04, &[0; 7]), tcb);
    assert_eq!(get_fmspc(&extension).unwrap_err(), Error::FmspcLengthMismatch);
}

#[test]
fn cpu_svn_of_wrong_length_is_refused() {
    let extension = extension_with(tlv(0x04, &[0; 6]), seq(&tcb_fields(&[1; 15], &[1])));
    assert_eq!(get_cpu_svn(&extension).unwrap_err(), Error::CpuSvnLengthMismatch);
    let extension = extension_with(tlv(0x04, &[0; 6]), seq(&tcb_fields(&[1; 17], &[1])));
    assert_eq!(get_cpu_svn(&extension).unwrap_err(), Error::CpuSvnLengthMismatch);
}

#[test]
fn missing_fields_are_reported() {
    let without_fmspc = seq(&[
        field(&[1], tlv(0x04, &[0x11; 16])),
        field(&[2], seq(&tcb_fields(&sample_cpu_svn(), &[1]))),
    ]);
    assert_eq!(get_fmspc(&without_fmspc).unwrap_err(), Error::OidIsMissing);
    assert_eq!(get_pce_svn(&without_fmspc).unwrap(), 1);

    let without_tcb = seq(&[field(&[4], tlv(0x04, &[0; 6]))]);
    assert_eq!(get_cpu_svn(&without_tcb).unwrap_err(), Error::OidIsMissing);
    assert_eq!(get_pce_svn(&without_tcb).unwrap_err(), Error::OidIsMissing);
    assert_eq!(get_fmspc(&without_tcb).unwrap(), [0; 6]);

    let tcb_without_svns = extension_with(
        tlv(0x04, &[0; 6]),
        seq(&[field(&[2, 1], tlv(0x02, &[1]))]),
    );
    assert_eq!(get_cpu_svn(&tcb_without_svns).unwrap_err(), Error::OidIsMissing);
    assert_eq!(get_pce_svn(&tcb_without_svns).unwrap_err(), Error::OidIsMissing);

    let empty = seq(&[]);
    assert_eq!(get_fmspc(&empty).unwrap_err(), Error::OidIsMissing);
}

#[test]
fn wrong_shapes_are_reported() {
    // not DER at all
    assert_eq!(get_fmspc(&[]).unwrap_err(), Error::DerDecodingError);
    assert_eq!(get_fmspc(&[0x30]).unwrap_err(), Error::DerDecodingError);
    assert_eq!(get_cpu_svn(&[0x30, 0x05, 0x00]).unwrap_err(), Error::DerDecodingError);
    // not a sequence
    assert_eq!(get_fmspc(&tlv(0x04, &[1, 2, 3])).unwrap_err(), Error::DerDecodingError);
    // bytes behind the sequence
    let mut trailing = sample_extension();
    trailing.push(0);
    assert_eq!(get_fmspc(&trailing).unwrap_err(), Error::DerDecodingError);
    assert_eq!(get_pce_svn(&trailing).unwrap_err(), Error::DerDecodingError);
    // the platform identifier as an integer
    let tcb = seq(&tcb_fields(&sample_cpu_svn(), &[1]));
    let extension = extension_with(tlv(0x02, &[0; 6]), tcb);
    assert_eq!(get_fmspc(&extension).unwrap_err(), Error::DerDecodingError);
    // the security versions as an octet string
    let extension = extension_with(tlv(0x04, &[0; 6]), tlv(0x04, &[0; 16]));
    assert_eq!(get_cpu_svn(&extension).unwrap_err(), Error::DerDecodingError);
    assert_eq!(get_fmspc(&extension).unwrap(), [0; 6]);
    // the security version of the PCE as an octet string
    let mut fields = tcb_fields(&sample_cpu_svn(), &[1]);
    fields[16] = field(&[2, 17], tlv(0x04, &[1]));
    let extension = extension_with(tlv(0x04, &[0; 6]), seq(&fields));
    assert_eq!(get_pce_svn(&extension).unwrap_err(), Error::DerDecodingError);
    assert_eq!(get_cpu_svn(&extension).unwrap(), sample_cpu_svn());
}

#[test]
fn malformed_fields_before_the_one_sought_are_reported() {
    // a field that is no sequence
    let extension = seq(&[tlv(0x04, &[1]), field(&[4], tlv(0x04, &[0; 6]))]);
    assert_eq!(get_fmspc(&extension).unwrap_err(), Error::DerDecodingError);
    // a field whose name is no object identifier
    let extension =
        seq(&[seq(&[tlv(0x04, &[1]), tlv(0x04, &[2])]), field(&[4], tlv(0x04, &[0; 6]))]);
    assert_eq!(get_fmspc(&extension).unwrap_err(), Error::DerDecodingError);
    // a field without a value
    let extension = seq(&[seq(&[sgx_oid(&[1])]), field(&[4], tlv(0x04, &[0; 6]))]);
    assert_eq!(get_fmspc(&extension).unwrap_err(), Error::DerDecodingError);
    // a field with something behind its value
    let extension = seq(&[
        seq(&[sgx_oid(&[1]), tlv(0x04, &[2]), tlv(0x04, &[3])]),
        field(&[4], tlv(0x04, &[0; 6])),
    ]);
    assert_eq!(get_fmspc(&extension).unwrap_err(), Error::DerDecodingError);
}

#[test]
fn fields_behind_the_one_sought_are_not_read() {
    let mut content = field(&[4], tlv(0x04, &[7; 6]));
    content.extend_from_slice(&[0xFF, 0xFF, 0xFF]);
    let extension = tlv(0x30, &content);
    assert_eq!(get_fmspc(&extension).unwrap(), [7; 6]);
    assert_eq!(get_cpu_svn(&extension).unwrap_err(), Error::DerDecodingError);
}

#[test]
fn the_first_field_of_a_name_is_taken() {
    let extension = seq(&[field(&[4], tlv(0x04, &[1; 6])), field(&[4], tlv(0x04, &[2; 6]))]);
    assert_eq!(get_fmspc(&extension).unwrap(), [1; 6]);
}

#[test]
fn extension_is_taken_out_of_a_certificate() {
    let value = sample_extension();
    let cert = certificate(Some(vec![basic_constraints_entry(), sgx_extension_entry(&value)]));
    assert_eq!(get_intel_extension(&cert).unwrap(), value);
    let cert = certificate(Some(vec![sgx_extension_entry(&value)]));
    assert_eq!(get_intel_extension(&cert).unwrap(), value);
    let cert = certificate(Some(vec![sgx_extension_entry(&[])]));
    assert_eq!(get_intel_extension(&cert).unwrap(), Vec::<u8>::new());
}

#[test]
fn extension_of_a_long_certificate() {
    let value = extension_with(
        tlv(0x04, &[9; 6]),
        seq(&tcb_fields(&sample_cpu_svn(), &[0x01, 0x00])),
    );
    assert!(value.len() > 255);
    let cert = certificate(Some(vec![sgx_extension_entry(&value), basic_constraints_entry()]));
    let found = get_intel_extension(&cert).unwrap();
    assert_eq!(found, value);
    assert_eq!(get_fmspc(&found).unwrap(), [9; 6]);
    assert_eq!(get_pce_svn(&found).unwrap(), 256);
}

#[test]
fn certificate_without_the_extension() {
    let cert = certificate(None);
    assert_eq!(get_intel_extension(&cert).unwrap_err(), Error::IntelExtensionAmbiguity);
    let cert = certificate(Some(vec![basic_constraints_entry()]));
    assert_eq!(get_intel_extension(&cert).unwrap_err(), Error::IntelExtensionAmbiguity);
    let cert = certificate(Some(vec![]));
    assert_eq!(get_intel_extension(&cert).unwrap_err(), Error::IntelExtensionAmbiguity);
}

#[test]
fn certificate_with_the_extension_twice() {
    let cert = certificate(Some(vec![sgx_extension_entry(&[1]), sgx_extension_entry(&[2])]));
    assert_eq!(get_intel_extension(&cert).unwrap_err(), Error::IntelExtensionAmbiguity);
}

#[test]
fn what_is_no_certificate_is_reported() {
    let undecodable = Error::IntelExtensionCertificateDecodingError;
    assert_eq!(get_intel_extension(&[]).unwrap_err(), undecodable);
    assert_eq!(get_intel_extension(&[0x30, 0x03, 0x01]).unwrap_err(), undecodable);
    // not a sequence
    assert_eq!(get_intel_extension(&tlv(0x04, &[1, 2])).unwrap_err(), undecodable);
    // does not start with a sequence
    assert_eq!(get_intel_extension(&seq(&[tlv(0x02, &[1])])).unwrap_err(), undecodable);
    // a malformed element before the extensions
    let broken = seq(&[tlv(0x30, &[0x02, 0x05, 0x01])]);
    assert_eq!(get_intel_extension(&broken).unwrap_err(), undecodable);
    // extensions that are no sequence
    let broken = seq(&[seq(&[tlv(0x02, &[1]), tlv(0xA3, &tlv(0x04, &[1]))])]);
    assert_eq!(get_intel_extension(&broken).unwrap_err(), undecodable);
}

#[test]
fn malformed_extensions_are_reported() {
    let undecodable = Error::IntelExtensionCertificateDecodingError;
    // an extension that is no sequence
    let cert = certificate(Some(vec![tlv(0x04, &[1]), sgx_extension_entry(&[1])]));
    assert_eq!(get_intel_extension(&cert).unwrap_err(), undecodable);
    // an extension whose value is no octet string
    let cert = certificate(Some(vec![seq(&[tlv(0x06, &SGX), tlv(0x02, &[1])])]));
    assert_eq!(get_intel_extension(&cert).unwrap_err(), undecodable);
    // an extension without a value
    let cert = certificate(Some(vec![seq(&[tlv(0x06, &SGX)])]));
    assert_eq!(get_intel_extension(&cert).unwrap_err(), undecodable);
    // an extension with something behind its value
    let cert =
        certificate(Some(vec![seq(&[tlv(0x06, &SGX), tlv(0x04, &[1]), tlv(0x04, &[2])])]));
    assert_eq!(get_intel_extension(&cert).unwrap_err(), undecodable);
    // a malformed extension behind the one sought
    let cert = certificate(Some(vec![sgx_extension_entry(&[1]), tlv(0x04, &[1])]));
    assert_eq!(get_intel_extension(&cert).unwrap_err(), undecodable);
}

#[test]
fn extension_marked_critical_is_found() {
    let entry = seq(&[tlv(0x06, &SGX), tlv(0x01, &[0xFF]), tlv(0x04, &[5, 6])]);
    let cert = certificate(Some(vec![entry]));
    assert_eq!(get_intel_extension(&cert).unwrap(), vec![5, 6]);
}
