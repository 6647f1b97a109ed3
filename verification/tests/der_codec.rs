use sgx_attestation::der::bytes_eq;
use sgx_attestation::der::encode_as_der;
use sgx_attestation::der::read_tlv;
use sgx_attestation::Error;

#[test]
fn tlv_short_form() {
    assert_eq!(read_tlv(&[0x04, 0x02, 0xAA, 0xBB, 0xCC]), Some((0x04, 2, 4)));
    assert_eq!(read_tlv(&[0x30, 0x00]), Some((0x30, 2, 2)));
    assert_eq!(read_tlv(&[0x05, 0x00, 0x01]), Some((0x05, 2, 2)));
}

#[test]
fn tlv_long_form_one_octet() {
    let mut bytes = vec![0x04, 0x81, 0x80];
    bytes.extend(std::iter::repeat(7u8).take(128));
    assert_eq!(read_tlv(&bytes), Some((0x04, 3, 131)));
}

#[test]
fn tlv_long_form_two_octets() {
    let mut bytes = vec![0x30, 0x82, 0x01, 0x02];
    bytes.extend(std::iter::repeat(7u8).take(0x102));
    bytes.push(0x99);
    assert_eq!(read_tlv(&bytes), Some((0x30, 4, 4 + 0x102)));
}

#[test]
fn tlv_long_form_three_octets() {
    let mut bytes = vec![0x04, 0x83, 0x01, 0x00, 0x00];
    bytes.extend(std::iter::repeat(1u8).take(0x10000));
    assert_eq!(read_tlv(&bytes), Some((0x04, 5, 5 + 0x10000)));
}

#[test]
fn tlv_refuses_what_is_not_der() {
    assert_eq!(read_tlv(&[]), None);
    assert_eq!(read_tlv(&[0x04]), None);
    // content shorter than announced
    assert_eq!(read_tlv(&[0x04, 0x03, 0xAA, 0xBB]), None);
    // indefinite length
    assert_eq!(read_tlv(&[0x30, 0x80, 0x00, 0x00]), None);
    // length of more than four octets
    assert_eq!(read_tlv(&[0x04, 0x85, 0x00, 0x00, 0x00, 0x00, 0x01, 0xAA]), None);
    // length octets missing
    assert_eq!(read_tlv(&[0x04, 0x82, 0x01]), None);
    // a long form that the short form could hold
    assert_eq!(read_tlv(&[0x04, 0x81, 0x01, 0xAA]), None);
    let mut padded = vec![0x04, 0x82, 0x00, 0x80];
    padded.extend(std::iter::repeat(0u8).take(128));
    assert_eq!(read_tlv(&padded), None);
    // a tag of more than one octet
    assert_eq!(read_tlv(&[0x1F, 0x01, 0x00]), None);
    assert_eq!(read_tlv(&[0xBF, 0x01, 0x00]), None);
}

#[test]
fn tlv_four_octet_length_beyond_the_input() {
    assert_eq!(read_tlv(&[0x04, 0x84, 0xFF, 0xFF, 0xFF, 0xFF, 0x00]), None);
}

#[test]
fn bytes_eq_compares_content() {
    assert!(bytes_eq(&[], &[]));
    assert!(bytes_eq(&[1, 2, 3], &[1, 2, 3]));
    assert!(!bytes_eq(&[1, 2, 3], &[1, 2, 4]));
    assert!(!bytes_eq(&[1, 2, 3], &[1, 2]));
    assert!(!bytes_eq(&[], &[0]));
}

#[test]
fn signature_of_small_integers() {
    let mut raw = [0u8; 64];
    raw[31] = 1;
    raw[63] = 2;
    assert_eq!(
        encode_as_der(&raw).unwrap(),
        vec![0x30, 0x06, 0x02, 0x01, 0x01, 0x02, 0x01, 0x02]
    );
}

#[test]
fn signature_of_zeros() {
    assert_eq!(
        encode_as_der(&[0u8; 64]).unwrap(),
        vec![0x30, 0x06, 0x02, 0x01, 0x00, 0x02, 0x01, 0x00]
    );
}

#[test]
fn signature_with_high_bits_gets_zero_bytes() {
    let raw = [0xFFu8; 64];
    let der = encode_as_der(&raw).unwrap();
    assert_eq!(der.len(), 72);
    assert_eq!(&der[..5], &[0x30, 70, 0x02, 33, 0x00]);
    assert_eq!(&der[5..37], &[0xFFu8; 32][..]);
    assert_eq!(&der[37..40], &[0x02, 33, 0x00]);
    assert_eq!(&der[40..], &[0xFFu8; 32][..]);
}

#[test]
fn signature_without_padding_is_70_bytes() {
    let raw = [0x7Fu8; 64];
    let der = encode_as_der(&raw).unwrap();
    assert_eq!(der.len(), 70);
    assert_eq!(&der[..4], &[0x30, 68, 0x02, 32]);
    assert_eq!(&der[36..38], &[0x02, 32]);
}

#[test]
fn signature_strips_leading_zeros_then_pads() {
    let mut raw = [0u8; 64];
    raw[30] = 0x80;
    raw[31] = 0x01;
    raw[62] = 0x12;
    raw[63] = 0x34;
    assert_eq!(
        encode_as_der(&raw).unwrap(),
        vec![0x30, 0x09, 0x02, 0x03, 0x00, 0x80, 0x01, 0x02, 0x02, 0x12, 0x34]
    );
}

#[test]
fn signature_of_wrong_width_is_refused() {
    assert_eq!(encode_as_der(&[0u8; 63]).unwrap_err(), Error::KeyLengthIsInvalid);
    assert_eq!(encode_as_der(&[0u8; 65]).unwrap_err(), Error::KeyLengthIsInvalid);
    assert_eq!(encode_as_der(&[]).unwrap_err(), Error::KeyLengthIsInvalid);
}

#[test]
fn signature_in_der_reads_back_as_a_sequence() {
    let mut raw = [0x11u8; 64];
    raw[0] = 0x90;
    let der = encode_as_der(&raw).unwrap();
    let (tag, start, end) = read_tlv(&der).unwrap();
    assert_eq!(tag, 0x30);
    assert_eq!(end, der.len());
    let (tag_r, start_r, end_r) = read_tlv(&der[start..end]).unwrap();
    assert_eq!(tag_r, 0x02);
    assert_eq!(&der[start + start_r..start + end_r], &{
        let mut r = vec![0u8];
        r.extend_from_slice(&raw[..32]);
        r
    }[..]);
}
