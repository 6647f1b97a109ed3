//! Reading the platform extension of a leaf certificate: the security
//! versions of the CPU and of the PCE, and the platform identifier.
//!
//! This is a narrow reader for the one shape that such a certificate has.
//! Whatever departs from that shape is an error.

use vstd::prelude::*;
use vstd::slice::slice_subrange;
use crate::bytes::read_array;
use crate::bytes::read_vec;
use crate::bytes::spec_u16_be;
use crate::der::bytes_eq;
use crate::der::read_tlv;
use crate::der::spec_tlv;
use crate::der::TAG_BOOLEAN;
use crate::der::TAG_INTEGER;
use crate::der::TAG_OCTET_STRING;
use crate::der::TAG_OID;
use crate::der::TAG_SEQUENCE;
use crate::error::Error;

verus! {

/// Tag of the extensions of a certificate: context-specific, constructed, 3.
pub const TAG_EXTENSIONS: u8 = 0xA3;

/// 1.2.840.113741.1.13.1: the platform extension.
pub const SGX_EXTENSION_OID: [u8; 9] = [0x2A, 0x86, 0x48, 0x86, 0xF8, 0x4D, 0x01, 0x0D, 0x01];

/// 1.2.840.113741.1.13.1.2: the security versions.
pub const TCB_OID: [u8; 10] = [0x2A, 0x86, 0x48, 0x86, 0xF8, 0x4D, 0x01, 0x0D, 0x01, 0x02];

/// 1.2.840.113741.1.13.1.2.17: the security version of the PCE.
pub const PCESVN_OID: [u8; 11] = [
    0x2A,
    0x86,
    0x48,
    0x86,
    0xF8,
    0x4D,
    0x01,
    0x0D,
    0x01,
    0x02,
    0x11,
];

/// 1.2.840.113741.1.13.1.2.18: the security versions of the CPU.
pub const CPUSVN_OID: [u8; 11] = [
    0x2A,
    0x86,
    0x48,
    0x86,
    0xF8,
    0x4D,
    0x01,
    0x0D,
    0x01,
    0x02,
    0x12,
];

/// 1.2.840.113741.1.13.1.4: the platform identifier.
pub const FMSPC_OID: [u8; 10] = [0x2A, 0x86, 0x48, 0x86, 0xF8, 0x4D, 0x01, 0x0D, 0x01, 0x04];

/// The content of the sequence at the start of `s`.
pub open spec fn spec_sequence(s: Seq<u8>) -> Option<Seq<u8>> {
    match spec_tlv(s) {
        Some(t) => if t.tag == TAG_SEQUENCE {
            Some(t.content)
        } else {
            None
        },
        None => None,
    }
}

/// The content of the first element of `list` that has the tag `tag`:
/// `None` where an element before it is malformed, `Some(None)` where the
/// list holds no such element.
pub open spec fn spec_find_element(list: Seq<u8>, tag: u8) -> Option<Option<Seq<u8>>>
    decreases list.len(),
{
    if list.len() == 0 {
        Some(None)
    } else {
        match spec_tlv(list) {
            None => None,
            Some(t) => if t.tag == tag {
                Some(Some(t.content))
            } else {
                spec_find_element(t.rest, tag)
            },
        }
    }
}

/// Name and value of a certificate extension, given its content: an object
/// identifier, an optional boolean, and an octet string, with nothing behind.
pub open spec fn spec_extension_entry(s: Seq<u8>) -> Option<(Seq<u8>, Seq<u8>)> {
    match spec_tlv(s) {
        None => None,
        Some(name) => if name.tag != TAG_OID {
            None
        } else {
            match spec_tlv(name.rest) {
                None => None,
                Some(second) => if second.tag == TAG_BOOLEAN {
                    match spec_tlv(second.rest) {
                        None => None,
                        Some(value) => if value.tag == TAG_OCTET_STRING && value.rest.len() == 0 {
                            Some((name.content, value.content))
                        } else {
                            None
                        },
                    }
                } else if second.tag == TAG_OCTET_STRING && second.rest.len() == 0 {
                    Some((name.content, second.content))
                } else {
                    None
                },
            }
        },
    }
}

/// The extension at the start of `list`: its name, its value, and what
/// follows it.
pub open spec fn spec_extension_at(list: Seq<u8>) -> Option<(Seq<u8>, Seq<u8>, Seq<u8>)> {
    match spec_tlv(list) {
        None => None,
        Some(t) => if t.tag != TAG_SEQUENCE {
            None
        } else {
            match spec_extension_entry(t.content) {
                None => None,
                Some((name, value)) => Some((name, value, t.rest)),
            }
        },
    }
}

/// The values of the extensions in `list` that are named `oid`, in order;
/// `None` where the list is not made of well-formed extensions.
pub open spec fn spec_extension_values(list: Seq<u8>, oid: Seq<u8>) -> Option<Seq<Seq<u8>>>
    decreases list.len(),
{
    if list.len() == 0 {
        Some(Seq::empty())
    } else {
        match spec_extension_at(list) {
            None => None,
            Some((name, value, rest)) => match spec_extension_values(rest, oid) {
                None => None,
                Some(more) => if name == oid {
                    Some(seq![value] + more)
                } else {
                    Some(more)
                },
            },
        }
    }
}

/// The extensions of a certificate, as the bytes of their list; `Some(empty)`
/// where the certificate has none; `None` where the certificate is not of the
/// shape that is walked: a sequence that starts with a sequence, whose
/// elements are read up to the one tagged as extensions, which holds a
/// sequence.
pub open spec fn spec_certificate_extensions(cert: Seq<u8>) -> Option<Seq<u8>> {
    match spec_sequence(cert) {
        None => None,
        Some(outer) => match spec_sequence(outer) {
            None => None,
            Some(tbs) => match spec_find_element(tbs, TAG_EXTENSIONS) {
                None => None,
                Some(None) => Some(Seq::empty()),
                Some(Some(wrapped)) => spec_sequence(wrapped),
            },
        },
    }
}

/// The value of the platform extension of a certificate.
pub open spec fn spec_intel_extension(cert: Seq<u8>) -> Result<Seq<u8>, Error> {
    match spec_certificate_extensions(cert) {
        None => Err(Error::IntelExtensionCertificateDecodingError),
        Some(list) => match spec_extension_values(list, SGX_EXTENSION_OID@) {
            None => Err(Error::IntelExtensionCertificateDecodingError),
            Some(values) => if values.len() == 1 {
                Ok(values[0])
            } else {
                Err(Error::IntelExtensionAmbiguity)
            },
        },
    }
}

/// Where in `input` the content of its leading sequence lies.
fn read_sequence(input: &[u8]) -> (r: Option<(usize, usize)>)
    ensures
        match r {
            Some((start, end)) => start <= end <= input@.len() && spec_sequence(input@) == Some(
                input@.subrange(start as int, end as int),
            ),
            None => spec_sequence(input@) is None,
        },
{
    match read_tlv(input) {
        Some((tag, start, end)) => if tag == TAG_SEQUENCE {
            Some((start, end))
        } else {
            None
        },
        None => None,
    }
}

/// Where in `list` the content of its first element tagged `tag` lies.
fn find_element(list: &[u8], tag: u8) -> (r: Option<Option<(usize, usize)>>)
    ensures
        match r {
            None => spec_find_element(list@, tag) is None,
            Some(None) => spec_find_element(list@, tag) == Some(None::<Seq<u8>>),
            Some(Some((start, end))) => start <= end <= list@.len() && spec_find_element(
                list@,
                tag,
            ) == Some(Some(list@.subrange(start as int, end as int))),
        },
{
    let len: usize = list.len();
    let mut pos: usize = 0;
    assert(list@.subrange(0, len as int) =~= list@);
    while pos < len
        invariant
            pos <= len == list@.len(),
            spec_find_element(list@, tag) == spec_find_element(
                list@.subrange(pos as int, len as int),
                tag,
            ),
        decreases len - pos,
    {
        let rest = slice_subrange(list, pos, len);
        match read_tlv(rest) {
            None => {
                return None;
            },
            Some((t, start, end)) => {
                if t == tag {
                    assert(rest@.subrange(start as int, end as int) =~= list@.subrange(
                        pos + start,
                        pos + end,
                    ));
                    return Some(Some((pos + start, pos + end)));
                }
                assert(rest@.subrange(end as int, rest@.len() as int) =~= list@.subrange(
                    pos + end,
                    len as int,
                ));
                pos = pos + end;
            },
        }
    }
    assert(list@.subrange(pos as int, len as int).len() == 0);
    Some(None)
}

/// Where in `entry`, the content of a certificate extension, its name and
/// its value lie.
fn read_extension_entry(entry: &[u8]) -> (r: Option<(usize, usize, usize, usize)>)
    ensures
        match r {
            Some((name_start, name_end, start, end)) => name_start <= name_end <= entry@.len()
                && start <= end <= entry@.len() && spec_extension_entry(entry@) == Some(
                (
                    entry@.subrange(name_start as int, name_end as int),
                    entry@.subrange(start as int, end as int),
                ),
            ),
            None => spec_extension_entry(entry@) is None,
        },
{
    let len: usize = entry.len();
    let (name_start, name_end) = match read_tlv(entry) {
        Some((tag, start, end)) => if tag == TAG_OID {
            (start, end)
        } else {
            return None;
        },
        None => {
            return None;
        },
    };
    let after_name = slice_subrange(entry, name_end, len);
    let (second_tag, second_start, second_end) = match read_tlv(after_name) {
        Some(t) => t,
        None => {
            return None;
        },
    };
    if second_tag == TAG_BOOLEAN {
        let after_flag = slice_subrange(after_name, second_end, after_name.len());
        match read_tlv(after_flag) {
            Some((tag, start, end)) => {
                if tag == TAG_OCTET_STRING && end == after_flag.len() {
                    assert(after_flag@.subrange(start as int, end as int) =~= entry@.subrange(
                        name_end + second_end + start,
                        name_end + second_end + end,
                    ));
                    Some(
                        (
                            name_start,
                            name_end,
                            name_end + second_end + start,
                            name_end + second_end + end,
                        ),
                    )
                } else {
                    None
                }
            },
            None => None,
        }
    } else if second_tag == TAG_OCTET_STRING && second_end == after_name.len() {
        assert(after_name@.subrange(second_start as int, second_end as int) =~= entry@.subrange(
            name_end + second_start,
            name_end + second_end,
        ));
        Some((name_start, name_end, name_end + second_start, name_end + second_end))
    } else {
        None
    }
}

/// Reads the extension at the start of `list`: where it ends, and where its
/// name and its value lie.
fn read_extension(list: &[u8]) -> (r: Option<(usize, usize, usize, usize, usize)>)
    ensures
        match r {
            None => spec_extension_at(list@) is None,
            Some((end, name_start, name_end, start, end_of_value)) => {
                &&& 0 < end <= list@.len()
                &&& name_start <= name_end <= end
                &&& start <= end_of_value <= end
                &&& spec_extension_at(list@) == Some(
                    (
                        list@.subrange(name_start as int, name_end as int),
                        list@.subrange(start as int, end_of_value as int),
                        list@.subrange(end as int, list@.len() as int),
                    ),
                )
            },
        },
{
    let (start, end) = match read_tlv(list) {
        Some((tag, start, end)) => if tag == TAG_SEQUENCE {
            (start, end)
        } else {
            return None;
        },
        None => {
            return None;
        },
    };
    let entry = slice_subrange(list, start, end);
    match read_extension_entry(entry) {
        None => None,
        Some((name_start, name_end, value_start, value_end)) => {
            assert(entry@.subrange(name_start as int, name_end as int) =~= list@.subrange(
                start + name_start,
                start + name_end,
            ));
            assert(entry@.subrange(value_start as int, value_end as int) =~= list@.subrange(
                start + value_start,
                start + value_end,
            ));
            Some((end, start + name_start, start + name_end, start + value_start, start + value_end))
        },
    }
}

/// Looks through a list of certificate extensions for those named `oid`:
/// how many there are, and where in `list` the value of the first lies.
fn find_extension_values(list: &[u8], oid: &[u8]) -> (r: Option<(usize, usize, usize)>)
    ensures
        match r {
            None => spec_extension_values(list@, oid@) is None,
            Some((count, start, end)) => {
                &&& spec_extension_values(list@, oid@) is Some
                &&& spec_extension_values(list@, oid@)->Some_0.len() == count
                &&& start <= end <= list@.len()
                &&& count > 0 ==> spec_extension_values(list@, oid@)->Some_0[0] == list@.subrange(
                    start as int,
                    end as int,
                )
            },
        },
{
    let len: usize = list.len();
    let mut pos: usize = 0;
    let mut count: usize = 0;
    let mut first_start: usize = 0;
    let mut first_end: usize = 0;
    let ghost mut found: Seq<Seq<u8>> = Seq::empty();
    assert(list@.subrange(0, len as int) =~= list@);
    assert(forall|more: Seq<Seq<u8>>| found + more =~= more);
    while pos < len
        invariant
            pos <= len == list@.len(),
            count == found.len(),
            count <= pos,
            first_start <= first_end <= len,
            count > 0 ==> found[0] == list@.subrange(first_start as int, first_end as int),
            spec_extension_values(list@, oid@) == match spec_extension_values(
                list@.subrange(pos as int, len as int),
                oid@,
            ) {
                None => None::<Seq<Seq<u8>>>,
                Some(more) => Some(found + more),
            },
        decreases len - pos,
    {
        let rest = slice_subrange(list, pos, len);
        let (end, name_start, name_end, value_start, value_end) = match read_extension(rest) {
            Some(t) => t,
            None => {
                return None;
            },
        };
        let name = slice_subrange(rest, name_start, name_end);
        let ghost tail = list@.subrange(pos + end, len as int);
        let ghost value = rest@.subrange(value_start as int, value_end as int);
        let ghost before = found;
        let same: bool = bytes_eq(name, oid);
        proof {
            assert(rest@.subrange(end as int, rest@.len() as int) =~= tail);
            if same {
                found = found.push(value);
                match spec_extension_values(tail, oid@) {
                    None => {},
                    Some(more) => {
                        assert(before + (seq![value] + more) =~= found + more);
                    },
                }
            }
        }
        if same {
            if count == 0 {
                first_start = pos + value_start;
                first_end = pos + value_end;
                assert(value =~= list@.subrange(first_start as int, first_end as int));
            }
            count = count + 1;
        }
        pos = pos + end;
    }
    assert(list@.subrange(pos as int, len as int).len() == 0);
    assert(found + Seq::<Seq<u8>>::empty() =~= found);
    Some((count, first_start, first_end))
}

/// Where in `cert` the list of its extensions lies; an empty range where it
/// has none.
fn read_certificate_extensions(cert: &[u8]) -> (r: Option<(usize, usize)>)
    ensures
        match r {
            Some((start, end)) => start <= end <= cert@.len() && spec_certificate_extensions(cert@)
                == Some(cert@.subrange(start as int, end as int)),
            None => spec_certificate_extensions(cert@) is None,
        },
{
    let (outer_start, outer_end) = match read_sequence(cert) {
        Some(t) => t,
        None => {
            return None;
        },
    };
    let outer = slice_subrange(cert, outer_start, outer_end);
    let (tbs_start, tbs_end) = match read_sequence(outer) {
        Some(t) => t,
        None => {
            return None;
        },
    };
    let tbs = slice_subrange(outer, tbs_start, tbs_end);
    match find_element(tbs, TAG_EXTENSIONS) {
        None => None,
        Some(None) => {
            assert(cert@.subrange(0, 0) =~= Seq::<u8>::empty());
            Some((0, 0))
        },
        Some(Some((wrapped_start, wrapped_end))) => {
            let wrapped = slice_subrange(tbs, wrapped_start, wrapped_end);
            match read_sequence(wrapped) {
                None => None,
                Some((start, end)) => {
                    let base: usize = outer_start + tbs_start + wrapped_start;
                    assert(wrapped@.subrange(start as int, end as int) =~= cert@.subrange(
                        base + start,
                        base + end,
                    ));
                    Some((base + start, base + end))
                },
            }
        },
    }
}

/// Takes the value of the platform extension out of a DER certificate.
///
/// The certificate must hold exactly one extension of that name.
pub fn get_intel_extension(der_encoded: &[u8]) -> (r: Result<Vec<u8>, Error>)
    ensures
        match r {
            Ok(value) => spec_intel_extension(der_encoded@) == Ok::<Seq<u8>, Error>(value@),
            Err(e) => spec_intel_extension(der_encoded@) == Err::<Seq<u8>, Error>(e),
        },
{
    let (list_start, list_end) = match read_certificate_extensions(der_encoded) {
        Some(t) => t,
        None => {
            return Err(Error::IntelExtensionCertificateDecodingError);
        },
    };
    let list = slice_subrange(der_encoded, list_start, list_end);
    match find_extension_values(list, SGX_EXTENSION_OID.as_slice()) {
        None => Err(Error::IntelExtensionCertificateDecodingError),
        Some((count, start, end)) => {
            if count == 1 {
                Ok(read_vec(list, start, end))
            } else {
                Err(Error::IntelExtensionAmbiguity)
            }
        },
    }
}

/// The field at the start of `list`, a list of named fields: its name, the
/// tag and the content of its value, and what follows it. A field is a
/// sequence of an object identifier and one value, with nothing behind.
pub open spec fn spec_field_at(list: Seq<u8>) -> Option<(Seq<u8>, u8, Seq<u8>, Seq<u8>)> {
    match spec_tlv(list) {
        None => None,
        Some(t) => if t.tag != TAG_SEQUENCE {
            None
        } else {
            match spec_tlv(t.content) {
                None => None,
                Some(name) => if name.tag != TAG_OID {
                    None
                } else {
                    match spec_tlv(name.rest) {
                        None => None,
                        Some(value) => if value.rest.len() != 0 {
                            None
                        } else {
                            Some((name.content, value.tag, value.content, t.rest))
                        },
                    }
                },
            }
        },
    }
}

/// Tag and content of the value of the first field named `oid` in a list of
/// named fields. The fields before it must be well formed; those behind it
/// are not read.
pub open spec fn spec_lookup(list: Seq<u8>, oid: Seq<u8>) -> Result<(u8, Seq<u8>), Error>
    decreases list.len(),
{
    if list.len() == 0 {
        Err(Error::OidIsMissing)
    } else {
        match spec_field_at(list) {
            None => Err(Error::DerDecodingError),
            Some((name, tag, content, rest)) => if name == oid {
                Ok((tag, content))
            } else {
                spec_lookup(rest, oid)
            },
        }
    }
}

/// The content of the value of the field named `oid`, which must have the
/// tag `tag`.
pub open spec fn spec_typed_lookup(list: Seq<u8>, oid: Seq<u8>, tag: u8) -> Result<
    Seq<u8>,
    Error,
> {
    match spec_lookup(list, oid) {
        Err(e) => Err(e),
        Ok((found, content)) => if found == tag {
            Ok(content)
        } else {
            Err(Error::DerDecodingError)
        },
    }
}

/// The named fields of a platform extension, given its value: the content of
/// the one sequence that the value is.
pub open spec fn spec_extension_fields(extension: Seq<u8>) -> Result<Seq<u8>, Error> {
    match spec_tlv(extension) {
        None => Err(Error::DerDecodingError),
        Some(t) => if t.tag == TAG_SEQUENCE && t.rest.len() == 0 {
            Ok(t.content)
        } else {
            Err(Error::DerDecodingError)
        },
    }
}

/// The named fields under the security versions of a platform extension.
pub open spec fn spec_tcb_fields(extension: Seq<u8>) -> Result<Seq<u8>, Error> {
    match spec_extension_fields(extension) {
        Err(e) => Err(e),
        Ok(fields) => spec_typed_lookup(fields, TCB_OID@, TAG_SEQUENCE),
    }
}

/// The platform identifier in a platform extension: an octet string of 6
/// bytes.
pub open spec fn spec_fmspc(extension: Seq<u8>) -> Result<Seq<u8>, Error> {
    match spec_extension_fields(extension) {
        Err(e) => Err(e),
        Ok(fields) => match spec_typed_lookup(fields, FMSPC_OID@, TAG_OCTET_STRING) {
            Err(e) => Err(e),
            Ok(content) => if content.len() == 6 {
                Ok(content)
            } else {
                Err(Error::FmspcLengthMismatch)
            },
        },
    }
}

/// The security versions of the CPU in a platform extension: an octet string
/// of 16 bytes under the security versions.
pub open spec fn spec_cpu_svn(extension: Seq<u8>) -> Result<Seq<u8>, Error> {
    match spec_tcb_fields(extension) {
        Err(e) => Err(e),
        Ok(fields) => match spec_typed_lookup(fields, CPUSVN_OID@, TAG_OCTET_STRING) {
            Err(e) => Err(e),
            Ok(content) => if content.len() == 16 {
                Ok(content)
            } else {
                Err(Error::CpuSvnLengthMismatch)
            },
        },
    }
}

/// The security version of the PCE in a platform extension: an integer of
/// one or two bytes under the security versions, most significant byte first.
pub open spec fn spec_pce_svn(extension: Seq<u8>) -> Result<u16, Error> {
    match spec_tcb_fields(extension) {
        Err(e) => Err(e),
        Ok(fields) => match spec_typed_lookup(fields, PCESVN_OID@, TAG_INTEGER) {
            Err(e) => Err(e),
            Ok(content) => if content.len() == 1 {
                Ok(content[0] as u16)
            } else if content.len() == 2 {
                Ok(spec_u16_be(content[0], content[1]))
            } else {
                Err(Error::PceSvnLengthMismatch)
            },
        },
    }
}

/// Reads the field at the start of `list`: where it ends, where its name
/// lies, the tag of its value and where the value's content lies.
fn read_field(list: &[u8]) -> (r: Option<(usize, usize, usize, u8, usize, usize)>)
    ensures
        match r {
            None => spec_field_at(list@) is None,
            Some((end, name_start, name_end, tag, start, end_of_value)) => {
                &&& 0 < end <= list@.len()
                &&& name_start <= name_end <= end
                &&& start <= end_of_value <= end
                &&& spec_field_at(list@) == Some(
                    (
                        list@.subrange(name_start as int, name_end as int),
                        tag,
                        list@.subrange(start as int, end_of_value as int),
                        list@.subrange(end as int, list@.len() as int),
                    ),
                )
            },
        },
{
    let (start, end) = match read_tlv(list) {
        Some((tag, start, end)) => if tag == TAG_SEQUENCE {
            (start, end)
        } else {
            return None;
        },
        None => {
            return None;
        },
    };
    let field = slice_subrange(list, start, end);
    let (name_start, name_end) = match read_tlv(field) {
        Some((tag, start, end)) => if tag == TAG_OID {
            (start, end)
        } else {
            return None;
        },
        None => {
            return None;
        },
    };
    let after_name = slice_subrange(field, name_end, field.len());
    match read_tlv(after_name) {
        None => None,
        Some((tag, value_start, value_end)) => {
            if value_end != after_name.len() {
                return None;
            }
            assert(field@.subrange(name_start as int, name_end as int) =~= list@.subrange(
                start + name_start,
                start + name_end,
            ));
            assert(after_name@.subrange(value_start as int, value_end as int) =~= list@.subrange(
                start + name_end + value_start,
                start + name_end + value_end,
            ));
            Some(
                (
                    end,
                    start + name_start,
                    start + name_end,
                    tag,
                    start + name_end + value_start,
                    start + name_end + value_end,
                ),
            )
        },
    }
}

/// Finds the first field named `oid` in a list of named fields: the tag of
/// its value and where in `list` the value's content lies.
fn lookup(list: &[u8], oid: &[u8]) -> (r: Result<(u8, usize, usize), Error>)
    ensures
        match r {
            Ok((tag, start, end)) => start <= end <= list@.len() && spec_lookup(list@, oid@) == Ok::<
                (u8, Seq<u8>),
                Error,
            >((tag, list@.subrange(start as int, end as int))),
            Err(e) => spec_lookup(list@, oid@) == Err::<(u8, Seq<u8>), Error>(e),
        },
{
    let len: usize = list.len();
    let mut pos: usize = 0;
    assert(list@.subrange(0, len as int) =~= list@);
    while pos < len
        invariant
            pos <= len == list@.len(),
            spec_lookup(list@, oid@) == spec_lookup(list@.subrange(pos as int, len as int), oid@),
        decreases len - pos,
    {
        let rest = slice_subrange(list, pos, len);
        let (end, name_start, name_end, tag, start, end_of_value) = match read_field(rest) {
            Some(t) => t,
            None => {
                return Err(Error::DerDecodingError);
            },
        };
        let name = slice_subrange(rest, name_start, name_end);
        if bytes_eq(name, oid) {
            assert(rest@.subrange(start as int, end_of_value as int) =~= list@.subrange(
                pos + start,
                pos + end_of_value,
            ));
            return Ok((tag, pos + start, pos + end_of_value));
        }
        assert(rest@.subrange(end as int, rest@.len() as int) =~= list@.subrange(
            pos + end,
            len as int,
        ));
        pos = pos + end;
    }
    assert(list@.subrange(pos as int, len as int).len() == 0);
    Err(Error::OidIsMissing)
}

/// Finds the field named `oid` and checks the tag of its value.
fn typed_lookup(list: &[u8], oid: &[u8], tag: u8) -> (r: Result<(usize, usize), Error>)
    ensures
        match r {
            Ok((start, end)) => start <= end <= list@.len() && spec_typed_lookup(list@, oid@, tag)
                == Ok::<Seq<u8>, Error>(list@.subrange(start as int, end as int)),
            Err(e) => spec_typed_lookup(list@, oid@, tag) == Err::<Seq<u8>, Error>(e),
        },
{
    match lookup(list, oid) {
        Err(e) => Err(e),
        Ok((found, start, end)) => if found == tag {
            Ok((start, end))
        } else {
            Err(Error::DerDecodingError)
        },
    }
}

/// Where in the value of a platform extension its named fields lie.
fn extension_fields(extension: &[u8]) -> (r: Result<(usize, usize), Error>)
    ensures
        match r {
            Ok((start, end)) => start <= end <= extension@.len() && spec_extension_fields(
                extension@,
            ) == Ok::<Seq<u8>, Error>(extension@.subrange(start as int, end as int)),
            Err(e) => spec_extension_fields(extension@) == Err::<Seq<u8>, Error>(e),
        },
{
    match read_tlv(extension) {
        Some((tag, start, end)) => if tag == TAG_SEQUENCE && end == extension.len() {
            Ok((start, end))
        } else {
            Err(Error::DerDecodingError)
        },
        None => Err(Error::DerDecodingError),
    }
}

/// Where in the value of a platform extension the named fields under its
/// security versions lie.
fn tcb_fields(extension: &[u8]) -> (r: Result<(usize, usize), Error>)
    ensures
        match r {
            Ok((start, end)) => start <= end <= extension@.len() && spec_tcb_fields(extension@)
                == Ok::<Seq<u8>, Error>(extension@.subrange(start as int, end as int)),
            Err(e) => spec_tcb_fields(extension@) == Err::<Seq<u8>, Error>(e),
        },
{
    let (fields_start, fields_end) = match extension_fields(extension) {
        Ok(t) => t,
        Err(e) => {
            return Err(e);
        },
    };
    let fields = slice_subrange(extension, fields_start, fields_end);
    match typed_lookup(fields, TCB_OID.as_slice(), TAG_SEQUENCE) {
        Err(e) => Err(e),
        Ok((start, end)) => {
            assert(fields@.subrange(start as int, end as int) =~= extension@.subrange(
                fields_start + start,
                fields_start + end,
            ));
            Ok((fields_start + start, fields_start + end))
        },
    }
}

/// Reads the platform identifier out of the value of a platform extension.
pub fn get_fmspc(extension_section: &[u8]) -> (r: Result<[u8; 6], Error>)
    ensures
        match r {
            Ok(fmspc) => spec_fmspc(extension_section@) == Ok::<Seq<u8>, Error>(fmspc@),
            Err(e) => spec_fmspc(extension_section@) == Err::<Seq<u8>, Error>(e),
        },
{
    let (fields_start, fields_end) = match extension_fields(extension_section) {
        Ok(t) => t,
        Err(e) => {
            return Err(e);
        },
    };
    let fields = slice_subrange(extension_section, fields_start, fields_end);
    match typed_lookup(fields, FMSPC_OID.as_slice(), TAG_OCTET_STRING) {
        Err(e) => Err(e),
        Ok((start, end)) => {
            if end - start != 6 {
                return Err(Error::FmspcLengthMismatch);
            }
            Ok(read_array::<6>(fields, start))
        },
    }
}

/// Reads the security versions of the CPU out of the value of a platform
/// extension.
pub fn get_cpu_svn(extension_section: &[u8]) -> (r: Result<[u8; 16], Error>)
    ensures
        match r {
            Ok(cpu_svn) => spec_cpu_svn(extension_section@) == Ok::<Seq<u8>, Error>(cpu_svn@),
            Err(e) => spec_cpu_svn(extension_section@) == Err::<Seq<u8>, Error>(e),
        },
{
    let (fields_start, fields_end) = match tcb_fields(extension_section) {
        Ok(t) => t,
        Err(e) => {
            return Err(e);
        },
    };
    let fields = slice_subrange(extension_section, fields_start, fields_end);
    match typed_lookup(fields, CPUSVN_OID.as_slice(), TAG_OCTET_STRING) {
        Err(e) => Err(e),
        Ok((start, end)) => {
            if end - start != 16 {
                return Err(Error::CpuSvnLengthMismatch);
            }
            Ok(read_array::<16>(fields, start))
        },
    }
}

/// Reads the security version of the PCE out of the value of a platform
/// extension.
pub fn get_pce_svn(extension_section: &[u8]) -> (r: Result<u16, Error>)
    ensures
        r == spec_pce_svn(extension_section@),
{
    let (fields_start, fields_end) = match tcb_fields(extension_section) {
        Ok(t) => t,
        Err(e) => {
            return Err(e);
        },
    };
    let fields = slice_subrange(extension_section, fields_start, fields_end);
    match typed_lookup(fields, PCESVN_OID.as_slice(), TAG_INTEGER) {
        Err(e) => Err(e),
        Ok((start, end)) => {
            if end - start == 1 {
                Ok(fields[start] as u16)
            } else if end - start == 2 {
                let hi: u16 = fields[start] as u16;
                let lo: u16 = fields[start + 1] as u16;
                Ok(256 * hi + lo)
            } else {
                Err(Error::PceSvnLengthMismatch)
            }
        },
    }
}

/// A lookup fails in one of two ways: the list is malformed, or it holds no
/// field of the name.
pub proof fn lemma_lookup_errors(list: Seq<u8>, oid: Seq<u8>)
    ensures
        spec_lookup(list, oid) matches Err(e) ==> e == Error::DerDecodingError || e
            == Error::OidIsMissing,
    decreases list.len(),
{
    if list.len() != 0 {
        match spec_field_at(list) {
            None => {},
            Some((name, tag, content, rest)) => {
                if name != oid {
                    lemma_lookup_errors(rest, oid);
                }
            },
        }
    }
}

/// Reading a platform extension fails for its shape, for a missing field, or
/// for the length of the field that was asked for, and for nothing else.
pub proof fn lemma_extension_errors(extension: Seq<u8>)
    ensures
        spec_fmspc(extension) matches Err(e) ==> e == Error::DerDecodingError || e
            == Error::OidIsMissing || e == Error::FmspcLengthMismatch,
        spec_cpu_svn(extension) matches Err(e) ==> e == Error::DerDecodingError || e
            == Error::OidIsMissing || e == Error::CpuSvnLengthMismatch,
        spec_pce_svn(extension) matches Err(e) ==> e == Error::DerDecodingError || e
            == Error::OidIsMissing || e == Error::PceSvnLengthMismatch,
{
    match spec_extension_fields(extension) {
        Err(_) => {},
        Ok(fields) => {
            lemma_lookup_errors(fields, FMSPC_OID@);
            lemma_lookup_errors(fields, TCB_OID@);
            match spec_tcb_fields(extension) {
                Err(_) => {},
                Ok(tcb) => {
                    lemma_lookup_errors(tcb, CPUSVN_OID@);
                    lemma_lookup_errors(tcb, PCESVN_OID@);
                },
            }
        },
    }
}

} // verus!
