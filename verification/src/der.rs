//! The slice of DER that the verification needs: reading one element, and
//! writing an ECDSA signature as a sequence of two integers.

use vstd::prelude::*;
use crate::error::Error;

verus! {

/// Tag of a DER boolean.
pub const TAG_BOOLEAN: u8 = 0x01;

/// Tag of a DER integer.
pub const TAG_INTEGER: u8 = 0x02;

/// Tag of a DER octet string.
pub const TAG_OCTET_STRING: u8 = 0x04;

/// Tag of a DER object identifier.
pub const TAG_OID: u8 = 0x06;

/// Tag of a DER sequence.
pub const TAG_SEQUENCE: u8 = 0x30;

/// One DER element at the start of a byte string, and what follows it.
pub ghost struct Tlv {
    pub tag: u8,
    pub content: Seq<u8>,
    pub rest: Seq<u8>,
}

/// The number that the bytes of `s` spell, most significant byte first.
pub open spec fn spec_be_uint(s: Seq<u8>) -> nat
    decreases s.len(),
{
    if s.len() == 0 {
        0
    } else {
        256 * spec_be_uint(s.drop_last()) + s.last() as nat
    }
}

/// The octets that tag and length take at the start of `s`, and the length
/// they announce. Tags of more than one octet, the indefinite length, lengths
/// of more than four octets and lengths not written in the shortest form are
/// refused.
pub open spec fn spec_tlv_header(s: Seq<u8>) -> Option<(int, int)> {
    if s.len() < 2 || s[0] % 32 == 31 {
        None
    } else if s[1] < 128 {
        Some((2, s[1] as int))
    } else {
        let n = s[1] - 128;
        let v = spec_be_uint(s.subrange(2, 2 + n));
        if n == 0 || n > 4 || s.len() < 2 + n || s[2] == 0 || v < 128 {
            None
        } else {
            Some((2 + n, v as int))
        }
    }
}

/// The element at the start of `s`, if `s` starts with a whole one.
pub open spec fn spec_tlv(s: Seq<u8>) -> Option<Tlv> {
    match spec_tlv_header(s) {
        Some((head, len)) => if s.len() < head + len {
            None
        } else {
            Some(
                Tlv {
                    tag: s[0],
                    content: s.subrange(head, head + len),
                    rest: s.subrange(head + len, s.len() as int),
                },
            )
        },
        None => None,
    }
}

/// Reads the element at the start of `input`: its tag, and where its content
/// starts and ends.
pub fn read_tlv(input: &[u8]) -> (r: Option<(u8, usize, usize)>)
    ensures
        match r {
            Some((tag, start, end)) => 2 <= start <= end <= input@.len() && spec_tlv(input@) == Some(
                Tlv {
                    tag,
                    content: input@.subrange(start as int, end as int),
                    rest: input@.subrange(end as int, input@.len() as int),
                },
            ),
            None => spec_tlv(input@) is None,
        },
{
    let len: usize = input.len();
    if len < 2 {
        return None;
    }
    let tag: u8 = input[0];
    if tag % 32 == 31 {
        return None;
    }
    let first: u8 = input[1];
    if first < 128 {
        let content_len: usize = first as usize;
        if len - 2 < content_len {
            return None;
        }
        return Some((tag, 2, 2 + content_len));
    }
    let n: usize = (first - 128) as usize;
    if n == 0 || n > 4 || len - 2 < n {
        return None;
    }
    if input[2] == 0 {
        return None;
    }
    let mut v: u64 = 0;
    let mut i: usize = 0;
    while i < n
        invariant
            i <= n <= 4,
            2 + n <= input@.len(),
            v == spec_be_uint(input@.subrange(2, 2 + i)),
            i == 0 ==> v == 0,
            i == 1 ==> v < 0x100,
            i == 2 ==> v < 0x1_0000,
            i == 3 ==> v < 0x100_0000,
            i == 4 ==> v < 0x1_0000_0000,
        decreases n - i,
    {
        assert(input@.subrange(2, 2 + i + 1).drop_last() =~= input@.subrange(2, 2 + i));
        v = 256 * v + input[2 + i] as u64;
        i = i + 1;
    }
    if v < 128 {
        return None;
    }
    let head: usize = 2 + n;
    if ((len - head) as u64) < v {
        return None;
    }
    Some((tag, head, head + v as usize))
}

/// Whether two byte strings are the same.
pub fn bytes_eq(a: &[u8], b: &[u8]) -> (r: bool)
    ensures
        r == (a@ == b@),
{
    if a.len() != b.len() {
        return false;
    }
    let mut i: usize = 0;
    while i < a.len()
        invariant
            i <= a@.len() == b@.len(),
            forall|j: int| 0 <= j < i ==> a@[j] == b@[j],
        decreases a@.len() - i,
    {
        if a[i] != b[i] {
            return false;
        }
        i = i + 1;
    }
    assert(a@ =~= b@);
    true
}

/// `s` without its leading zero bytes, but for the last byte.
pub open spec fn spec_strip_zeros(s: Seq<u8>) -> Seq<u8>
    decreases s.len(),
{
    if s.len() > 1 && s[0] == 0 {
        spec_strip_zeros(s.drop_first())
    } else {
        s
    }
}

/// The DER integer whose value the bytes of `s` spell, most significant byte
/// first: the shortest form, with a zero byte in front where the first bit
/// would otherwise read as a sign.
pub open spec fn spec_der_uint(s: Seq<u8>) -> Seq<u8> {
    let digits = spec_strip_zeros(s);
    let body = if digits[0] >= 128 {
        seq![0u8] + digits
    } else {
        digits
    };
    seq![TAG_INTEGER, body.len() as u8] + body
}

/// The DER form of a raw ECDSA signature: the sequence of its two 32-byte
/// integers.
pub open spec fn spec_der_signature(raw: Seq<u8>) -> Seq<u8> {
    let content = spec_der_uint(raw.subrange(0, 32)) + spec_der_uint(raw.subrange(32, 64));
    seq![TAG_SEQUENCE, content.len() as u8] + content
}

/// Stripping keeps at least one byte and never lengthens.
pub proof fn lemma_strip_zeros_len(s: Seq<u8>)
    requires
        s.len() >= 1,
    ensures
        1 <= spec_strip_zeros(s).len() <= s.len(),
    decreases s.len(),
{
    if s.len() > 1 && s[0] == 0 {
        lemma_strip_zeros_len(s.drop_first());
    }
}

/// A DER integer made from up to 32 bytes takes between 3 and 35 bytes.
pub proof fn lemma_der_uint_len(s: Seq<u8>)
    requires
        1 <= s.len() <= 32,
    ensures
        3 <= spec_der_uint(s).len() <= s.len() + 3,
{
    lemma_strip_zeros_len(s);
}

/// Appends to `out` the DER integer spelled by the bytes of `input` from
/// `from` up to `to`.
fn push_der_uint(out: &mut Vec<u8>, input: &[u8], from: usize, to: usize)
    requires
        from < to <= input@.len(),
        to - from <= 32,
    ensures
        final(out)@ == old(out)@ + spec_der_uint(input@.subrange(from as int, to as int)),
{
    let ghost whole = input@.subrange(from as int, to as int);
    let mut start: usize = from;
    while start + 1 < to && input[start] == 0
        invariant
            from <= start < to <= input@.len(),
            spec_strip_zeros(whole) == spec_strip_zeros(input@.subrange(start as int, to as int)),
        decreases to - start,
    {
        assert(input@.subrange(start as int, to as int).drop_first() =~= input@.subrange(
            start + 1,
            to as int,
        ));
        start = start + 1;
    }
    let ghost digits = input@.subrange(start as int, to as int);
    assert(spec_strip_zeros(whole) == digits);
    let pad: bool = input[start] >= 128;
    let body_len: usize = if pad {
        to - start + 1
    } else {
        to - start
    };
    out.push(TAG_INTEGER);
    out.push(body_len as u8);
    if pad {
        out.push(0u8);
    }
    let ghost head = out@;
    let mut i: usize = start;
    while i < to
        invariant
            start <= i <= to <= input@.len(),
            out@ == head + input@.subrange(start as int, i as int),
        decreases to - i,
    {
        out.push(input[i]);
        i = i + 1;
        assert(out@ =~= head + input@.subrange(start as int, i as int));
    }
    assert(out@ =~= old(out)@ + spec_der_uint(whole));
}

/// Writes a raw ECDSA signature, two 32-byte integers, in DER. Any other
/// width is refused.
pub fn encode_as_der(data: &[u8]) -> (r: Result<Vec<u8>, Error>)
    ensures
        data@.len() == 64 ==> r is Ok && r->Ok_0@ == spec_der_signature(data@),
        data@.len() != 64 ==> r == Err::<Vec<u8>, Error>(Error::KeyLengthIsInvalid),
{
    if data.len() != 64 {
        return Err(Error::KeyLengthIsInvalid);
    }
    let mut content: Vec<u8> = Vec::new();
    push_der_uint(&mut content, data, 0, 32);
    push_der_uint(&mut content, data, 32, 64);
    proof {
        lemma_der_uint_len(data@.subrange(0, 32));
        lemma_der_uint_len(data@.subrange(32, 64));
    }
    let mut out: Vec<u8> = Vec::new();
    out.push(TAG_SEQUENCE);
    out.push(content.len() as u8);
    let ghost head = out@;
    let mut i: usize = 0;
    while i < content.len()
        invariant
            i <= content@.len(),
            out@ == head + content@.subrange(0, i as int),
        decreases content@.len() - i,
    {
        out.push(content[i]);
        i = i + 1;
        assert(out@ =~= head + content@.subrange(0, i as int));
    }
    assert(content@.subrange(0, content@.len() as int) =~= content@);
    assert(out@ =~= spec_der_signature(data@));
    Ok(out)
}

/// A zero byte in front does not change the number that bytes spell.
pub proof fn lemma_be_uint_leading_zero(s: Seq<u8>)
    ensures
        spec_be_uint(seq![0u8] + s) == spec_be_uint(s),
    decreases s.len(),
{
    let padded = seq![0u8] + s;
    if s.len() == 0 {
        assert(padded.drop_last() =~= Seq::<u8>::empty());
        assert(spec_be_uint(padded.drop_last()) == 0);
    } else {
        assert(padded.drop_last() =~= seq![0u8] + s.drop_last());
        lemma_be_uint_leading_zero(s.drop_last());
    }
}

/// Stripping zero bytes does not change the number that bytes spell, and
/// leaves no zero byte in front of another byte.
pub proof fn lemma_strip_zeros_keeps_value(s: Seq<u8>)
    requires
        s.len() >= 1,
    ensures
        spec_be_uint(spec_strip_zeros(s)) == spec_be_uint(s),
        spec_strip_zeros(s).len() > 1 ==> spec_strip_zeros(s)[0] != 0,
    decreases s.len(),
{
    if s.len() > 1 && s[0] == 0 {
        lemma_strip_zeros_keeps_value(s.drop_first());
        assert(seq![0u8] + s.drop_first() =~= s);
        lemma_be_uint_leading_zero(s.drop_first());
    }
}

/// The DER integer made from up to 32 bytes reads back as one element: an
/// integer that is not negative and spells the same number, in the shortest
/// form, with whatever was put behind it following.
pub proof fn lemma_der_uint_reads_back(s: Seq<u8>, behind: Seq<u8>)
    requires
        1 <= s.len() <= 32,
    ensures
        spec_tlv(spec_der_uint(s) + behind) is Some,
        ({
            let element = spec_tlv(spec_der_uint(s) + behind)->Some_0;
            &&& element.tag == TAG_INTEGER
            &&& element.rest == behind
            &&& element.content.len() >= 1
            &&& element.content[0] < 128
            &&& spec_be_uint(element.content) == spec_be_uint(s)
            &&& element.content.len() > 1 && element.content[0] == 0 ==> element.content[1]
                >= 128
        }),
{
    lemma_strip_zeros_len(s);
    lemma_strip_zeros_keeps_value(s);
    let digits = spec_strip_zeros(s);
    let body = if digits[0] >= 128 {
        seq![0u8] + digits
    } else {
        digits
    };
    if digits[0] >= 128 {
        lemma_be_uint_leading_zero(digits);
    }
    let whole = spec_der_uint(s) + behind;
    assert(whole[0] == TAG_INTEGER);
    assert(whole[1] == body.len());
    assert(whole.subrange(2, 2 + body.len() as int) =~= body);
    assert(whole.subrange(2 + body.len() as int, whole.len() as int) =~= behind);
}

/// The DER form of a raw signature reads back as what it stands for: one
/// sequence with nothing behind it, of two integers with nothing behind
/// them, each not negative and spelling the number of one half of the raw
/// signature.
pub proof fn law_der_signature_reads_back(raw: Seq<u8>)
    requires
        raw.len() == 64,
    ensures
        spec_tlv(spec_der_signature(raw)) is Some,
        ({
            let outer = spec_tlv(spec_der_signature(raw))->Some_0;
            let first = spec_tlv(outer.content)->Some_0;
            let second = spec_tlv(first.rest)->Some_0;
            &&& outer.tag == TAG_SEQUENCE
            &&& outer.rest.len() == 0
            &&& spec_tlv(outer.content) is Some
            &&& first.tag == TAG_INTEGER
            &&& first.content[0] < 128
            &&& spec_be_uint(first.content) == spec_be_uint(raw.subrange(0, 32))
            &&& spec_tlv(first.rest) is Some
            &&& second.tag == TAG_INTEGER
            &&& second.content[0] < 128
            &&& spec_be_uint(second.content) == spec_be_uint(raw.subrange(32, 64))
            &&& second.rest.len() == 0
        }),
{
    let r = raw.subrange(0, 32);
    let s = raw.subrange(32, 64);
    let content = spec_der_uint(r) + spec_der_uint(s);
    lemma_der_uint_len(r);
    lemma_der_uint_len(s);
    lemma_der_uint_reads_back(r, spec_der_uint(s));
    lemma_der_uint_reads_back(s, Seq::<u8>::empty());
    assert(spec_der_uint(s) + Seq::<u8>::empty() =~= spec_der_uint(s));
    let whole = spec_der_signature(raw);
    assert(whole[0] == TAG_SEQUENCE);
    assert(whole[1] == content.len());
    assert(whole.subrange(2, 2 + content.len() as int) =~= content);
    assert(whole.subrange(2 + content.len() as int, whole.len() as int) =~= Seq::<u8>::empty());
}

} // verus!
