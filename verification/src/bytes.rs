//! Integers and fixed-size fields read out of byte strings.

use vstd::prelude::*;

verus! {

/// The 16-bit integer whose little-endian bytes stand at `at`.
pub open spec fn spec_u16_le(s: Seq<u8>, at: int) -> u16 {
    (s[at] as int + 256 * (s[at + 1] as int)) as u16
}

/// The 32-bit integer whose little-endian bytes stand at `at`.
pub open spec fn spec_u32_le(s: Seq<u8>, at: int) -> u32 {
    (s[at] as int + 256 * (s[at + 1] as int) + 65536 * (s[at + 2] as int) + 16777216 * (s[at
        + 3] as int)) as u32
}

/// The 16-bit integer whose big-endian bytes are `hi`, `lo`.
pub open spec fn spec_u16_be(hi: u8, lo: u8) -> u16 {
    (256 * (hi as int) + lo as int) as u16
}

/// The two big-endian bytes of a 16-bit integer.
pub open spec fn spec_u16_be_bytes(x: u16) -> Seq<u8> {
    seq![(x / 256) as u8, (x % 256) as u8]
}

/// Reads the 16-bit integer whose little-endian bytes stand at `at`.
pub(crate) fn read_u16_le(input: &[u8], at: usize) -> (r: u16)
    requires
        at + 2 <= input@.len(),
    ensures
        r == spec_u16_le(input@, at as int),
{
    let lo: u16 = input[at] as u16;
    let hi: u16 = input[at + 1] as u16;
    lo + 256 * hi
}

/// Reads the 32-bit integer whose little-endian bytes stand at `at`.
pub(crate) fn read_u32_le(input: &[u8], at: usize) -> (r: u32)
    requires
        at + 4 <= input@.len(),
    ensures
        r == spec_u32_le(input@, at as int),
{
    let b0: u32 = input[at] as u32;
    let b1: u32 = input[at + 1] as u32;
    let b2: u32 = input[at + 2] as u32;
    let b3: u32 = input[at + 3] as u32;
    b0 + 256 * b1 + 65536 * b2 + 16777216 * b3
}

/// Copies the `N` bytes that stand at `at`.
pub(crate) fn read_array<const N: usize>(input: &[u8], at: usize) -> (r: [u8; N])
    requires
        at + N <= input@.len(),
    ensures
        r@ == input@.subrange(at as int, at + N),
{
    let len: usize = input.len();
    let mut out: [u8; N] = [0u8; N];
    let mut i: usize = 0;
    while i < N
        invariant
            i <= N,
            at + N <= input@.len() == len,
            forall|j: int| 0 <= j < i ==> out@[j] == input@[at + j],
        decreases N - i,
    {
        out[i] = input[at + i];
        i = i + 1;
    }
    assert(out@ =~= input@.subrange(at as int, at + N));
    out
}

/// Copies the bytes from `from` up to `to`.
pub(crate) fn read_vec(input: &[u8], from: usize, to: usize) -> (r: Vec<u8>)
    requires
        from <= to <= input@.len(),
    ensures
        r@ == input@.subrange(from as int, to as int),
{
    let mut out: Vec<u8> = Vec::new();
    let mut i: usize = from;
    while i < to
        invariant
            from <= i <= to <= input@.len(),
            out@ == input@.subrange(from as int, i as int),
        decreases to - i,
    {
        out.push(input[i]);
        i = i + 1;
        assert(out@ =~= input@.subrange(from as int, i as int));
    }
    out
}

/// Appends the bytes of `data` to `out`.
pub(crate) fn append(out: &mut Vec<u8>, data: &[u8])
    ensures
        final(out)@ == old(out)@ + data@,
{
    let mut i: usize = 0;
    while i < data.len()
        invariant
            i <= data@.len(),
            out@ == old(out)@ + data@.subrange(0, i as int),
        decreases data@.len() - i,
    {
        out.push(data[i]);
        i = i + 1;
        assert(out@ =~= old(out)@ + data@.subrange(0, i as int));
    }
    assert(data@.subrange(0, data@.len() as int) =~= data@);
}

/// Appends the two big-endian bytes of `x` to `out`.
pub(crate) fn append_u16_be(out: &mut Vec<u8>, x: u16)
    ensures
        final(out)@ == old(out)@ + spec_u16_be_bytes(x),
{
    out.push((x / 256) as u8);
    out.push((x % 256) as u8);
    assert(out@ =~= old(out)@ + spec_u16_be_bytes(x));
}

} // verus!
