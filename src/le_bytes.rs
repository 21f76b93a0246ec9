use vstd::prelude::*;
use byteorder::{ByteOrder, LittleEndian};

verus! {

/// The number that `s` encodes, least significant byte first.
pub open spec fn le_value(s: Seq<u8>) -> nat
    decreases s.len(),
{
    if s.len() == 0 {
        0
    } else {
        s[0] as nat + 256 * le_value(s.drop_first())
    }
}

/// The little-endian number in `b[start .. start + len]`.
pub open spec fn le_field(b: Seq<u8>, start: int, len: int) -> nat {
    le_value(b.subrange(start, start + len))
}

/// Relies on byteorder's `LittleEndian::read_u32`: the four bytes at `buf[pos..pos + 4]`,
/// least significant first.
#[verifier::external_body]
pub(crate) fn read_u32_at(buf: &[u8], pos: usize) -> (r: u32)
    requires
        pos + 4 <= buf@.len(),
    ensures
        r as nat == le_field(buf@, pos as int, 4),
{
    LittleEndian::read_u32(&buf[pos..])
}

/// Relies on byteorder's `LittleEndian::read_u64`: the eight bytes at `buf[pos..pos + 8]`,
/// least significant first.
#[verifier::external_body]
pub(crate) fn read_u64_at(buf: &[u8], pos: usize) -> (r: u64)
    requires
        pos + 8 <= buf@.len(),
    ensures
        r as nat == le_field(buf@, pos as int, 8),
{
    LittleEndian::read_u64(&buf[pos..])
}

/// Relies on byteorder's `LittleEndian::write_u32`: `n` as four bytes, least
/// significant first.
#[verifier::external_body]
pub(crate) fn u32_to_le(n: u32) -> (r: Vec<u8>)
    ensures
        r@.len() == 4,
        le_value(r@) == n as nat,
{
    let mut b = [0u8; 4];
    LittleEndian::write_u32(&mut b, n);
    b.to_vec()
}

/// Relies on byteorder's `LittleEndian::write_u64`: `n` as eight bytes, least
/// significant first.
#[verifier::external_body]
pub(crate) fn u64_to_le(n: u64) -> (r: Vec<u8>)
    ensures
        r@.len() == 8,
        le_value(r@) == n as nat,
{
    let mut b = [0u8; 8];
    LittleEndian::write_u64(&mut b, n);
    b.to_vec()
}

/// Appends `b` to `out`.
pub(crate) fn push_all(out: &mut Vec<u8>, b: &Vec<u8>)
    ensures
        final(out)@ == old(out)@ + b@,
{
    let mut i: usize = 0;
    while i < b.len()
        invariant
            i <= b@.len(),
            out@ == old(out)@ + b@.subrange(0, i as int),
        decreases b@.len() - i,
    {
        out.push(b[i]);
        proof {
            assert(b@.subrange(0, i + 1) =~= b@.subrange(0, i as int).push(b@[i as int]));
        }
        i = i + 1;
    }
    assert(b@.subrange(0, i as int) =~= b@);
}

} // verus!
