//! Byte strings and the unsigned 64-bit numbers written in them, highest
//! byte first.

use vstd::prelude::*;
use vstd::arithmetic::div_mod::lemma_div_denominator;

verus! {

/// The eight bytes of `value`, the highest first.
pub open spec fn be64_bytes(value: u64) -> Seq<u8> {
    seq![
        (value / 0x100_0000_0000_0000) as u8,
        (value / 0x1_0000_0000_0000 % 256) as u8,
        (value / 0x100_0000_0000 % 256) as u8,
        (value / 0x1_0000_0000 % 256) as u8,
        (value / 0x100_0000 % 256) as u8,
        (value / 0x1_0000 % 256) as u8,
        (value / 0x100 % 256) as u8,
        (value % 256) as u8,
    ]
}

/// The number that the first eight bytes of `bytes` stand for, the highest
/// first.
pub open spec fn be64_value(bytes: Seq<u8>) -> u64 {
    (bytes[0] * 0x100_0000_0000_0000 + bytes[1] * 0x1_0000_0000_0000 + bytes[2] * 0x100_0000_0000
        + bytes[3] * 0x1_0000_0000 + bytes[4] * 0x100_0000 + bytes[5] * 0x1_0000 + bytes[6] * 0x100
        + bytes[7]) as u64
}

/// Appends the eight bytes of `value` to `out`.
pub fn push_be64(out: &mut Vec<u8>, value: u64)
    ensures
        final(out)@ == old(out)@ + be64_bytes(value),
{
    out.push((value / 0x100_0000_0000_0000) as u8);
    out.push((value / 0x1_0000_0000_0000 % 256) as u8);
    out.push((value / 0x100_0000_0000 % 256) as u8);
    out.push((value / 0x1_0000_0000 % 256) as u8);
    out.push((value / 0x100_0000 % 256) as u8);
    out.push((value / 0x1_0000 % 256) as u8);
    out.push((value / 0x100 % 256) as u8);
    out.push((value % 256) as u8);
    assert(out@ == old(out)@ + be64_bytes(value));
}

/// Reads the number that the eight bytes from position `at` stand for.
pub fn read_be64(bytes: &Vec<u8>, at: usize) -> (value: u64)
    requires
        at + 8 <= bytes.len(),
    ensures
        value == be64_value(bytes@.subrange(at as int, at + 8)),
{
    (bytes[at] as u64) * 0x100_0000_0000_0000 + (bytes[at + 1] as u64) * 0x1_0000_0000_0000 + (
    bytes[at + 2] as u64) * 0x100_0000_0000 + (bytes[at + 3] as u64) * 0x1_0000_0000 + (bytes[at
        + 4] as u64) * 0x100_0000 + (bytes[at + 5] as u64) * 0x1_0000 + (bytes[at + 6] as u64)
        * 0x100 + (bytes[at + 7] as u64)
}

/// Appends the bytes of `bytes` from position `from` on to `out`.
pub fn push_all(out: &mut Vec<u8>, bytes: &Vec<u8>, from: usize)
    requires
        from <= bytes.len(),
    ensures
        final(out)@ == old(out)@ + bytes@.subrange(from as int, bytes.len() as int),
{
    let mut i: usize = from;
    while i < bytes.len()
        invariant
            from <= i <= bytes.len(),
            out@ == old(out)@ + bytes@.subrange(from as int, i as int),
        decreases bytes.len() - i,
    {
        out.push(bytes[i]);
        i += 1;
    }
}

/// Whether two byte strings are the same.
pub fn same_bytes(a: &Vec<u8>, b: &Vec<u8>) -> (same: bool)
    ensures
        same == (a@ == b@),
{
    if a.len() != b.len() {
        return false;
    }
    let mut i: usize = 0;
    while i < a.len()
        invariant
            i <= a.len(),
            a.len() == b.len(),
            a@.subrange(0, i as int) == b@.subrange(0, i as int),
        decreases a.len() - i,
    {
        if a[i] != b[i] {
            return false;
        }
        assert(a@.subrange(0, i + 1) == a@.subrange(0, i as int).push(a@[i as int]));
        assert(b@.subrange(0, i + 1) == b@.subrange(0, i as int).push(b@[i as int]));
        i += 1;
    }
    assert(a@.subrange(0, a@.len() as int) == a@);
    assert(b@.subrange(0, b@.len() as int) == b@);
    true
}

/// The eight bytes of a number stand for that number.
pub proof fn lemma_be64_round_trip(value: u64)
    ensures
        be64_bytes(value).len() == 8,
        be64_value(be64_bytes(value)) == value,
{
    let v = value as int;
    let d1 = v / 0x100;
    let d2 = v / 0x1_0000;
    let d3 = v / 0x100_0000;
    let d4 = v / 0x1_0000_0000;
    let d5 = v / 0x100_0000_0000;
    let d6 = v / 0x1_0000_0000_0000;
    let d7 = v / 0x100_0000_0000_0000;
    lemma_div_denominator(v, 0x100, 0x100);
    lemma_div_denominator(v, 0x1_0000, 0x100);
    lemma_div_denominator(v, 0x100_0000, 0x100);
    lemma_div_denominator(v, 0x1_0000_0000, 0x100);
    lemma_div_denominator(v, 0x100_0000_0000, 0x100);
    lemma_div_denominator(v, 0x1_0000_0000_0000, 0x100);
    assert(d2 == d1 / 256 && d3 == d2 / 256 && d4 == d3 / 256 && d5 == d4 / 256 && d6 == d5 / 256
        && d7 == d6 / 256);
    assert(v == 256 * d1 + v % 256);
    assert(d1 == 256 * d2 + d1 % 256);
    assert(d2 == 256 * d3 + d2 % 256);
    assert(d3 == 256 * d4 + d3 % 256);
    assert(d4 == 256 * d5 + d4 % 256);
    assert(d5 == 256 * d6 + d5 % 256);
    assert(d6 == 256 * d7 + d6 % 256);
    assert(0 <= d7 < 256);
}

} // verus!
