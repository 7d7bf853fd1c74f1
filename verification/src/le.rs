//! Numbers as little-endian bytes.

use vstd::prelude::*;

verus! {

/// A number below 2^16 as two bytes, low byte first.
pub open spec fn le16(x: int) -> Seq<u8> {
    seq![(x % 256) as u8, (x / 256 % 256) as u8]
}

/// A number below 2^32 as four bytes, low byte first.
pub open spec fn le32(x: int) -> Seq<u8> {
    seq![
        (x % 256) as u8,
        (x / 256 % 256) as u8,
        (x / 65536 % 256) as u8,
        (x / 16777216 % 256) as u8,
    ]
}

/// The number that two bytes at `at` stand for, low byte first.
pub open spec fn u16_at(s: Seq<u8>, at: int) -> int {
    s[at] + 256 * s[at + 1]
}

/// The number that four bytes at `at` stand for, low byte first.
pub open spec fn u32_at(s: Seq<u8>, at: int) -> int {
    s[at] + 256 * s[at + 1] + 65536 * s[at + 2] + 16777216 * s[at + 3]
}

/// The 16-bit pattern of a signed number, in two's complement.
pub open spec fn pattern16(v: int) -> int {
    if v < 0 {
        v + 65536
    } else {
        v
    }
}

/// The 32-bit pattern of a signed number, in two's complement.
pub open spec fn pattern32(v: int) -> int {
    if v < 0 {
        v + 4294967296
    } else {
        v
    }
}

/// The signed number that a 16-bit pattern stands for.
pub open spec fn signed16(p: int) -> int {
    if p >= 32768 {
        p - 65536
    } else {
        p
    }
}

/// The signed number that a 32-bit pattern stands for.
pub open spec fn signed32(p: int) -> int {
    if p >= 2147483648 {
        p - 4294967296
    } else {
        p
    }
}

/// The number that eight bytes at `at` stand for, low byte first.
pub open spec fn u64_at(s: Seq<u8>, at: int) -> int {
    u32_at(s, at) + 4294967296 * u32_at(s, at + 4)
}

pub(crate) fn put_u16(out: &mut Vec<u8>, x: u16)
    ensures
        final(out)@ == old(out)@ + le16(x as int),
{
    out.push((x % 256) as u8);
    out.push((x / 256) as u8);
    assert(out@ =~= old(out)@ + le16(x as int));
}

pub(crate) fn put_u32(out: &mut Vec<u8>, x: u32)
    ensures
        final(out)@ == old(out)@ + le32(x as int),
{
    out.push((x % 256) as u8);
    out.push((x / 256 % 256) as u8);
    out.push((x / 65536 % 256) as u8);
    out.push((x / 16777216) as u8);
    assert(out@ =~= old(out)@ + le32(x as int));
}

pub(crate) fn put_i16(out: &mut Vec<u8>, v: i16)
    ensures
        final(out)@ == old(out)@ + le16(pattern16(v as int)),
{
    let p: u16 = if v < 0 {
        (v as i32 + 65536) as u16
    } else {
        v as u16
    };
    put_u16(out, p);
}

pub(crate) fn put_i32(out: &mut Vec<u8>, v: i32)
    ensures
        final(out)@ == old(out)@ + le32(pattern32(v as int)),
{
    let p: u32 = if v < 0 {
        (v as i64 + 4294967296) as u32
    } else {
        v as u32
    };
    put_u32(out, p);
}

pub(crate) fn get_u16(bytes: &[u8], at: usize) -> (x: u16)
    requires
        at + 2 <= bytes@.len(),
    ensures
        x == u16_at(bytes@, at as int),
{
    bytes[at] as u16 + 256 * (bytes[at + 1] as u16)
}

pub(crate) fn get_u32(bytes: &[u8], at: usize) -> (x: u32)
    requires
        at + 4 <= bytes@.len(),
    ensures
        x == u32_at(bytes@, at as int),
{
    bytes[at] as u32 + 256 * (bytes[at + 1] as u32) + 65536 * (bytes[at + 2] as u32) + 16777216 * (
    bytes[at + 3] as u32)
}

pub(crate) fn get_i16(bytes: &[u8], at: usize) -> (v: i16)
    requires
        at + 2 <= bytes@.len(),
    ensures
        v == signed16(u16_at(bytes@, at as int)),
{
    let p: u16 = get_u16(bytes, at);
    if p >= 32768 {
        (p as i32 - 65536) as i16
    } else {
        p as i16
    }
}

pub(crate) fn get_i32(bytes: &[u8], at: usize) -> (v: i32)
    requires
        at + 4 <= bytes@.len(),
    ensures
        v == signed32(u32_at(bytes@, at as int)),
{
    let p: u32 = get_u32(bytes, at);
    if p >= 2147483648 {
        (p as i64 - 4294967296) as i32
    } else {
        p as i32
    }
}

pub(crate) fn get_u64(bytes: &[u8], at: usize) -> (x: u64)
    requires
        at + 8 <= bytes@.len(),
    ensures
        x == u64_at(bytes@, at as int),
{
    let len: usize = bytes.len();
    assert(at + 8 <= len);
    let low: u32 = get_u32(bytes, at);
    let high: u32 = get_u32(bytes, at + 4);
    low as u64 + 4294967296 * (high as u64)
}

/// Two bytes written low byte first read back as the number they were
/// written from.
pub proof fn lemma_le16_reads_back(x: int, s: Seq<u8>, at: int)
    requires
        0 <= x < 65536,
        0 <= at,
        at + 2 <= s.len(),
        s.subrange(at, at + 2) == le16(x),
    ensures
        u16_at(s, at) == x,
{
    assert(s[at] == s.subrange(at, at + 2)[0]);
    assert(s[at + 1] == s.subrange(at, at + 2)[1]);
}

/// Four bytes written low byte first read back as the number they were
/// written from.
pub proof fn lemma_le32_reads_back(x: int, s: Seq<u8>, at: int)
    requires
        0 <= x < 4294967296,
        0 <= at,
        at + 4 <= s.len(),
        s.subrange(at, at + 4) == le32(x),
    ensures
        u32_at(s, at) == x,
{
    assert(s[at] == s.subrange(at, at + 4)[0]);
    assert(s[at + 1] == s.subrange(at, at + 4)[1]);
    assert(s[at + 2] == s.subrange(at, at + 4)[2]);
    assert(s[at + 3] == s.subrange(at, at + 4)[3]);
}

/// Two bytes read low byte first are written back as they were.
pub proof fn lemma_le16_writes_back(s: Seq<u8>, at: int)
    requires
        0 <= at,
        at + 2 <= s.len(),
    ensures
        0 <= u16_at(s, at) < 65536,
        le16(u16_at(s, at)) == s.subrange(at, at + 2),
{
    assert(le16(u16_at(s, at)) =~= s.subrange(at, at + 2));
}

/// Four bytes read low byte first are written back as they were.
pub proof fn lemma_le32_writes_back(s: Seq<u8>, at: int)
    requires
        0 <= at,
        at + 4 <= s.len(),
    ensures
        0 <= u32_at(s, at) < 4294967296,
        le32(u32_at(s, at)) == s.subrange(at, at + 4),
{
    let x = u32_at(s, at);
    let high = s[at + 2] + 256 * s[at + 3];
    let upper = s[at + 1] + 256 * high;
    assert(x == s[at] + 256 * upper);
    assert(x % 256 == s[at] && x / 256 == upper);
    assert(upper % 256 == s[at + 1] && upper / 256 == high);
    assert(x == s[at] + 256 * s[at + 1] + 65536 * high);
    assert(x / 65536 == high);
    assert(high % 256 == s[at + 2]);
    assert(x / 16777216 == s[at + 3]);
    assert(le32(x) =~= s.subrange(at, at + 4));
}

} // verus!
