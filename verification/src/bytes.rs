//! Bytes in guest memory: little-endian integers and copies into buffers.

use vstd::prelude::*;

verus! {

/// The two bytes of `x`, least significant first.
pub open spec fn le16(x: u16) -> Seq<u8> {
    seq![(x % 0x100) as u8, (x / 0x100) as u8]
}

/// The four bytes of `x`, least significant first.
pub open spec fn le32(x: u32) -> Seq<u8> {
    seq![
        (x % 0x100) as u8,
        (x / 0x100 % 0x100) as u8,
        (x / 0x1_0000 % 0x100) as u8,
        (x / 0x100_0000) as u8,
    ]
}

/// The eight bytes of `x`, least significant first.
pub open spec fn le64(x: u64) -> Seq<u8> {
    seq![
        (x % 0x100) as u8,
        (x / 0x100 % 0x100) as u8,
        (x / 0x1_0000 % 0x100) as u8,
        (x / 0x100_0000 % 0x100) as u8,
        (x / 0x1_0000_0000 % 0x100) as u8,
        (x / 0x100_0000_0000 % 0x100) as u8,
        (x / 0x1_0000_0000_0000 % 0x100) as u8,
        (x / 0x100_0000_0000_0000) as u8,
    ]
}

/// `n` zero bytes.
pub open spec fn zeros(n: nat) -> Seq<u8> {
    Seq::new(n, |i: int| 0u8)
}

/// The number whose little-endian bytes are the `n` bytes of `s` from `at`.
pub open spec fn from_le(s: Seq<u8>, at: int, n: nat) -> int
    decreases n,
{
    if n == 0 {
        0
    } else {
        s[at] as int + 0x100 * from_le(s, at + 1, (n - 1) as nat)
    }
}

/// Appends the two bytes of `x`, least significant first.
pub fn push_le16(out: &mut Vec<u8>, x: u16)
    ensures
        final(out)@ == old(out)@ + le16(x),
{
    out.push((x % 0x100) as u8);
    out.push((x / 0x100) as u8);
    assert(out@ =~= old(out)@ + le16(x));
}

/// Appends the four bytes of `x`, least significant first.
pub fn push_le32(out: &mut Vec<u8>, x: u32)
    ensures
        final(out)@ == old(out)@ + le32(x),
{
    out.push((x % 0x100) as u8);
    out.push((x / 0x100 % 0x100) as u8);
    out.push((x / 0x1_0000 % 0x100) as u8);
    out.push((x / 0x100_0000) as u8);
    assert(out@ =~= old(out)@ + le32(x));
}

/// Appends the eight bytes of `x`, least significant first.
pub fn push_le64(out: &mut Vec<u8>, x: u64)
    ensures
        final(out)@ == old(out)@ + le64(x),
{
    out.push((x % 0x100) as u8);
    out.push((x / 0x100 % 0x100) as u8);
    out.push((x / 0x1_0000 % 0x100) as u8);
    out.push((x / 0x100_0000 % 0x100) as u8);
    out.push((x / 0x1_0000_0000 % 0x100) as u8);
    out.push((x / 0x100_0000_0000 % 0x100) as u8);
    out.push((x / 0x1_0000_0000_0000 % 0x100) as u8);
    out.push((x / 0x100_0000_0000_0000) as u8);
    assert(out@ =~= old(out)@ + le64(x));
}

/// Appends `n` zero bytes.
pub fn push_zeros(out: &mut Vec<u8>, n: usize)
    ensures
        final(out)@ == old(out)@ + zeros(n as nat),
{
    let mut i: usize = 0;
    while i < n
        invariant
            i <= n,
            out@ == old(out)@ + zeros(i as nat),
        decreases n - i,
    {
        out.push(0u8);
        i = i + 1;
        assert(out@ =~= old(out)@ + zeros(i as nat));
    }
    assert(out@ =~= old(out)@ + zeros(n as nat));
}

/// Appends the first `n` bytes of `src`.
pub fn push_prefix(out: &mut Vec<u8>, src: &Vec<u8>, n: usize)
    requires
        n <= src@.len(),
    ensures
        final(out)@ == old(out)@ + src@.take(n as int),
{
    let mut i: usize = 0;
    assert(out@ =~= old(out)@ + src@.take(0));
    while i < n
        invariant
            i <= n <= src@.len(),
            out@ == old(out)@ + src@.take(i as int),
        decreases n - i,
    {
        out.push(src[i]);
        i = i + 1;
        assert(out@ =~= old(out)@ + src@.take(i as int));
    }
}

/// Appends all of `src`.
pub fn push_all(out: &mut Vec<u8>, src: &Vec<u8>)
    ensures
        final(out)@ == old(out)@ + src@,
{
    push_prefix(out, src, src.len());
    assert(src@.take(src@.len() as int) =~= src@);
}

/// Reads the two bytes at `at` as a little-endian number.
pub fn read_le16(bytes: &Vec<u8>, at: usize) -> (r: u16)
    requires
        at + 2 <= bytes.len(),
    ensures
        r == from_le(bytes@, at as int, 2),
{
    let b0: u16 = bytes[at] as u16;
    let b1: u16 = bytes[at + 1] as u16;
    proof {
        reveal_with_fuel(from_le, 3);
    }
    b0 + 0x100 * b1
}

/// Reads the four bytes at `at` as a little-endian number.
pub fn read_le32(bytes: &Vec<u8>, at: usize) -> (r: u32)
    requires
        at + 4 <= bytes.len(),
    ensures
        r == from_le(bytes@, at as int, 4),
{
    let b0: u32 = bytes[at] as u32;
    let b1: u32 = bytes[at + 1] as u32;
    let b2: u32 = bytes[at + 2] as u32;
    let b3: u32 = bytes[at + 3] as u32;
    proof {
        reveal_with_fuel(from_le, 5);
    }
    b0 + 0x100 * b1 + 0x1_0000 * b2 + 0x100_0000 * b3
}

/// The number that eight bytes stand for is the number of the lower four plus
/// 2^32 times the number of the upper four.
pub proof fn lemma_from_le_split(s: Seq<u8>, at: int)
    ensures
        from_le(s, at, 8) == from_le(s, at, 4) + 0x1_0000_0000 * from_le(s, at + 4, 4),
        0 <= from_le(s, at, 4) < 0x1_0000_0000,
{
    reveal_with_fuel(from_le, 9);
}

/// Reads the eight bytes at `at` as a little-endian number.
pub fn read_le64(bytes: &Vec<u8>, at: usize) -> (r: u64)
    requires
        at + 8 <= bytes.len(),
    ensures
        r == from_le(bytes@, at as int, 8),
{
    let lo: u32 = read_le32(bytes, at);
    let hi: u32 = read_le32(bytes, at + 4);
    proof {
        lemma_from_le_split(bytes@, at as int);
    }
    lo as u64 + 0x1_0000_0000 * (hi as u64)
}

/// The bytes of a 16-bit number stand for that number.
pub proof fn lemma_le16_round_trip(x: u16)
    ensures
        from_le(le16(x), 0, 2) == x,
{
    reveal_with_fuel(from_le, 3);
}

/// The bytes of a 32-bit number stand for that number.
pub proof fn lemma_le32_round_trip(x: u32)
    ensures
        from_le(le32(x), 0, 4) == x,
{
    reveal_with_fuel(from_le, 5);
}

/// The lower four bytes of a 64-bit number are the bytes of its lower half,
/// and the upper four the bytes of its upper half.
proof fn lemma_le64_halves(x: u64, lo: u64, hi: u64)
    by (bit_vector)
    requires
        lo == x % 0x1_0000_0000,
        hi == x / 0x1_0000_0000,
    ensures
        x % 0x100 == lo % 0x100,
        x / 0x100 % 0x100 == lo / 0x100 % 0x100,
        x / 0x1_0000 % 0x100 == lo / 0x1_0000 % 0x100,
        x / 0x100_0000 % 0x100 == lo / 0x100_0000,
        x / 0x1_0000_0000 % 0x100 == hi % 0x100,
        x / 0x100_0000_0000 % 0x100 == hi / 0x100 % 0x100,
        x / 0x1_0000_0000_0000 % 0x100 == hi / 0x1_0000 % 0x100,
        x / 0x100_0000_0000_0000 == hi / 0x100_0000,
        lo < 0x1_0000_0000,
        hi < 0x1_0000_0000,
{
}

/// The bytes of a 64-bit number stand for that number.
pub proof fn lemma_le64_round_trip(x: u64)
    ensures
        from_le(le64(x), 0, 8) == x,
{
    let s = le64(x);
    let lo: u64 = x % 0x1_0000_0000;
    let hi: u64 = x / 0x1_0000_0000;
    lemma_le64_halves(x, lo, hi);
    lemma_le32_round_trip(lo as u32);
    lemma_le32_round_trip(hi as u32);
    assert(s.subrange(0, 4) =~= le32(lo as u32));
    assert(s.subrange(4, 8) =~= le32(hi as u32));
    lemma_from_le_within(s, le32(lo as u32), 0, 4);
    lemma_from_le_within(s, le32(hi as u32), 4, 4);
    lemma_from_le_split(s, 0);
}

/// What bytes stand for does not depend on what lies around them.
pub proof fn lemma_from_le_within(whole: Seq<u8>, part: Seq<u8>, at: int, n: nat)
    requires
        0 <= at,
        at + part.len() <= whole.len(),
        n <= part.len(),
        whole.subrange(at, at + part.len()) == part,
    ensures
        from_le(whole, at, n) == from_le(part, 0, n),
{
    lemma_from_le_shift(whole, part, at, 0, n);
}

proof fn lemma_from_le_shift(whole: Seq<u8>, part: Seq<u8>, at: int, from: int, n: nat)
    requires
        0 <= at,
        0 <= from,
        at + part.len() <= whole.len(),
        from + n <= part.len(),
        whole.subrange(at, at + part.len()) == part,
    ensures
        from_le(whole, at + from, n) == from_le(part, from, n),
    decreases n,
{
    if n > 0 {
        assert(part[from] == whole.subrange(at, at + part.len())[from]);
        lemma_from_le_shift(whole, part, at, from + 1, (n - 1) as nat);
    }
}

} // verus!
