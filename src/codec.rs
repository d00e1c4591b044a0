//! Byte-level building blocks of the storage and command layouts: fixed-width
//! integers, one-byte flags, 32-byte identities and length-prefixed text.
use vstd::prelude::*;

verus! {

/// The four little-endian bytes of `n`.
pub open spec fn le_u32(n: u32) -> Seq<u8> {
    seq![
        (n & 0xff) as u8,
        ((n >> 8u32) & 0xff) as u8,
        ((n >> 16u32) & 0xff) as u8,
        ((n >> 24u32) & 0xff) as u8,
    ]
}

/// The `u32` whose little-endian bytes are `b0 .. b3`.
pub open spec fn u32_from_le(b0: u8, b1: u8, b2: u8, b3: u8) -> u32 {
    (b0 as u32) | ((b1 as u32) << 8u32) | ((b2 as u32) << 16u32) | ((b3 as u32) << 24u32)
}

/// The `i`-th least significant byte of `n`.
pub open spec fn byte_of(n: u64, i: u64) -> u8 {
    ((n >> ((8 * i) as u64)) & 0xff) as u8
}

/// The eight little-endian bytes of `n`, as stored in a cell.
pub open spec fn le_u64(n: u64) -> Seq<u8> {
    seq![
        byte_of(n, 0),
        byte_of(n, 1),
        byte_of(n, 2),
        byte_of(n, 3),
        byte_of(n, 4),
        byte_of(n, 5),
        byte_of(n, 6),
        byte_of(n, 7),
    ]
}

/// The eight big-endian bytes of `n`, as used in address seeds.
pub open spec fn be_u64(n: u64) -> Seq<u8> {
    seq![
        byte_of(n, 7),
        byte_of(n, 6),
        byte_of(n, 5),
        byte_of(n, 4),
        byte_of(n, 3),
        byte_of(n, 2),
        byte_of(n, 1),
        byte_of(n, 0),
    ]
}

/// The `u64` whose little-endian bytes are the first eight of `b`.
pub open spec fn u64_from_le(b: Seq<u8>) -> u64
    recommends
        b.len() >= 8,
{
    (b[0] as u64) | ((b[1] as u64) << 8u64) | ((b[2] as u64) << 16u64) | ((b[3] as u64) << 24u64)
        | ((b[4] as u64) << 32u64) | ((b[5] as u64) << 40u64) | ((b[6] as u64) << 48u64) | ((
    b[7] as u64) << 56u64)
}

/// A flag as one byte.
pub open spec fn enc_flag(f: bool) -> Seq<u8> {
    seq![if f { 1u8 } else { 0u8 }]
}

/// Text as its length (four bytes, little-endian) followed by its bytes.
pub open spec fn enc_text(t: Seq<u8>) -> Seq<u8> {
    le_u32(t.len() as u32) + t
}

/// Reads length-prefixed text off the front of `d`: the text and what follows it.
pub open spec fn parse_text(d: Seq<u8>) -> Option<(Seq<u8>, Seq<u8>)> {
    if d.len() < 4 {
        None
    } else {
        let n = u32_from_le(d[0], d[1], d[2], d[3]) as int;
        if 4 + n <= d.len() {
            Some((d.subrange(4, 4 + n), d.subrange(4 + n, d.len() as int)))
        } else {
            None
        }
    }
}

/// Reads a flag byte (0 or 1) off the front of `d`.
pub open spec fn parse_flag(d: Seq<u8>) -> Option<(bool, Seq<u8>)> {
    if d.len() >= 1 && d[0] <= 1 {
        Some((d[0] == 1, d.subrange(1, d.len() as int)))
    } else {
        None
    }
}

/// Reads a 32-byte identity off the front of `d`.
pub open spec fn parse_key(d: Seq<u8>) -> Option<(Seq<u8>, Seq<u8>)> {
    if d.len() >= 32 {
        Some((d.subrange(0, 32), d.subrange(32, d.len() as int)))
    } else {
        None
    }
}

/// Reads a little-endian `u64` off the front of `d`.
pub open spec fn parse_u64(d: Seq<u8>) -> Option<(u64, Seq<u8>)> {
    if d.len() >= 8 {
        Some((u64_from_le(d), d.subrange(8, d.len() as int)))
    } else {
        None
    }
}

pub proof fn lemma_u32_round_trip(n: u32)
    ensures
        u32_from_le(le_u32(n)[0], le_u32(n)[1], le_u32(n)[2], le_u32(n)[3]) == n,
{
    assert(((n & 0xff) as u8 as u32) | ((((n >> 8u32) & 0xff) as u8 as u32) << 8u32) | ((((n
        >> 16u32) & 0xff) as u8 as u32) << 16u32) | ((((n >> 24u32) & 0xff) as u8 as u32)
        << 24u32) == n) by (bit_vector);
}

pub proof fn lemma_u64_round_trip(n: u64)
    ensures
        u64_from_le(le_u64(n)) == n,
{
    assert(((n >> 0u64) & 0xff) as u8 as u64 | (((n >> 8u64) & 0xff) as u8 as u64) << 8u64 | (((
    n >> 16u64) & 0xff) as u8 as u64) << 16u64 | (((n >> 24u64) & 0xff) as u8 as u64) << 24u64
        | (((n >> 32u64) & 0xff) as u8 as u64) << 32u64 | (((n >> 40u64) & 0xff) as u8 as u64)
        << 40u64 | (((n >> 48u64) & 0xff) as u8 as u64) << 48u64 | (((n >> 56u64) & 0xff) as u8
        as u64) << 56u64 == n) by (bit_vector);
}

/// Distinct counters give distinct big-endian seeds.
pub proof fn lemma_be_u64_injective(a: u64, b: u64)
    requires
        a != b,
    ensures
        be_u64(a) != be_u64(b),
{
    lemma_u64_round_trip(a);
    lemma_u64_round_trip(b);
    if be_u64(a) == be_u64(b) {
        assert(le_u64(a) =~= le_u64(b)) by {
            assert(be_u64(a)[0] == be_u64(b)[0]);
            assert(be_u64(a)[1] == be_u64(b)[1]);
            assert(be_u64(a)[2] == be_u64(b)[2]);
            assert(be_u64(a)[3] == be_u64(b)[3]);
            assert(be_u64(a)[4] == be_u64(b)[4]);
            assert(be_u64(a)[5] == be_u64(b)[5]);
            assert(be_u64(a)[6] == be_u64(b)[6]);
            assert(be_u64(a)[7] == be_u64(b)[7]);
        }
    }
}

pub proof fn lemma_parse_text(t: Seq<u8>, rest: Seq<u8>)
    requires
        t.len() <= u32::MAX,
    ensures
        parse_text(enc_text(t) + rest) == Some((t, rest)),
{
    let d = enc_text(t) + rest;
    let n = t.len() as u32;
    lemma_u32_round_trip(n);
    assert(d[0] == le_u32(n)[0] && d[1] == le_u32(n)[1] && d[2] == le_u32(n)[2] && d[3]
        == le_u32(n)[3]);
    assert(d.subrange(4, 4 + t.len() as int) =~= t);
    assert(d.subrange(4 + t.len() as int, d.len() as int) =~= rest);
}

pub proof fn lemma_parse_flag(f: bool, rest: Seq<u8>)
    ensures
        parse_flag(enc_flag(f) + rest) == Some((f, rest)),
{
    let d = enc_flag(f) + rest;
    assert(d.subrange(1, d.len() as int) =~= rest);
}

pub proof fn lemma_parse_key(k: Seq<u8>, rest: Seq<u8>)
    requires
        k.len() == 32,
    ensures
        parse_key(k + rest) == Some((k, rest)),
{
    let d = k + rest;
    assert(d.subrange(0, 32) =~= k);
    assert(d.subrange(32, d.len() as int) =~= rest);
}

pub proof fn lemma_parse_u64(n: u64, rest: Seq<u8>)
    ensures
        parse_u64(le_u64(n) + rest) == Some((n, rest)),
{
    let d = le_u64(n) + rest;
    lemma_u64_round_trip(n);
    assert(d.subrange(8, d.len() as int) =~= rest);
    assert(u64_from_le(d) == u64_from_le(le_u64(n))) by {
        assert(d[0] == le_u64(n)[0] && d[1] == le_u64(n)[1] && d[2] == le_u64(n)[2] && d[3]
            == le_u64(n)[3]);
        assert(d[4] == le_u64(n)[4] && d[5] == le_u64(n)[5] && d[6] == le_u64(n)[6] && d[7]
            == le_u64(n)[7]);
    }
}

/// Appends `src` to `out`.
pub fn append_bytes(out: &mut Vec<u8>, src: &[u8])
    ensures
        final(out)@ == old(out)@ + src@,
{
    let mut i: usize = 0;
    while i < src.len()
        invariant
            i <= src@.len(),
            out@ == old(out)@ + src@.subrange(0, i as int),
        decreases src@.len() - i,
    {
        out.push(src[i]);
        i = i + 1;
        assert(out@ =~= old(out)@ + src@.subrange(0, i as int));
    }
    assert(src@.subrange(0, src@.len() as int) =~= src@);
}

pub fn push_u32_le(out: &mut Vec<u8>, n: u32)
    ensures
        final(out)@ == old(out)@ + le_u32(n),
{
    out.push((n & 0xff) as u8);
    out.push(((n >> 8u32) & 0xff) as u8);
    out.push(((n >> 16u32) & 0xff) as u8);
    out.push(((n >> 24u32) & 0xff) as u8);
    assert(out@ =~= old(out)@ + le_u32(n));
}

pub fn push_u64_le(out: &mut Vec<u8>, n: u64)
    ensures
        final(out)@ == old(out)@ + le_u64(n),
{
    let mut i: u64 = 0;
    while i < 8
        invariant
            i <= 8,
            out@ == old(out)@ + le_u64(n).subrange(0, i as int),
        decreases 8 - i,
    {
        out.push(((n >> (8 * i)) & 0xff) as u8);
        i = i + 1;
        assert(out@ =~= old(out)@ + le_u64(n).subrange(0, i as int));
    }
    assert(le_u64(n).subrange(0, 8) =~= le_u64(n));
}

/// The big-endian bytes of `n`.
pub fn u64_to_be_bytes(n: u64) -> (r: Vec<u8>)
    ensures
        r@ == be_u64(n),
{
    let mut r: Vec<u8> = Vec::new();
    let mut i: u64 = 8;
    while i > 0
        invariant
            i <= 8,
            r@ == be_u64(n).subrange(0, 8 - i),
        decreases i,
    {
        i = i - 1;
        r.push(((n >> (8 * i)) & 0xff) as u8);
        assert(r@ =~= be_u64(n).subrange(0, 8 - i));
    }
    assert(be_u64(n).subrange(0, 8) =~= be_u64(n));
    r
}

pub fn push_flag(out: &mut Vec<u8>, f: bool)
    ensures
        final(out)@ == old(out)@ + enc_flag(f),
{
    out.push(if f { 1u8 } else { 0u8 });
    assert(out@ =~= old(out)@ + enc_flag(f));
}

pub fn push_text(out: &mut Vec<u8>, t: &[u8])
    requires
        t@.len() <= u32::MAX,
    ensures
        final(out)@ == old(out)@ + enc_text(t@),
{
    push_u32_le(out, t.len() as u32);
    append_bytes(out, t);
    assert(out@ =~= old(out)@ + enc_text(t@));
}

/// Reads length-prefixed text at `at`: the text and the position after it.
pub fn read_text(d: &[u8], at: usize) -> (r: Option<(Vec<u8>, usize)>)
    requires
        at <= d@.len(),
    ensures
        match r {
            Some((t, next)) => at <= next <= d@.len() && parse_text(
                d@.subrange(at as int, d@.len() as int),
            ) == Some((t@, d@.subrange(next as int, d@.len() as int))),
            None => parse_text(d@.subrange(at as int, d@.len() as int)) is None,
        },
{
    let ghost s = d@.subrange(at as int, d@.len() as int);
    if d.len() - at < 4 {
        return None;
    }
    let n = (d[at] as u32) | ((d[at + 1] as u32) << 8u32) | ((d[at + 2] as u32) << 16u32) | ((d[at
        + 3] as u32) << 24u32);
    assert(n == u32_from_le(s[0], s[1], s[2], s[3]));
    if d.len() - at - 4 < n as usize {
        return None;
    }
    let next = at + 4 + n as usize;
    let t = vstd::slice::slice_to_vec(&d[at + 4..next]);
    assert(t@ =~= s.subrange(4, 4 + n as int));
    assert(d@.subrange(next as int, d@.len() as int) =~= s.subrange(4 + n as int, s.len() as int));
    Some((t, next))
}

/// Reads a flag byte at `at`.
pub fn read_flag(d: &[u8], at: usize) -> (r: Option<bool>)
    requires
        at <= d@.len(),
    ensures
        match r {
            Some(f) => at < d@.len() && parse_flag(d@.subrange(at as int, d@.len() as int)) == Some(
                (f, d@.subrange(at + 1, d@.len() as int)),
            ),
            None => parse_flag(d@.subrange(at as int, d@.len() as int)) is None,
        },
{
    let ghost s = d@.subrange(at as int, d@.len() as int);
    if at >= d.len() || d[at] > 1 {
        return None;
    }
    assert(s.subrange(1, s.len() as int) =~= d@.subrange(at + 1, d@.len() as int));
    Some(d[at] == 1)
}

/// Reads a 32-byte identity at `at`.
pub fn read_key(d: &[u8], at: usize) -> (r: Option<[u8; 32]>)
    requires
        at <= d@.len(),
    ensures
        match r {
            Some(k) => at + 32 <= d@.len() && parse_key(d@.subrange(at as int, d@.len() as int))
                == Some((k@, d@.subrange(at + 32, d@.len() as int))),
            None => parse_key(d@.subrange(at as int, d@.len() as int)) is None,
        },
{
    let ghost s = d@.subrange(at as int, d@.len() as int);
    if d.len() - at < 32 {
        return None;
    }
    let mut k: [u8; 32] = [0u8; 32];
    let mut i: usize = 0;
    while i < 32
        invariant
            i <= 32,
            at + 32 <= d@.len(),
            at + 32 <= usize::MAX,
            k@.len() == 32,
            forall|j: int| 0 <= j < i ==> k@[j] == d@[at + j],
        decreases 32 - i,
    {
        k[i] = d[at + i];
        i = i + 1;
    }
    assert(k@ =~= s.subrange(0, 32));
    assert(s.subrange(32, s.len() as int) =~= d@.subrange(at + 32, d@.len() as int));
    Some(k)
}

/// Reads a little-endian `u64` at `at`.
pub fn read_u64_le(d: &[u8], at: usize) -> (r: Option<u64>)
    requires
        at <= d@.len(),
    ensures
        match r {
            Some(n) => at + 8 <= d@.len() && parse_u64(d@.subrange(at as int, d@.len() as int))
                == Some((n, d@.subrange(at + 8, d@.len() as int))),
            None => parse_u64(d@.subrange(at as int, d@.len() as int)) is None,
        },
{
    let ghost s = d@.subrange(at as int, d@.len() as int);
    if d.len() - at < 8 {
        return None;
    }
    let n = (d[at] as u64) | ((d[at + 1] as u64) << 8u64) | ((d[at + 2] as u64) << 16u64) | ((d[at
        + 3] as u64) << 24u64) | ((d[at + 4] as u64) << 32u64) | ((d[at + 5] as u64) << 40u64) | ((
    d[at + 6] as u64) << 48u64) | ((d[at + 7] as u64) << 56u64);
    assert(n == u64_from_le(s));
    assert(s.subrange(8, s.len() as int) =~= d@.subrange(at + 8, d@.len() as int));
    Some(n)
}

} // verus!
