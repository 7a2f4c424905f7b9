//! Big-endian integer encodings and byte-buffer helpers shared by the
//! container formats.

use vstd::prelude::*;

verus! {

/// The two big-endian bytes of `x`.
pub open spec fn u16_be(x: u16) -> Seq<u8> {
    seq![(x >> 8u16) as u8, (x & 0xffu16) as u8]
}

/// The four big-endian bytes of `x`.
pub open spec fn u32_be(x: u32) -> Seq<u8> {
    seq![
        (x >> 24u32) as u8,
        ((x >> 16u32) & 0xffu32) as u8,
        ((x >> 8u32) & 0xffu32) as u8,
        (x & 0xffu32) as u8,
    ]
}

/// The eight big-endian bytes of `x`.
pub open spec fn u64_be(x: u64) -> Seq<u8> {
    seq![
        (x >> 56u64) as u8,
        ((x >> 48u64) & 0xffu64) as u8,
        ((x >> 40u64) & 0xffu64) as u8,
        ((x >> 32u64) & 0xffu64) as u8,
        ((x >> 24u64) & 0xffu64) as u8,
        ((x >> 16u64) & 0xffu64) as u8,
        ((x >> 8u64) & 0xffu64) as u8,
        (x & 0xffu64) as u8,
    ]
}

/// The number that the two big-endian bytes of `s` at `i` stand for.
pub open spec fn be16_at(s: Seq<u8>, i: int) -> u16 {
    ((s[i] as u16) << 8u16) | (s[i + 1] as u16)
}

/// The number that the four big-endian bytes of `s` at `i` stand for.
pub open spec fn be32_at(s: Seq<u8>, i: int) -> u32 {
    ((s[i] as u32) << 24u32) | ((s[i + 1] as u32) << 16u32) | ((s[i + 2] as u32) << 8u32) | (s[i
        + 3] as u32)
}

/// The number that the eight big-endian bytes of `s` at `i` stand for.
pub open spec fn be64_at(s: Seq<u8>, i: int) -> u64 {
    ((s[i] as u64) << 56u64) | ((s[i + 1] as u64) << 48u64) | ((s[i + 2] as u64) << 40u64) | ((s[i
        + 3] as u64) << 32u64) | ((s[i + 4] as u64) << 24u64) | ((s[i + 5] as u64) << 16u64) | ((s[i
        + 6] as u64) << 8u64) | (s[i + 7] as u64)
}

/// Reading back the big-endian bytes of `x` gives `x`.
pub proof fn lemma_u16_roundtrip(x: u16, s: Seq<u8>, i: int)
    requires
        0 <= i,
        i + 2 <= s.len(),
        s.subrange(i, i + 2) == u16_be(x),
    ensures
        be16_at(s, i) == x,
{
    assert(s[i] == u16_be(x)[0]);
    assert(s[i + 1] == u16_be(x)[1]);
    let a = s[i];
    let b = s[i + 1];
    assert(a == (x >> 8u16) as u8 && b == (x & 0xffu16) as u8 ==> ((a as u16) << 8u16) | (b as u16)
        == x) by (bit_vector);
}

/// Reading back the big-endian bytes of `x` gives `x`.
pub proof fn lemma_u32_roundtrip(x: u32, s: Seq<u8>, i: int)
    requires
        0 <= i,
        i + 4 <= s.len(),
        s.subrange(i, i + 4) == u32_be(x),
    ensures
        be32_at(s, i) == x,
{
    assert(s[i] == u32_be(x)[0]);
    assert(s[i + 1] == u32_be(x)[1]);
    assert(s[i + 2] == u32_be(x)[2]);
    assert(s[i + 3] == u32_be(x)[3]);
    let (a, b, c, d) = (s[i], s[i + 1], s[i + 2], s[i + 3]);
    assert(a == (x >> 24u32) as u8 && b == ((x >> 16u32) & 0xffu32) as u8 && c == ((x >> 8u32)
        & 0xffu32) as u8 && d == (x & 0xffu32) as u8 ==> ((a as u32) << 24u32) | ((b as u32)
        << 16u32) | ((c as u32) << 8u32) | (d as u32) == x) by (bit_vector);
}

/// Reading back the big-endian bytes of `x` gives `x`.
pub proof fn lemma_u64_roundtrip(x: u64, s: Seq<u8>, i: int)
    requires
        0 <= i,
        i + 8 <= s.len(),
        s.subrange(i, i + 8) == u64_be(x),
    ensures
        be64_at(s, i) == x,
{
    assert(s[i] == u64_be(x)[0]);
    assert(s[i + 1] == u64_be(x)[1]);
    assert(s[i + 2] == u64_be(x)[2]);
    assert(s[i + 3] == u64_be(x)[3]);
    assert(s[i + 4] == u64_be(x)[4]);
    assert(s[i + 5] == u64_be(x)[5]);
    assert(s[i + 6] == u64_be(x)[6]);
    assert(s[i + 7] == u64_be(x)[7]);
    let (b0, b1, b2, b3) = (s[i], s[i + 1], s[i + 2], s[i + 3]);
    let (b4, b5, b6, b7) = (s[i + 4], s[i + 5], s[i + 6], s[i + 7]);
    assert(b0 == (x >> 56u64) as u8 && b1 == ((x >> 48u64) & 0xffu64) as u8 && b2 == ((x >> 40u64)
        & 0xffu64) as u8 && b3 == ((x >> 32u64) & 0xffu64) as u8 && b4 == ((x >> 24u64) & 0xffu64)
        as u8 && b5 == ((x >> 16u64) & 0xffu64) as u8 && b6 == ((x >> 8u64) & 0xffu64) as u8 && b7
        == (x & 0xffu64) as u8 ==> ((b0 as u64) << 56u64) | ((b1 as u64) << 48u64) | ((b2 as u64)
        << 40u64) | ((b3 as u64) << 32u64) | ((b4 as u64) << 24u64) | ((b5 as u64) << 16u64) | ((
    b6 as u64) << 8u64) | (b7 as u64) == x) by (bit_vector);
}

/// Writing back the number read at `i` gives the bytes it was read from.
pub proof fn lemma_be16_reencode(s: Seq<u8>, i: int)
    requires
        0 <= i,
        i + 2 <= s.len(),
    ensures
        u16_be(be16_at(s, i)) == s.subrange(i, i + 2),
{
    let (a, b) = (s[i], s[i + 1]);
    let x = be16_at(s, i);
    assert(x == ((a as u16) << 8u16) | (b as u16) ==> (x >> 8u16) as u8 == a && (x & 0xffu16) as u8
        == b) by (bit_vector);
    assert(u16_be(be16_at(s, i)) =~= s.subrange(i, i + 2));
}

/// Writing back the number read at `i` gives the bytes it was read from.
pub proof fn lemma_be32_reencode(s: Seq<u8>, i: int)
    requires
        0 <= i,
        i + 4 <= s.len(),
    ensures
        u32_be(be32_at(s, i)) == s.subrange(i, i + 4),
{
    let (a, b, c, d) = (s[i], s[i + 1], s[i + 2], s[i + 3]);
    let x = be32_at(s, i);
    assert(x == ((a as u32) << 24u32) | ((b as u32) << 16u32) | ((c as u32) << 8u32) | (d as u32)
        ==> (x >> 24u32) as u8 == a && ((x >> 16u32) & 0xffu32) as u8 == b && ((x >> 8u32)
        & 0xffu32) as u8 == c && (x & 0xffu32) as u8 == d) by (bit_vector);
    assert(u32_be(be32_at(s, i)) =~= s.subrange(i, i + 4));
}

/// Writing back the number read at `i` gives the bytes it was read from.
pub proof fn lemma_be64_reencode(s: Seq<u8>, i: int)
    requires
        0 <= i,
        i + 8 <= s.len(),
    ensures
        u64_be(be64_at(s, i)) == s.subrange(i, i + 8),
{
    let (b0, b1, b2, b3) = (s[i], s[i + 1], s[i + 2], s[i + 3]);
    let (b4, b5, b6, b7) = (s[i + 4], s[i + 5], s[i + 6], s[i + 7]);
    let x = be64_at(s, i);
    assert(x == ((b0 as u64) << 56u64) | ((b1 as u64) << 48u64) | ((b2 as u64) << 40u64) | ((
    b3 as u64) << 32u64) | ((b4 as u64) << 24u64) | ((b5 as u64) << 16u64) | ((b6 as u64)
        << 8u64) | (b7 as u64) ==> (x >> 56u64) as u8 == b0 && ((x >> 48u64) & 0xffu64) as u8 == b1
        && ((x >> 40u64) & 0xffu64) as u8 == b2 && ((x >> 32u64) & 0xffu64) as u8 == b3 && ((x
        >> 24u64) & 0xffu64) as u8 == b4 && ((x >> 16u64) & 0xffu64) as u8 == b5 && ((x >> 8u64)
        & 0xffu64) as u8 == b6 && (x & 0xffu64) as u8 == b7) by (bit_vector);
    assert(u64_be(be64_at(s, i)) =~= s.subrange(i, i + 8));
}

/// Appends `s` to `out`.
pub fn append_bytes(out: &mut Vec<u8>, s: &[u8])
    ensures
        final(out)@ == old(out)@ + s@,
{
    let mut i: usize = 0;
    while i < s.len()
        invariant
            0 <= i <= s@.len(),
            out@ == old(out)@ + s@.subrange(0, i as int),
        decreases s@.len() - i,
    {
        out.push(s[i]);
        i = i + 1;
        assert(s@.subrange(0, i as int) == s@.subrange(0, (i - 1) as int).push(s@[i - 1]));
    }
    assert(s@.subrange(0, s@.len() as int) == s@);
}

/// Appends the big-endian bytes of `x` to `out`.
pub fn append_u16_be(out: &mut Vec<u8>, x: u16)
    ensures
        final(out)@ == old(out)@ + u16_be(x),
{
    out.push((x >> 8u16) as u8);
    out.push((x & 0xffu16) as u8);
    assert(out@ == old(out)@ + u16_be(x));
}

/// Appends the big-endian bytes of `x` to `out`.
pub fn append_u32_be(out: &mut Vec<u8>, x: u32)
    ensures
        final(out)@ == old(out)@ + u32_be(x),
{
    out.push((x >> 24u32) as u8);
    out.push(((x >> 16u32) & 0xffu32) as u8);
    out.push(((x >> 8u32) & 0xffu32) as u8);
    out.push((x & 0xffu32) as u8);
    assert(out@ == old(out)@ + u32_be(x));
}

/// Appends the big-endian bytes of `x` to `out`.
pub fn append_u64_be(out: &mut Vec<u8>, x: u64)
    ensures
        final(out)@ == old(out)@ + u64_be(x),
{
    out.push((x >> 56u64) as u8);
    out.push(((x >> 48u64) & 0xffu64) as u8);
    out.push(((x >> 40u64) & 0xffu64) as u8);
    out.push(((x >> 32u64) & 0xffu64) as u8);
    out.push(((x >> 24u64) & 0xffu64) as u8);
    out.push(((x >> 16u64) & 0xffu64) as u8);
    out.push(((x >> 8u64) & 0xffu64) as u8);
    out.push((x & 0xffu64) as u8);
    assert(out@ == old(out)@ + u64_be(x));
}

/// Reads the big-endian `u16` at `i`.
pub fn read_u16_be(data: &[u8], i: usize) -> (r: u16)
    requires
        i + 2 <= data@.len(),
    ensures
        r == be16_at(data@, i as int),
{
    ((data[i] as u16) << 8u16) | (data[i + 1] as u16)
}

/// Reads the big-endian `u32` at `i`.
pub fn read_u32_be(data: &[u8], i: usize) -> (r: u32)
    requires
        i + 4 <= data@.len(),
    ensures
        r == be32_at(data@, i as int),
{
    ((data[i] as u32) << 24u32) | ((data[i + 1] as u32) << 16u32) | ((data[i + 2] as u32) << 8u32)
        | (data[i + 3] as u32)
}

/// Reads the big-endian `u64` at `i`.
pub fn read_u64_be(data: &[u8], i: usize) -> (r: u64)
    requires
        i + 8 <= data@.len(),
    ensures
        r == be64_at(data@, i as int),
{
    ((data[i] as u64) << 56u64) | ((data[i + 1] as u64) << 48u64) | ((data[i + 2] as u64)
        << 40u64) | ((data[i + 3] as u64) << 32u64) | ((data[i + 4] as u64) << 24u64) | ((data[i
        + 5] as u64) << 16u64) | ((data[i + 6] as u64) << 8u64) | (data[i + 7] as u64)
}

/// Whether `data` begins with `prefix`.
pub fn starts_with(data: &[u8], prefix: &[u8]) -> (r: bool)
    ensures
        r == (prefix@.len() <= data@.len() && data@.subrange(0, prefix@.len() as int) == prefix@),
{
    if data.len() < prefix.len() {
        return false;
    }
    let mut k: usize = 0;
    while k < prefix.len()
        invariant
            0 <= k <= prefix@.len() <= data@.len(),
            data@.subrange(0, k as int) == prefix@.subrange(0, k as int),
        decreases prefix@.len() - k,
    {
        if data[k] != prefix[k] {
            assert(data@.subrange(0, prefix@.len() as int)[k as int] != prefix@[k as int]);
            return false;
        }
        k = k + 1;
        assert(data@.subrange(0, k as int) == prefix@.subrange(0, k as int));
    }
    assert(prefix@.subrange(0, k as int) == prefix@);
    true
}

/// A copy of the bytes of `data` in `[i, i + n)`.
pub fn copy_range(data: &[u8], i: usize, n: usize) -> (r: Vec<u8>)
    requires
        i + n <= data@.len(),
    ensures
        r@ == data@.subrange(i as int, i + n),
{
    let mut r: Vec<u8> = Vec::new();
    let mut k: usize = 0;
    let len: usize = data.len();
    while k < n
        invariant
            0 <= k <= n,
            len == data@.len(),
            i + n <= data@.len(),
            r@ == data@.subrange(i as int, i + k),
        decreases n - k,
    {
        r.push(data[i + k]);
        k = k + 1;
        assert(data@.subrange(i as int, i + k) == data@.subrange(i as int, i + k - 1).push(
            data@[i + k - 1],
        ));
    }
    r
}

/// A copy of the `N` bytes of `data` that begin at `i`.
pub fn copy_array<const N: usize>(data: &[u8], i: usize) -> (r: [u8; N])
    requires
        i + N <= data@.len(),
    ensures
        r@ == data@.subrange(i as int, i + N),
{
    let mut r: [u8; N] = [0u8; N];
    let mut k: usize = 0;
    let len: usize = data.len();
    while k < N
        invariant
            0 <= k <= N,
            len == data@.len(),
            i + N <= data@.len(),
            r@.len() == N,
            forall|j: int| 0 <= j < k ==> r@[j] == data@[i + j],
        decreases N - k,
    {
        r[k] = data[i + k];
        k = k + 1;
    }
    assert(r@ =~= data@.subrange(i as int, i + N));
    r
}

} // verus!
