//! Little-endian field readers over byte slices, with their spec counterparts.

use vstd::bytes::*;
use vstd::slice::slice_subrange;
use vstd::prelude::*;

verus! {

/// The unsigned 16-bit value stored little-endian at `p`.
pub open spec fn le_u16(b: Seq<u8>, p: int) -> u16 {
    spec_u16_from_le_bytes(b.subrange(p, p + 2))
}

/// The unsigned 32-bit value stored little-endian at `p`.
pub open spec fn le_u32(b: Seq<u8>, p: int) -> u32 {
    spec_u32_from_le_bytes(b.subrange(p, p + 4))
}

/// The unsigned 64-bit value stored little-endian at `p`.
pub open spec fn le_u64(b: Seq<u8>, p: int) -> u64 {
    spec_u64_from_le_bytes(b.subrange(p, p + 8))
}

pub open spec fn le_i16(b: Seq<u8>, p: int) -> i16 {
    le_u16(b, p) as i16
}

pub open spec fn le_i32(b: Seq<u8>, p: int) -> i32 {
    le_u32(b, p) as i32
}

/// Whether `n` bytes are available at position `p`.
pub open spec fn fits(b: Seq<u8>, p: int, n: int) -> bool {
    0 <= p && p + n <= b.len()
}

pub fn get_u8(b: &[u8], p: usize) -> (r: u8)
    requires
        fits(b@, p as int, 1),
    ensures
        r == b@[p as int],
{
    b[p]
}

pub fn get_u16(b: &[u8], p: usize) -> (r: u16)
    requires
        fits(b@, p as int, 2),
    ensures
        r == le_u16(b@, p as int),
{
    let _len = b.len();
    u16_from_le_bytes(slice_subrange(b, p, p + 2))
}

pub fn get_u32(b: &[u8], p: usize) -> (r: u32)
    requires
        fits(b@, p as int, 4),
    ensures
        r == le_u32(b@, p as int),
{
    let _len = b.len();
    u32_from_le_bytes(slice_subrange(b, p, p + 4))
}

pub fn get_u64(b: &[u8], p: usize) -> (r: u64)
    requires
        fits(b@, p as int, 8),
    ensures
        r == le_u64(b@, p as int),
{
    let _len = b.len();
    u64_from_le_bytes(slice_subrange(b, p, p + 8))
}

pub fn get_i16(b: &[u8], p: usize) -> (r: i16)
    requires
        fits(b@, p as int, 2),
    ensures
        r == le_i16(b@, p as int),
{
    get_u16(b, p) as i16
}

pub fn get_i32(b: &[u8], p: usize) -> (r: i32)
    requires
        fits(b@, p as int, 4),
    ensures
        r == le_i32(b@, p as int),
{
    get_u32(b, p) as i32
}

/// The little-endian encoding of a word.
pub open spec fn le32(x: u32) -> Seq<u8> {
    spec_u32_to_le_bytes(x)
}

/// `n` consecutive little-endian words starting at `p`.
pub open spec fn words_at(b: Seq<u8>, p: int, n: nat) -> Seq<u32> {
    Seq::new(n, |i: int| le_u32(b, p + 4 * i))
}

/// The little-endian encoding of a run of words.
pub open spec fn words_bytes(w: Seq<u32>) -> Seq<u8>
    decreases w.len(),
{
    if w.len() == 0 {
        Seq::empty()
    } else {
        words_bytes(w.drop_last()) + le32(w.last())
    }
}

pub proof fn lemma_i32_u32(u: u32)
    ensures
        (u as i32) as u32 == u,
{
    assert((u as i32) as u32 == u) by (bit_vector);
}

pub proof fn lemma_words_at_bytes(b: Seq<u8>, p: int, n: nat)
    requires
        fits(b, p, 4 * n as int),
    ensures
        words_bytes(words_at(b, p, n)) == b.subrange(p, p + 4 * n),
    decreases n,
{
    lemma_auto_spec_u32_to_from_le_bytes();
    if n == 0 {
        assert(words_bytes(words_at(b, p, n)) =~= b.subrange(p, p + 4 * n));
    } else {
        let m = (n - 1) as nat;
        lemma_words_at_bytes(b, p, m);
        assert(words_at(b, p, n).drop_last() =~= words_at(b, p, m));
        let q = p + 4 * m;
        assert(le32(le_u32(b, q)) == b.subrange(q, q + 4));
        assert(b.subrange(p, q) + b.subrange(q, q + 4) =~= b.subrange(p, p + 4 * n));
    }
}

/// Reads `n` consecutive little-endian words starting at `p`.
pub fn read_words(b: &[u8], p: usize, n: usize) -> (r: Vec<u32>)
    requires
        fits(b@, p as int, 4 * n),
    ensures
        r@ == words_at(b@, p as int, n as nat),
{
    let mut r: Vec<u32> = Vec::with_capacity(n);
    let mut i: usize = 0;
    let len = b.len();
    while i < n
        invariant
            len == b@.len(),
            fits(b@, p as int, 4 * n),
            i <= n,
            r@ =~= words_at(b@, p as int, i as nat),
        decreases n - i,
    {
        let w = get_u32(b, p + 4 * i);
        r.push(w);
        i = i + 1;
        assert(r@ =~= words_at(b@, p as int, i as nat));
    }
    r
}

/// Appends the little-endian encoding of `x`.
pub fn push_u32(out: &mut Vec<u8>, x: u32)
    ensures
        final(out)@ == old(out)@ + le32(x),
{
    let mut v = u32_to_le_bytes(x);
    out.append(&mut v);
}

/// Appends the little-endian encoding of each word in turn.
pub fn push_words(out: &mut Vec<u8>, w: &[u32])
    ensures
        final(out)@ == old(out)@ + words_bytes(w@),
{
    let mut i: usize = 0;
    while i < w.len()
        invariant
            0 <= i <= w@.len(),
            out@ == old(out)@ + words_bytes(w@.subrange(0, i as int)),
        decreases w@.len() - i,
    {
        proof {
            assert(w@.subrange(0, i + 1).drop_last() =~= w@.subrange(0, i as int));
        }
        push_u32(out, w[i]);
        i = i + 1;
        assert(out@ =~= old(out)@ + words_bytes(w@.subrange(0, i as int)));
    }
    assert(w@.subrange(0, w@.len() as int) =~= w@);
}

} // verus!
