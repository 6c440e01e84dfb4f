//! Little-endian byte layout: the primitives every encoded structure is built from.

use vstd::prelude::*;
use vstd::bytes::{
    spec_u32_to_le_bytes, spec_u32_from_le_bytes, spec_u64_to_le_bytes, spec_u64_from_le_bytes,
    u32_to_le_bytes, u32_from_le_bytes, u64_to_le_bytes,
    lemma_auto_spec_u32_to_from_le_bytes, lemma_auto_spec_u64_to_from_le_bytes,
};
use vstd::slice::slice_subrange;

verus! {

/// The four bytes of `v`, least significant first.
pub open spec fn le32(v: u32) -> Seq<u8> {
    spec_u32_to_le_bytes(v)
}

/// The eight bytes of `v`, least significant first.
pub open spec fn le64(v: u64) -> Seq<u8> {
    spec_u64_to_le_bytes(v)
}

/// `n` zero bytes.
pub open spec fn zeros(n: nat) -> Seq<u8> {
    Seq::new(n, |i: int| 0u8)
}

/// The `u32` stored little-endian at `off`.
pub open spec fn u32_at(s: Seq<u8>, off: int) -> u32 {
    spec_u32_from_le_bytes(s.subrange(off, off + 4))
}

/// The `u64` stored little-endian at `off`.
pub open spec fn u64_at(s: Seq<u8>, off: int) -> u64 {
    spec_u64_from_le_bytes(s.subrange(off, off + 8))
}

/// Widths of the encodings, and reading back what was written.
pub proof fn lemma_le_facts()
    ensures
        forall|v: u32| #[trigger] le32(v).len() == 4,
        forall|v: u64| #[trigger] le64(v).len() == 8,
        forall|v: u32| spec_u32_from_le_bytes(#[trigger] le32(v)) == v,
        forall|v: u64| spec_u64_from_le_bytes(#[trigger] le64(v)) == v,
{
    lemma_auto_spec_u32_to_from_le_bytes();
    lemma_auto_spec_u64_to_from_le_bytes();
    assert forall|v: u32| spec_u32_from_le_bytes(#[trigger] le32(v)) == v by {
        assert(spec_u32_to_le_bytes(v).len() == 4);
    }
    assert forall|v: u64| spec_u64_from_le_bytes(#[trigger] le64(v)) == v by {
        assert(spec_u64_to_le_bytes(v).len() == 8);
    }
}

/// A `u32` written after `pre` is read back at offset `pre.len()`, whatever follows it.
pub proof fn lemma_u32_at_piece(pre: Seq<u8>, v: u32, post: Seq<u8>)
    ensures
        u32_at(pre + le32(v) + post, pre.len() as int) == v,
{
    lemma_le_facts();
    let s = pre + le32(v) + post;
    assert(s.subrange(pre.len() as int, pre.len() + 4int) =~= le32(v));
}

/// Reading a `u32` where its encoding stands gives it back.
pub proof fn lemma_u32_at_encoded(s: Seq<u8>, off: int, v: u32)
    requires
        0 <= off,
        off + 4 <= s.len(),
        s.subrange(off, off + 4) == le32(v),
    ensures
        u32_at(s, off) == v,
{
    lemma_le_facts();
}

/// Reading a `u64` where its encoding stands gives it back.
pub proof fn lemma_u64_at_encoded(s: Seq<u8>, off: int, v: u64)
    requires
        0 <= off,
        off + 8 <= s.len(),
        s.subrange(off, off + 8) == le64(v),
    ensures
        u64_at(s, off) == v,
{
    lemma_le_facts();
}

/// Four bytes are the encoding of the `u32` they hold.
pub proof fn lemma_le32_of_u32_at(s: Seq<u8>, off: int)
    requires
        0 <= off,
        off + 4 <= s.len(),
    ensures
        le32(u32_at(s, off)) == s.subrange(off, off + 4),
{
    lemma_auto_spec_u32_to_from_le_bytes();
}

/// Appends the little-endian bytes of `v`.
pub fn push_u32(out: &mut Vec<u8>, v: u32)
    ensures
        final(out)@ == old(out)@ + le32(v),
{
    let bytes = u32_to_le_bytes(v);
    out.extend_from_slice(bytes.as_slice());
}

/// Appends the little-endian bytes of `v`.
pub fn push_u64(out: &mut Vec<u8>, v: u64)
    ensures
        final(out)@ == old(out)@ + le64(v),
{
    let bytes = u64_to_le_bytes(v);
    out.extend_from_slice(bytes.as_slice());
}

/// Appends `n` zero bytes.
pub fn push_zeros(out: &mut Vec<u8>, n: usize)
    ensures
        final(out)@ == old(out)@ + zeros(n as nat),
{
    let ghost start = out@;
    let mut i: usize = 0;
    while i < n
        invariant
            i <= n,
            out@ == start + zeros(i as nat),
        decreases n - i,
    {
        out.push(0u8);
        i = i + 1;
        assert(out@ =~= start + zeros(i as nat));
    }
}

/// Reads the little-endian `u32` at `off`.
pub fn read_u32(buf: &[u8], off: usize) -> (r: u32)
    requires
        off + 4 <= buf@.len(),
    ensures
        r == u32_at(buf@, off as int),
{
    let _len = buf.len();
    u32_from_le_bytes(slice_subrange(buf, off, off + 4))
}

} // verus!
