//! Little-endian byte serialization and the scene-buffer write target.
//!
//! `BufWrite` is the append-only byte sink the serializer writes the scene
//! buffer into: it supports appending raw bytes, 32-bit words, and runs of
//! zero bytes, and its contents are specified exactly, byte for byte.

use vstd::prelude::*;

verus! {

/// The four little-endian bytes of a 32-bit word.
pub open spec fn u32_le_bytes(x: u32) -> Seq<u8> {
    seq![
        (x & 0xff) as u8,
        ((x >> 8) & 0xff) as u8,
        ((x >> 16) & 0xff) as u8,
        ((x >> 24) & 0xff) as u8,
    ]
}

/// The little-endian bytes of a sequence of 32-bit words, in order.
pub open spec fn u32s_le_bytes(s: Seq<u32>) -> Seq<u8>
    decreases s.len(),
{
    if s.len() == 0 {
        Seq::empty()
    } else {
        u32s_le_bytes(s.drop_last()) + u32_le_bytes(s.last())
    }
}

/// `n` zero bytes.
pub open spec fn zero_bytes(n: nat) -> Seq<u8> {
    Seq::new(n, |i: int| 0u8)
}

/// A word serializes to four bytes, so a word stream serializes to four bytes
/// per word.
pub proof fn lemma_u32s_le_bytes_len(s: Seq<u32>)
    ensures
        u32s_le_bytes(s).len() == 4 * s.len(),
    decreases s.len(),
{
    if s.len() > 0 {
        lemma_u32s_le_bytes_len(s.drop_last());
    }
}

/// Appends the four little-endian bytes of `x` to `v`.
pub fn push_u32_le(v: &mut Vec<u8>, x: u32)
    ensures
        final(v)@ == old(v)@ + u32_le_bytes(x),
{
    v.push((x & 0xff) as u8);
    v.push(((x >> 8) & 0xff) as u8);
    v.push(((x >> 16) & 0xff) as u8);
    v.push(((x >> 24) & 0xff) as u8);
    proof {
        assert(v@ =~= old(v)@ + u32_le_bytes(x));
    }
}

/// The append-only write target for the serialized scene buffer.
pub struct BufWrite {
    buf: Vec<u8>,
}

impl View for BufWrite {
    type V = Seq<u8>;

    closed spec fn view(&self) -> Seq<u8> {
        self.buf@
    }
}

impl BufWrite {
    /// An empty write target.
    pub fn new() -> (r: BufWrite)
        ensures
            r@ == Seq::<u8>::empty(),
    {
        BufWrite { buf: Vec::new() }
    }

    /// Number of bytes written so far.
    pub fn len(&self) -> (r: usize)
        ensures
            r == self@.len(),
    {
        self.buf.len()
    }

    /// Appends raw bytes.
    pub fn extend_bytes(&mut self, bytes: &[u8])
        ensures
            final(self)@ == old(self)@ + bytes@,
    {
        let n = bytes.len();
        let mut i: usize = 0;
        while i < n
            invariant
                i <= n,
                n == bytes@.len(),
                self.buf@ == old(self).buf@ + bytes@.subrange(0, i as int),
            decreases n - i,
        {
            self.buf.push(bytes[i]);
            proof {
                assert(bytes@.subrange(0, i + 1) =~= bytes@.subrange(0, i as int).push(
                    bytes@[i as int],
                ));
            }
            i += 1;
        }
        proof {
            assert(bytes@.subrange(0, n as int) =~= bytes@);
        }
    }

    /// Appends one 32-bit word as four little-endian bytes.
    pub fn push_u32(&mut self, x: u32)
        ensures
            final(self)@ == old(self)@ + u32_le_bytes(x),
    {
        push_u32_le(&mut self.buf, x);
    }

    /// Appends a stream of 32-bit words as little-endian bytes, in order.
    pub fn extend_u32s(&mut self, words: &[u32])
        ensures
            final(self)@ == old(self)@ + u32s_le_bytes(words@),
    {
        let n = words.len();
        let mut i: usize = 0;
        while i < n
            invariant
                i <= n,
                n == words@.len(),
                self.buf@ == old(self).buf@ + u32s_le_bytes(words@.subrange(0, i as int)),
            decreases n - i,
        {
            push_u32_le(&mut self.buf, words[i]);
            proof {
                let pre = words@.subrange(0, i as int);
                let post = words@.subrange(0, i + 1);
                assert(post.drop_last() =~= pre);
                assert(self.buf@ =~= old(self).buf@ + u32s_le_bytes(post));
            }
            i += 1;
        }
        proof {
            assert(words@.subrange(0, n as int) =~= words@);
        }
    }

    /// Appends a run of `n` zero bytes.
    pub fn fill_zero(&mut self, n: usize)
        ensures
            final(self)@ == old(self)@ + zero_bytes(n as nat),
    {
        let mut i: usize = 0;
        while i < n
            invariant
                i <= n,
                self.buf@ == old(self).buf@ + zero_bytes(i as nat),
            decreases n - i,
        {
            self.buf.push(0u8);
            proof {
                assert(zero_bytes((i + 1) as nat) =~= zero_bytes(i as nat).push(0u8));
            }
            i += 1;
        }
    }

    /// Hands the written bytes out.
    pub fn into_bytes(self) -> (r: Vec<u8>)
        ensures
            r@ == self@,
    {
        self.buf
    }
}

} // verus!
