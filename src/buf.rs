//! Byte buffers crossing the transport boundary.

use vstd::prelude::*;
use vstd::slice::slice_subrange;

verus! {

#[verifier::external_type_specification]
#[verifier::external_body]
pub struct ExBytes(bytes::Bytes);

/// The bytes held by a `bytes::Bytes` value.
pub uninterp spec fn bytes_content(b: bytes::Bytes) -> Seq<u8>;

/// Relies on `bytes::Bytes::len`: the number of bytes the value holds.
pub assume_specification[ bytes::Bytes::len ](b: &bytes::Bytes) -> (r: usize)
    ensures
        r == bytes_content(*b).len(),
;

/// A cursor over bytes to be written: the part not yet consumed, and an
/// operation that consumes a prefix of it.
pub struct WriteBuf {
    data: Vec<u8>,
    pos: usize,
}

impl View for WriteBuf {
    type V = Seq<u8>;

    /// The bytes not yet consumed.
    closed spec fn view(&self) -> Seq<u8> {
        self.data@.skip(self.pos as int)
    }
}

impl WriteBuf {
    /// The cursor position never passes the end of the data.
    pub closed spec fn wf(&self) -> bool {
        self.pos <= self.data@.len()
    }

    /// A cursor at the start of `data`.
    pub fn new(data: Vec<u8>) -> (r: WriteBuf)
        ensures
            r.wf(),
            r@ == data@,
    {
        let r = WriteBuf { data, pos: 0 };
        assert(r.data@.skip(0) =~= r.data@);
        r
    }

    /// The number of bytes not yet consumed.
    pub fn remaining(&self) -> (r: usize)
        requires
            self.wf(),
        ensures
            r == self@.len(),
    {
        self.data.len() - self.pos
    }

    /// Whether any byte is left to consume.
    pub fn has_remaining(&self) -> (r: bool)
        requires
            self.wf(),
        ensures
            r == (self@.len() > 0),
    {
        self.pos < self.data.len()
    }

    /// The bytes not yet consumed, as one slice.
    pub fn chunk(&self) -> (r: &[u8])
        requires
            self.wf(),
        ensures
            r@ == self@,
    {
        let s = self.data.as_slice();
        let r = slice_subrange(s, self.pos, s.len());
        assert(r@ =~= self@);
        r
    }

    /// Consume the first `n` bytes that were not yet consumed.
    pub fn advance(&mut self, n: usize)
        requires
            old(self).wf(),
            n <= old(self)@.len(),
        ensures
            final(self).wf(),
            final(self)@ == old(self)@.skip(n as int),
    {
        let len = self.data.len();
        assert(self@.len() == len - self.pos);
        self.pos = self.pos + n;
        assert(self@ =~= old(self)@.skip(n as int));
    }
}

/// The bytes left of `s` after a run of writes that reported, in order, the
/// counts `counts`, each write consuming what it reported.
pub open spec fn after_writes(s: Seq<u8>, counts: Seq<nat>) -> Seq<u8>
    decreases counts.len(),
{
    if counts.len() == 0 {
        s
    } else {
        after_writes(s.skip(counts[0] as int), counts.drop_first())
    }
}

/// The sum of reported write counts.
pub open spec fn total_written(counts: Seq<nat>) -> nat
    decreases counts.len(),
{
    if counts.len() == 0 {
        0
    } else {
        counts[0] + total_written(counts.drop_first())
    }
}

/// Writes conserve bytes: after a run of writes, each consuming exactly the
/// count it reported, what is left of the source is the source without as
/// many leading bytes as were reported in all. Once the reports add up to
/// the source's length, nothing is left.
pub proof fn lemma_write_conservation(s: Seq<u8>, counts: Seq<nat>)
    requires
        total_written(counts) <= s.len(),
    ensures
        after_writes(s, counts) == s.skip(total_written(counts) as int),
        total_written(counts) == s.len() ==> after_writes(s, counts).len() == 0,
    decreases counts.len(),
{
    if counts.len() == 0 {
        assert(s.skip(0) =~= s);
    } else {
        let rest = counts.drop_first();
        lemma_write_conservation(s.skip(counts[0] as int), rest);
        assert(s.skip(counts[0] as int).skip(total_written(rest) as int) =~= s.skip(total_written(counts) as int));
    }
}

} // verus!
