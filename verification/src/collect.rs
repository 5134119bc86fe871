//! The bitstream collector.
//!
//! Packets come back from an encoder in emission order, which need not
//! be submission order; the collector appends each packet's bytes to
//! one growable buffer, in exactly the order they arrive, with no
//! transformation and no resorting. The ghost list of chunks records
//! that order, and the invariant ties the buffer to its concatenation.

use vstd::prelude::*;

verus! {

/// The concatenation of a list of byte chunks, first to last.
pub open spec fn concat_chunks(chunks: Seq<Seq<u8>>) -> Seq<u8>
    decreases chunks.len(),
{
    if chunks.len() == 0 {
        Seq::empty()
    } else {
        concat_chunks(chunks.drop_last()) + chunks.last()
    }
}

/// Appending one chunk to the list appends its bytes to the
/// concatenation.
pub proof fn lemma_concat_push(chunks: Seq<Seq<u8>>, x: Seq<u8>)
    ensures
        concat_chunks(chunks.push(x)) == concat_chunks(chunks) + x,
{
    assert(chunks.push(x).drop_last() =~= chunks);
    assert(chunks.push(x).last() == x);
}

/// `after` extends `before`: every chunk already collected is still
/// there, in its place; new chunks only follow.
pub open spec fn extends(before: Seq<Seq<u8>>, after: Seq<Seq<u8>>) -> bool {
    &&& before.len() <= after.len()
    &&& after.subrange(0, before.len() as int) == before
}

/// Accumulates encoder packets into one contiguous buffer, strictly in
/// arrival order.
pub struct Collector {
    data: Vec<u8>,
    chunks: Ghost<Seq<Seq<u8>>>,
}

impl Collector {
    /// The chunks appended so far, in arrival order.
    pub closed spec fn chunks(&self) -> Seq<Seq<u8>> {
        self.chunks@
    }

    /// The collected bytes.
    pub closed spec fn bytes(&self) -> Seq<u8> {
        self.data@
    }

    /// The buffer is always the concatenation of the recorded chunks.
    pub closed spec fn wf(&self) -> bool {
        self.data@ == concat_chunks(self.chunks@)
    }

    /// What well-formedness means, for callers outside this module:
    /// the buffer is the concatenation of the chunks.
    pub proof fn lemma_wf(&self)
        requires
            self.wf(),
        ensures
            self.bytes() == concat_chunks(self.chunks()),
    {
    }

    pub fn new() -> (c: Collector)
        ensures
            c.wf(),
            c.chunks() == Seq::<Seq<u8>>::empty(),
            c.bytes() == Seq::<u8>::empty(),
    {
        Collector { data: Vec::new(), chunks: Ghost(Seq::empty()) }
    }

    /// Appends one packet's bytes, keeping arrival order.
    pub fn append(&mut self, packet: &Vec<u8>)
        requires
            old(self).wf(),
        ensures
            final(self).wf(),
            final(self).chunks() == old(self).chunks().push(packet@),
            final(self).bytes() == old(self).bytes() + packet@,
    {
        self.data.extend_from_slice(packet.as_slice());
        proof {
            self.chunks@ = self.chunks@.push(packet@);
            lemma_concat_push(old(self).chunks@, packet@);
            assert(self.data@ =~= old(self).data@ + packet@);
        }
    }

    /// How many bytes have been collected.
    pub fn len(&self) -> (r: usize)
        ensures
            r == self.bytes().len(),
    {
        self.data.len()
    }

    /// Hands the finished buffer out, once the driver is done.
    pub fn into_bytes(self) -> (r: Vec<u8>)
        ensures
            r@ == self.bytes(),
    {
        self.data
    }
}

} // verus!
