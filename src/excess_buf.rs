use vstd::prelude::*;

verus! {

/// Bytes received ahead of a reader, consumed from the front.
pub struct ExcessBuf {
    pub buf: Vec<u8>,
    pub index: usize,
}

impl ExcessBuf {
    /// The read position lies inside the buffer.
    pub open spec fn wf(&self) -> bool {
        self.index <= self.buf@.len()
    }

    /// The bytes not yet consumed.
    pub open spec fn remaining(&self) -> Seq<u8> {
        self.buf@.subrange(self.index as int, self.buf@.len() as int)
    }

    /// An empty buffer.
    pub fn new() -> (r: Self)
        ensures
            r.wf(),
            r.buf@.len() == 0,
            r.index == 0,
    {
        ExcessBuf { buf: Vec::new(), index: 0 }
    }

    /// Consumes `len` bytes when that many remain; otherwise rewinds to the start
    /// of the buffer and reports failure.
    pub fn consume(&mut self, len: usize) -> (r: bool)
        requires
            old(self).wf(),
        ensures
            final(self).wf(),
            final(self).buf == old(self).buf,
            r == (old(self).index + len <= old(self).buf@.len()),
            r ==> final(self).index == old(self).index + len,
            !r ==> final(self).index == 0,
    {
        if len > self.buf.len() - self.index {
            self.index = 0;
            false
        } else {
            self.index = self.index + len;
            true
        }
    }

    /// Appends bytes at the back.
    pub fn extend_from_slice(&mut self, slice: &[u8])
        requires
            old(self).wf(),
        ensures
            final(self).wf(),
            final(self).buf@ == old(self).buf@ + slice@,
            final(self).index == old(self).index,
            final(self).remaining() == old(self).remaining() + slice@,
    {
        self.buf.extend_from_slice(slice);
        assert(self.buf@ =~= old(self).buf@ + slice@);
        assert(self.remaining() =~= old(self).remaining() + slice@);
    }

    /// The bytes not yet consumed.
    pub fn as_slice(&self) -> (r: &[u8])
        requires
            self.wf(),
        ensures
            r@ == self.remaining(),
    {
        vstd::slice::slice_subrange(self.buf.as_slice(), self.index, self.buf.len())
    }
}

} // verus!
