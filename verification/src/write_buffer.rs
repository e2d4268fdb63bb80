//! A bounded buffer of rows bound for one destination table.
//!
//! Rows are appended one at a time. Once a full batch has gathered the buffer
//! hands it out for a single multi-row insert; what is left at the end of a
//! stage is handed out by [`MasWriteBuffer::finish`].

use vstd::prelude::*;

verus! {

/// The number of rows that make up a full batch.
pub const WRITE_BUFFER_BATCH_SIZE: usize = 4096;

/// An append-only buffer of rows of one kind.
pub struct MasWriteBuffer<T> {
    rows: Vec<T>,
    flushed: Ghost<Seq<T>>,
}

impl<T> MasWriteBuffer<T> {
    #[verifier::type_invariant]
    spec fn below_batch_size(self) -> bool {
        self.rows@.len() < WRITE_BUFFER_BATCH_SIZE
    }

    /// The rows that were written and not handed out yet, oldest first.
    pub closed spec fn pending(&self) -> Seq<T> {
        self.rows@
    }

    /// The rows that were handed out in batches so far, oldest first.
    pub closed spec fn flushed(&self) -> Seq<T> {
        self.flushed@
    }

    /// Every row that was ever written to the buffer, in the order of
    /// writing.
    pub open spec fn written(&self) -> Seq<T> {
        self.flushed() + self.pending()
    }

    /// An empty buffer.
    pub fn new() -> (buffer: Self)
        ensures
            buffer.pending() == Seq::<T>::empty(),
            buffer.flushed() == Seq::<T>::empty(),
    {
        MasWriteBuffer { rows: Vec::new(), flushed: Ghost(Seq::empty()) }
    }

    /// The number of rows waiting in the buffer; always less than a full
    /// batch.
    pub fn len(&self) -> (len: usize)
        ensures
            len == self.pending().len(),
            len < WRITE_BUFFER_BATCH_SIZE,
    {
        proof {
            use_type_invariant(self);
        }
        self.rows.len()
    }

    /// Appends `row`. Where that completes a batch, the whole batch is
    /// returned, to be inserted before anything else is written, and the
    /// buffer is empty again; otherwise nothing is returned.
    pub fn write(&mut self, row: T) -> (batch: Option<Vec<T>>)
        ensures
            final(self).written() == old(self).written().push(row),
            match batch {
                Some(batch) => {
                    &&& batch@ == old(self).pending().push(row)
                    &&& batch@.len() == WRITE_BUFFER_BATCH_SIZE
                    &&& final(self).pending() == Seq::<T>::empty()
                    &&& final(self).flushed() == old(self).flushed() + batch@
                },
                None => {
                    &&& old(self).pending().len() + 1 < WRITE_BUFFER_BATCH_SIZE
                    &&& final(self).pending() == old(self).pending().push(row)
                    &&& final(self).flushed() == old(self).flushed()
                },
            },
    {
        proof {
            use_type_invariant(&*self);
        }
        let mut taken = MasWriteBuffer::new();
        core::mem::swap(self, &mut taken);
        let MasWriteBuffer { rows, flushed } = taken;
        let mut rows = rows;
        rows.push(row);
        if rows.len() < WRITE_BUFFER_BATCH_SIZE {
            *self = MasWriteBuffer { rows, flushed };
            assert(self.written() =~= old(self).written().push(row));
            None
        } else {
            *self = MasWriteBuffer { rows: Vec::new(), flushed: Ghost(flushed@ + rows@) };
            assert(self.written() =~= old(self).written().push(row));
            Some(rows)
        }
    }

    /// Hands out the rows waiting in the buffer, to be inserted before
    /// anything else is written, or nothing where none is waiting. The
    /// buffer is empty afterwards.
    pub fn flush(&mut self) -> (rest: Option<Vec<T>>)
        ensures
            final(self).written() == old(self).written(),
            final(self).pending() == Seq::<T>::empty(),
            final(self).flushed() == old(self).written(),
            match rest {
                Some(rest) => rest@ == old(self).pending() && rest@.len() > 0,
                None => old(self).pending() == Seq::<T>::empty(),
            },
    {
        let mut taken = MasWriteBuffer::new();
        core::mem::swap(self, &mut taken);
        let MasWriteBuffer { rows, flushed } = taken;
        *self = MasWriteBuffer { rows: Vec::new(), flushed: Ghost(flushed@ + rows@) };
        assert(self.written() =~= old(self).written());
        if rows.len() == 0 {
            assert(old(self).pending() =~= Seq::<T>::empty());
            None
        } else {
            Some(rows)
        }
    }

    /// Ends the use of the buffer and returns the rows still waiting in it,
    /// or nothing where none is.
    pub fn finish(self) -> (rest: Option<Vec<T>>)
        ensures
            match rest {
                Some(rest) => rest@ == self.pending() && rest@.len() > 0,
                None => self.pending() == Seq::<T>::empty(),
            },
    {
        let mut buffer = self;
        buffer.flush()
    }
}

} // verus!
