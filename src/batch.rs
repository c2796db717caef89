//! Size-or-time batching of frames, used on both halves of a connection.
//! A batch leaves when it holds `BATCH_CAPACITY` frames, or at the next tick
//! of the flush timer when it holds any.

use vstd::prelude::*;

verus! {

/// Frames per batch.
pub const BATCH_CAPACITY: usize = 16;

/// Period of the flush timer, in milliseconds.
pub const FLUSH_INTERVAL_MS: u64 = 5;

/// Inbound frames decoded at once, at most.
pub const MAX_CONCURRENT_HANDLERS: usize = 32;

/// Collects frames into batches, remembering (as ghost state) every frame
/// submitted and every frame already handed out.
pub struct Batcher<T> {
    buf: Vec<T>,
    submitted: Ghost<Seq<T>>,
    flushed: Ghost<Seq<T>>,
}

impl<T> Batcher<T> {
    /// Every frame submitted so far, in submission order.
    pub closed spec fn submitted(&self) -> Seq<T> {
        self.submitted@
    }

    /// Every frame handed out in a batch so far, batches in the order they left.
    pub closed spec fn flushed(&self) -> Seq<T> {
        self.flushed@
    }

    /// Frames waiting for the next batch.
    pub closed spec fn buffered(&self) -> Seq<T> {
        self.buf@
    }

    pub closed spec fn wf(&self) -> bool {
        &&& self.flushed@ + self.buf@ == self.submitted@
        &&& self.buf@.len() < BATCH_CAPACITY
    }

    pub fn new() -> (r: Self)
        ensures
            r.wf(),
            r.submitted() == Seq::<T>::empty(),
            r.flushed() == Seq::<T>::empty(),
            r.buffered() == Seq::<T>::empty(),
    {
        let r = Batcher { buf: Vec::new(), submitted: Ghost(Seq::empty()), flushed: Ghost(Seq::empty()) };
        assert(r.flushed@ + r.buf@ =~= r.submitted@);
        r
    }

    fn take_buffer(&mut self) -> (r: Vec<T>)
        requires
            old(self).flushed() + old(self).buffered() == old(self).submitted(),
        ensures
            final(self).wf(),
            r@ == old(self).buffered(),
            final(self).buffered() == Seq::<T>::empty(),
            final(self).flushed() == old(self).flushed() + r@,
            final(self).submitted() == old(self).submitted(),
    {
        let mut out: Vec<T> = Vec::new();
        std::mem::swap(&mut out, &mut self.buf);
        self.flushed = Ghost(self.flushed@ + out@);
        assert(self.flushed@ + self.buf@ =~= self.submitted@);
        out
    }

    /// Adds one frame; hands back the full batch when this frame fills it.
    pub fn push(&mut self, item: T) -> (r: Option<Vec<T>>)
        requires
            old(self).wf(),
        ensures
            final(self).wf(),
            final(self).submitted() == old(self).submitted().push(item),
            match r {
                Some(batch) => {
                    &&& batch@ == old(self).buffered().push(item)
                    &&& batch@.len() == BATCH_CAPACITY
                    &&& final(self).buffered() == Seq::<T>::empty()
                    &&& final(self).flushed() == old(self).flushed() + batch@
                },
                None => {
                    &&& old(self).buffered().len() + 1 < BATCH_CAPACITY
                    &&& final(self).buffered() == old(self).buffered().push(item)
                    &&& final(self).flushed() == old(self).flushed()
                },
            },
    {
        let ghost item_view = item;
        self.buf.push(item);
        self.submitted = Ghost(self.submitted@.push(item_view));
        assert(self.flushed@ + self.buf@ =~= self.submitted@);
        if self.buf.len() >= BATCH_CAPACITY {
            let batch = self.take_buffer();
            Some(batch)
        } else {
            None
        }
    }

    /// The timer fired: hands back what is buffered, if anything.
    pub fn tick(&mut self) -> (r: Option<Vec<T>>)
        requires
            old(self).wf(),
        ensures
            final(self).wf(),
            final(self).submitted() == old(self).submitted(),
            final(self).buffered() == Seq::<T>::empty(),
            match r {
                Some(batch) => {
                    &&& batch@ == old(self).buffered()
                    &&& batch@.len() > 0
                    &&& final(self).flushed() == old(self).flushed() + batch@
                },
                None => {
                    &&& old(self).buffered() == Seq::<T>::empty()
                    &&& final(self).flushed() == old(self).flushed()
                },
            },
    {
        if self.buf.len() == 0 {
            assert(self.buf@ =~= Seq::<T>::empty());
            None
        } else {
            let batch = self.take_buffer();
            Some(batch)
        }
    }
}

/// Frames leave in the order they were submitted, whatever the batch
/// boundaries: what has left, followed by what waits, is exactly what was
/// submitted.
pub proof fn lemma_batches_keep_order<T>(b: &Batcher<T>)
    requires
        b.wf(),
    ensures
        b.flushed() + b.buffered() == b.submitted(),
        b.flushed().len() <= b.submitted().len(),
        b.flushed() == b.submitted().subrange(0, b.flushed().len() as int),
{
    assert(b.flushed() =~= (b.flushed() + b.buffered()).subrange(0, b.flushed().len() as int));
}

} // verus!
