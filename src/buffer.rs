use vstd::prelude::*;

use crate::error::SdrError;
use crate::sample::Sample;
use rustradio::stream::{new_nocopy_stream, NCReadStream, NCWriteStream, Tag};

verus! {

/// The bound that rustradio gives every stream of non-copyable items.
pub const STREAM_CAPACITY: usize = 1000;

/// Both ends of one rustradio stream of samples. The items live behind a
/// reference count shared by the two ends, so only a value that holds both
/// can speak of what the stream holds.
#[verifier::external_body]
pub struct SampleQueue {
    writer: NCWriteStream<Sample>,
    reader: NCReadStream<Sample>,
}

/// What a sample queue holds, oldest first.
pub uninterp spec fn queue_items(q: SampleQueue) -> Seq<Sample>;

/// Relies on rustradio::stream::new_nocopy_stream: a fresh stream holds nothing.
#[verifier::external_body]
fn queue_new() -> (q: SampleQueue)
    ensures
        queue_items(q) == Seq::<Sample>::empty(),
{
    let (writer, reader) = new_nocopy_stream::<Sample>();
    SampleQueue { writer, reader }
}

/// Relies on NCWriteStream::remaining: the stream's fixed capacity minus the
/// number of items held (the subtraction underflows past the capacity).
#[verifier::external_body]
fn queue_remaining(q: &SampleQueue) -> (r: usize)
    requires
        queue_items(*q).len() <= STREAM_CAPACITY,
    ensures
        r == STREAM_CAPACITY - queue_items(*q).len(),
{
    q.writer.remaining()
}

/// Relies on NCWriteStream::push: the item joins the back of the stream.
#[verifier::external_body]
fn queue_push(q: &mut SampleQueue, s: Sample)
    ensures
        queue_items(*final(q)) == queue_items(*old(q)).push(s),
{
    q.writer.push(s, Vec::<Tag>::new())
}

/// Relies on NCReadStream::pop: takes the front item, if there is one.
#[verifier::external_body]
fn queue_pop(q: &mut SampleQueue) -> (r: Option<Sample>)
    ensures
        queue_items(*old(q)).len() == 0 ==> r.is_none() && queue_items(*final(q)) == queue_items(*old(q)),
        queue_items(*old(q)).len() > 0 ==> r == Some(queue_items(*old(q))[0])
            && queue_items(*final(q)) == queue_items(*old(q)).drop_first(),
{
    q.reader.pop().map(|(s, _tags)| s)
}

/// The contents after one push: the item is appended if there is room, and
/// the contents are left as they were if not.
pub open spec fn push_step(items: Seq<Sample>, cap: nat, x: Sample) -> Seq<Sample> {
    if items.len() < cap {
        items.push(x)
    } else {
        items
    }
}

/// The contents after pushing each of `ps` in turn.
pub open spec fn after_pushes(items: Seq<Sample>, cap: nat, ps: Seq<Sample>) -> Seq<Sample>
    decreases ps.len(),
{
    if ps.len() == 0 {
        items
    } else {
        after_pushes(push_step(items, cap, ps[0]), cap, ps.drop_first())
    }
}

/// The items that `n` pops return, in the order they return them.
pub open spec fn popped(items: Seq<Sample>, n: nat) -> Seq<Sample>
    decreases n,
{
    if n == 0 || items.len() == 0 {
        Seq::empty()
    } else {
        seq![items[0]] + popped(items.drop_first(), (n - 1) as nat)
    }
}

/// A bounded first-in-first-out buffer of samples with a capacity fixed at
/// construction. A push into a full buffer is refused with `Overflow`.
pub struct SharedBuffer {
    queue: SampleQueue,
    capacity: usize,
}

impl View for SharedBuffer {
    type V = Seq<Sample>;

    closed spec fn view(&self) -> Seq<Sample> {
        queue_items(self.queue)
    }
}

impl SharedBuffer {
    /// The capacity the buffer was made with.
    pub closed spec fn cap(&self) -> nat {
        self.capacity as nat
    }

    /// The buffer holds no more than its capacity, which the underlying
    /// stream can hold.
    pub open spec fn wf(&self) -> bool {
        0 < self.cap() <= STREAM_CAPACITY && self@.len() <= self.cap()
    }

    /// An empty buffer of the given capacity.
    pub fn new(capacity: usize) -> (b: SharedBuffer)
        requires
            0 < capacity <= STREAM_CAPACITY,
        ensures
            b.wf(),
            b@ == Seq::<Sample>::empty(),
            b.cap() == capacity,
    {
        SharedBuffer { queue: queue_new(), capacity }
    }

    pub fn capacity(&self) -> (r: usize)
        ensures
            r == self.cap(),
    {
        self.capacity
    }

    /// The number of samples held.
    pub fn len(&self) -> (r: usize)
        requires
            self.wf(),
        ensures
            r == self@.len(),
    {
        STREAM_CAPACITY - queue_remaining(&self.queue)
    }

    /// Room left before a push overflows.
    pub fn free(&self) -> (r: usize)
        requires
            self.wf(),
        ensures
            r == self.cap() - self@.len(),
    {
        self.capacity - self.len()
    }

    /// Appends one sample, or reports `Overflow` and leaves the buffer as it
    /// was when it is full.
    pub fn push(&mut self, x: Sample) -> (r: Result<(), SdrError>)
        requires
            old(self).wf(),
        ensures
            final(self).wf(),
            final(self).cap() == old(self).cap(),
            final(self)@ == push_step(old(self)@, old(self).cap(), x),
            old(self)@.len() < old(self).cap() ==> r == Ok::<(), SdrError>(()),
            old(self)@.len() >= old(self).cap() ==> r == Err::<(), SdrError>(SdrError::Overflow),
    {
        if self.len() < self.capacity {
            queue_push(&mut self.queue, x);
            Ok(())
        } else {
            Err(SdrError::Overflow)
        }
    }

    /// Removes and returns the oldest sample, or reports `Empty`.
    pub fn pop(&mut self) -> (r: Result<Sample, SdrError>)
        requires
            old(self).wf(),
        ensures
            final(self).wf(),
            final(self).cap() == old(self).cap(),
            old(self)@.len() == 0 ==> r == Err::<Sample, SdrError>(SdrError::Empty)
                && final(self)@ == old(self)@,
            old(self)@.len() > 0 ==> r == Ok::<Sample, SdrError>(old(self)@[0])
                && final(self)@ == old(self)@.drop_first(),
    {
        match queue_pop(&mut self.queue) {
            Some(s) => Ok(s),
            None => Err(SdrError::Empty),
        }
    }

    /// Appends a whole run of samples, in order, or none of them: where the
    /// run does not fit, the buffer is left as it was and `Overflow` is
    /// reported.
    pub fn push_all(&mut self, xs: &Vec<Sample>) -> (r: Result<(), SdrError>)
        requires
            old(self).wf(),
        ensures
            final(self).wf(),
            final(self).cap() == old(self).cap(),
            old(self)@.len() + xs@.len() <= old(self).cap() ==> r == Ok::<(), SdrError>(())
                && final(self)@ == old(self)@ + xs@,
            old(self)@.len() + xs@.len() > old(self).cap() ==> r == Err::<(), SdrError>(SdrError::Overflow)
                && final(self)@ == old(self)@,
    {
        if xs.len() > self.free() {
            return Err(SdrError::Overflow);
        }
        let ghost start = self@;
        let mut i: usize = 0;
        while i < xs.len()
            invariant
                self.wf(),
                self.cap() == old(self).cap(),
                start == old(self)@,
                start.len() + xs@.len() <= self.cap(),
                i <= xs@.len(),
                self@ == start + xs@.subrange(0, i as int),
            decreases xs@.len() - i,
        {
            let _ = self.push(xs[i]);
            assert(xs@.subrange(0, i + 1) == xs@.subrange(0, i as int).push(xs@[i as int]));
            i = i + 1;
        }
        assert(xs@.subrange(0, xs@.len() as int) == xs@);
        Ok(())
    }
}

proof fn lemma_after_pushes_fit(items: Seq<Sample>, cap: nat, ps: Seq<Sample>)
    requires
        items.len() + ps.len() <= cap,
    ensures
        after_pushes(items, cap, ps) == items + ps,
    decreases ps.len(),
{
    if ps.len() > 0 {
        lemma_after_pushes_fit(items.push(ps[0]), cap, ps.drop_first());
        assert(items.push(ps[0]) + ps.drop_first() =~= items + ps);
    } else {
        assert(items + ps =~= items);
    }
}

proof fn lemma_popped_all(items: Seq<Sample>)
    ensures
        popped(items, items.len()) == items,
    decreases items.len(),
{
    if items.len() > 0 {
        lemma_popped_all(items.drop_first());
        assert(seq![items[0]] + items.drop_first() =~= items);
    } else {
        assert(popped(items, 0) =~= items);
    }
}

/// First in, first out: starting from any contents `items`, pushes of
/// `p1, ..., pn` that all fit, followed by as many pops as there are items,
/// return the old contents and then `p1, ..., pn`, in that order.
pub proof fn lemma_fifo(items: Seq<Sample>, cap: nat, ps: Seq<Sample>)
    requires
        items.len() + ps.len() <= cap,
    ensures
        popped(after_pushes(items, cap, ps), items.len() + ps.len()) == items + ps,
{
    lemma_after_pushes_fit(items, cap, ps);
    lemma_popped_all(items + ps);
}

} // verus!
