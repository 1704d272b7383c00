//! Producer side of the log ring buffer.
use vstd::prelude::*;
use loopq::embassy::AsyncProducer;

verus! {

/// Capacity of the log ring buffer, in bytes.
pub const BUFFERSIZE: usize = 64;

#[verifier::external_type_specification]
#[verifier::external_body]
pub struct ExAsyncProducer<'a, const N: usize>(AsyncProducer<'a, N>);

/// The bytes committed through a producer handle that the consumer has not taken yet,
/// oldest first, as the producer sees them while it holds the frame lock and the consumer
/// takes nothing.
pub uninterp spec fn queued(p: AsyncProducer<'static, BUFFERSIZE>) -> Seq<u8>;

/// The length of the contiguous free region that the producer's next grant covers.
pub uninterp spec fn contiguous_free(p: AsyncProducer<'static, BUFFERSIZE>) -> nat;

/// Relies on `AsyncProducer::try_writable_bytes`: the grant covers the contiguous free
/// region, lies within the free capacity, and is empty exactly when the buffer is full;
/// dropping it without a commit leaves the queue as it was.
#[verifier::external_body]
fn writable_len(p: &mut AsyncProducer<'static, BUFFERSIZE>) -> (r: usize)
    ensures
        queued(*final(p)) == queued(*old(p)),
        r == contiguous_free(*final(p)),
        r + queued(*final(p)).len() <= BUFFERSIZE,
        r == 0 <==> queued(*final(p)).len() == BUFFERSIZE,
{
    p.try_writable_bytes().len()
}

/// Relies on `AsyncWritableBytes::commit` (on a grant from `try_writable_bytes`): the bytes
/// copied into the front of the grant are appended to the queue.
#[verifier::external_body]
fn commit_contiguous(p: &mut AsyncProducer<'static, BUFFERSIZE>, bytes: &[u8])
    requires
        bytes@.len() <= contiguous_free(*old(p)),
    ensures
        queued(*final(p)) == queued(*old(p)) + bytes@,
{
    let mut grant = p.try_writable_bytes();
    grant[..bytes.len()].copy_from_slice(bytes);
    grant.commit(bytes.len());
}

/// The free capacity left beside a queue of `q`.
pub open spec fn free_space(q: Seq<u8>) -> nat {
    if q.len() < BUFFERSIZE {
        (BUFFERSIZE - q.len()) as nat
    } else {
        0
    }
}

/// What a queue holds after a best-effort write of `bytes`: the longest prefix of `bytes`
/// that fits in the free capacity is appended, the rest is dropped.
pub open spec fn after_write(q: Seq<u8>, bytes: Seq<u8>) -> Seq<u8> {
    if bytes.len() <= free_space(q) {
        q + bytes
    } else {
        q + bytes.subrange(0, free_space(q) as int)
    }
}

/// Two best-effort writes in a row keep what one best-effort write of their concatenation
/// keeps: the bytes stay in call order and only the tail beyond the free capacity is lost.
pub proof fn lemma_writes_compose(q: Seq<u8>, a: Seq<u8>, b: Seq<u8>)
    requires
        q.len() <= BUFFERSIZE,
    ensures
        after_write(after_write(q, a), b) == after_write(q, a + b),
        after_write(q, a).len() <= BUFFERSIZE,
{
    let f = free_space(q);
    let qa = after_write(q, a);
    if a.len() <= f {
        assert(free_space(qa) == f - a.len());
        if b.len() <= f - a.len() {
            assert(q + a + b =~= q + (a + b));
        } else {
            assert(q + a + b.subrange(0, f - a.len()) =~= q + (a + b).subrange(0, f as int));
        }
    } else {
        assert(free_space(qa) == 0);
        assert(b.subrange(0, 0) =~= Seq::<u8>::empty());
        assert(qa + b.subrange(0, 0) =~= qa);
        assert(a.subrange(0, f as int) =~= (a + b).subrange(0, f as int));
    }
}

/// What a queue holds after a series of best-effort writes, in call order.
pub open spec fn after_writes(q: Seq<u8>, writes: Seq<Seq<u8>>) -> Seq<u8>
    decreases writes.len(),
{
    if writes.len() == 0 {
        q
    } else {
        after_write(after_writes(q, writes.drop_last()), writes.last())
    }
}

/// All the bytes of a series of writes, in call order.
pub open spec fn concat(writes: Seq<Seq<u8>>) -> Seq<u8>
    decreases writes.len(),
{
    if writes.len() == 0 {
        Seq::empty()
    } else {
        concat(writes.drop_last()) + writes.last()
    }
}

/// A series of best-effort writes keeps what one best-effort write of all their bytes
/// keeps: the leading bytes, in call order, up to the free capacity; the rest is dropped.
pub proof fn lemma_writes_truncate(q: Seq<u8>, writes: Seq<Seq<u8>>)
    requires
        q.len() <= BUFFERSIZE,
    ensures
        after_writes(q, writes) == after_write(q, concat(writes)),
    decreases writes.len(),
{
    if writes.len() == 0 {
        assert(q + Seq::<u8>::empty() =~= q);
    } else {
        let init = writes.drop_last();
        lemma_writes_truncate(q, init);
        lemma_writes_compose(q, concat(init), writes.last());
    }
}

/// Writes that together fit in the free capacity reach the consumer whole: the queue
/// grows by exactly their concatenation, in call order.
pub proof fn lemma_writes_concatenate(q: Seq<u8>, writes: Seq<Seq<u8>>)
    requires
        q.len() + concat(writes).len() <= BUFFERSIZE,
    ensures
        after_writes(q, writes) == q + concat(writes),
{
    lemma_writes_truncate(q, writes);
}

/// The producer end of the log ring buffer, fed while the frame lock is held.
pub struct Controller {
    producer: AsyncProducer<'static, BUFFERSIZE>,
}

impl Controller {
    /// The bytes waiting in the ring buffer, oldest first.
    pub closed spec fn queue(&self) -> Seq<u8> {
        queued(self.producer)
    }

    /// Takes over the ring buffer's producer handle.
    pub fn new(producer: AsyncProducer<'static, BUFFERSIZE>) -> (r: Self)
        ensures
            r.queue() == queued(producer),
    {
        Controller { producer }
    }

    /// Copies as much of `bytes` as fits into the ring buffer, one contiguous region at a
    /// time; what does not fit is dropped without any error. The queue is the one seen by
    /// the producer while the consumer takes nothing during the call.
    pub fn write(&mut self, bytes: &[u8])
        ensures
            final(self).queue() == after_write(old(self).queue(), bytes@),
            final(self).queue().len() <= BUFFERSIZE,
    {
        let ghost start = self.queue();
        let mut written: usize = 0;
        loop
            invariant
                written <= bytes@.len(),
                self.queue() == start + bytes@.subrange(0, written as int),
                written > 0 ==> self.queue().len() <= BUFFERSIZE,
            ensures
                self.queue() == start + bytes@.subrange(0, written as int),
                self.queue().len() <= BUFFERSIZE,
                written == bytes@.len() || self.queue().len() == BUFFERSIZE,
            decreases bytes@.len() - written,
        {
            let writable = writable_len(&mut self.producer);
            if writable == 0 || written == bytes.len() {
                break;
            }
            let rest = bytes.len() - written;
            let chunk = if writable < rest {
                writable
            } else {
                rest
            };
            let piece = slice_range(bytes, written, written + chunk);
            commit_contiguous(&mut self.producer, piece);
            assert(bytes@.subrange(0, written as int) + piece@ =~= bytes@.subrange(
                0,
                (written + chunk) as int,
            ));
            written = written + chunk;
        }
        assert(self.queue() =~= after_write(start, bytes@));
    }
}

/// `bytes[lo..hi]`.
fn slice_range(bytes: &[u8], lo: usize, hi: usize) -> (r: &[u8])
    requires
        lo <= hi <= bytes@.len(),
    ensures
        r@ == bytes@.subrange(lo as int, hi as int),
{
    &bytes[lo..hi]
}

} // verus!
