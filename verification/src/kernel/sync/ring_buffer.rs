//! A fixed-size first-in first-out ring buffer.
//!
//! `N` slots hold at most `N - 1` items: the producer index `head` never
//! catches up with the consumer index `tail` from behind. The queue's view is
//! the sequence of queued items, oldest first.

use vstd::prelude::*;

verus! {

/// A fixed-size ring buffer of `N` slots.
///
/// Pushing and popping take the buffer by `&mut`, so a producer and a
/// consumer on different contexts must serialize their access, for example
/// behind a lock; the buffer itself uses no atomics.
pub struct LockFreeRingBuffer<T, const N: usize> {
    buffer: Vec<Option<T>>,
    head: usize,
    tail: usize,
}

/// An index in `[0, 2n)` reduced modulo `n`.
proof fn lemma_wrap(x: int, n: int)
    requires
        n > 0,
        0 <= x < 2 * n,
    ensures
        x % n == if x < n {
            x
        } else {
            x - n
        },
{
    if x < n {
        vstd::arithmetic::div_mod::lemma_fundamental_div_mod_converse(x, n, 0, x);
    } else {
        vstd::arithmetic::div_mod::lemma_fundamental_div_mod_converse(x, n, 1, x - n);
    }
}

/// Number of items queued between `tail` and `head` in a ring of `n` slots.
pub open spec fn queued_count(head: int, tail: int, n: int) -> int {
    if head >= tail {
        head - tail
    } else {
        n - (tail - head)
    }
}

impl<T: Copy, const N: usize> LockFreeRingBuffer<T, N> {
    /// The ring's invariant: `N` slots, both indexes inside them, and every
    /// queued slot filled.
    pub closed spec fn wf(&self) -> bool {
        &&& self.buffer@.len() == N
        &&& N == 0 ==> self.head == 0 && self.tail == 0
        &&& N > 0 ==> self.head < N && self.tail < N
        &&& forall|i: int|
            0 <= i < queued_count(self.head as int, self.tail as int, N as int) ==> (
            #[trigger] self.buffer@[(self.tail + i) % (N as int)]) is Some
    }

    /// The queued items, oldest first.
    pub closed spec fn items(&self) -> Seq<T> {
        Seq::new(
            queued_count(self.head as int, self.tail as int, N as int) as nat,
            |i: int| self.buffer@[(self.tail + i) % (N as int)]->0,
        )
    }

    /// Create an empty ring buffer.
    pub fn new() -> (r: Self)
        ensures
            r.wf(),
            r.items() == Seq::<T>::empty(),
    {
        let mut buffer: Vec<Option<T>> = Vec::new();
        while buffer.len() < N
            invariant
                buffer.len() <= N,
            decreases N - buffer.len(),
        {
            buffer.push(None);
        }
        let r = Self { buffer, head: 0, tail: 0 };
        proof {
            assert(r.items() =~= Seq::<T>::empty());
        }
        r
    }

    /// Queue `item` behind the others; a full ring hands it back.
    pub fn push(&mut self, item: T) -> (r: Result<(), T>)
        requires
            old(self).wf(),
            N > 0,
        ensures
            final(self).wf(),
            r is Ok <==> old(self).items().len() < N - 1,
            r is Ok ==> final(self).items() == old(self).items().push(item),
            r matches Err(returned) ==> returned == item && final(self).items() == old(
                self,
            ).items(),
    {
        let head = self.head;
        let tail = self.tail;
        let next_head = (head + 1) % N;
        proof {
            let n = N as int;
            lemma_wrap(head + 1, n);
        }
        if next_head == tail {
            return Err(item);
        }
        let ghost before = self.items();
        self.buffer.set(head, Some(item));
        self.head = next_head;
        proof {
            let n = N as int;
            let old_count = queued_count(head as int, tail as int, n);
            lemma_wrap(head + 1, n);
            lemma_wrap(tail + old_count, n);
            assert(queued_count(next_head as int, tail as int, n) == old_count + 1);
            assert((tail + old_count) % n == head);
            assert forall|i: int|
                0 <= i < old_count + 1 implies (#[trigger] self.buffer@[(self.tail + i) % n]) is Some by {
                lemma_wrap(tail + i, n);
                if i < old_count {
                    assert((tail + i) % n != head as int);
                }
            }
            assert forall|i: int| 0 <= i < old_count implies self.items()[i] == before[i] by {
                lemma_wrap(tail + i, n);
                assert((tail + i) % n != head as int);
            }
            assert(self.items() =~= before.push(item));
        }
        Ok(())
    }

    /// Take the oldest queued item, if any.
    pub fn pop(&mut self) -> (r: Option<T>)
        requires
            old(self).wf(),
        ensures
            final(self).wf(),
            r is None <==> old(self).items().len() == 0,
            r matches Some(item) ==> item == old(self).items()[0] && final(self).items() == old(
                self,
            ).items().drop_first(),
            r is None ==> final(self).items() == old(self).items(),
    {
        let tail = self.tail;
        let head = self.head;
        if head == tail {
            return None;
        }
        let ghost before = self.items();
        proof {
            lemma_wrap(tail as int, N as int);
            assert(queued_count(head as int, tail as int, N as int) > 0);
            assert(self.buffer@[(self.tail + 0) % (N as int)] is Some);
            assert(self.buffer@[tail as int] is Some);
        }
        let item = self.buffer[tail];
        self.buffer.set(tail, None);
        self.tail = (tail + 1) % N;
        proof {
            let n = N as int;
            let old_count = queued_count(head as int, tail as int, n);
            lemma_wrap(tail + 1, n);
            assert(queued_count(head as int, self.tail as int, n) == old_count - 1);
            assert forall|i: int|
                0 <= i < old_count - 1 implies (#[trigger] self.buffer@[(self.tail + i) % n]) is Some by {
                lemma_wrap(self.tail + i, n);
                lemma_wrap(tail + (i + 1), n);
                assert((self.tail + i) % n == (tail + (i + 1)) % n);
                assert((tail + (i + 1)) % n != tail as int);
            }
            assert forall|i: int| 0 <= i < old_count - 1 implies self.items()[i] == before.drop_first()[i] by {
                lemma_wrap(self.tail + i, n);
                lemma_wrap(tail + (i + 1), n);
                assert((self.tail + i) % n == (tail + (i + 1)) % n);
                assert((tail + (i + 1)) % n != tail as int);
            }
            assert(self.items() =~= before.drop_first());
        }
        item
    }

    /// Return the number of queued items.
    pub fn len(&self) -> (r: usize)
        requires
            self.wf(),
        ensures
            r == self.items().len(),
    {
        let head = self.head;
        let tail = self.tail;
        if head >= tail {
            head - tail
        } else {
            N - (tail - head)
        }
    }

    /// Return whether the queue is empty.
    pub fn is_empty(&self) -> (r: bool)
        requires
            self.wf(),
        ensures
            r == (self.items().len() == 0),
    {
        self.head == self.tail
    }
}

/// First in, first out: over the queue's items as `push` and `pop` state
/// them, a push never changes which item pops next when the queue holds
/// any, an item pushed into an empty queue is the next to pop, and the
/// pushed item queues behind all others.
pub proof fn law_first_in_first_out<T>(items: Seq<T>, item: T)
    ensures
        items.len() > 0 ==> items.push(item)[0] == items[0],
        items.len() > 0 ==> items.push(item).drop_first() == items.drop_first().push(item),
        items.len() == 0 ==> items.push(item)[0] == item,
        items.len() == 0 ==> items.push(item).drop_first() == Seq::<T>::empty(),
{
    if items.len() > 0 {
        assert(items.push(item).drop_first() =~= items.drop_first().push(item));
    } else {
        assert(items.push(item).drop_first() =~= Seq::<T>::empty());
    }
}

} // verus!
