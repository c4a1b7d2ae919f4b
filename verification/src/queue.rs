//! The bounded first-in first-out queue between the producers of requests
//! and the responder.
//!
//! The queue itself never waits. A producer that finds it full gets its item
//! back and tries again later; the consumer that finds it empty is told
//! whether more may come or the queue is closed for good.

use std::collections::VecDeque;
use vstd::prelude::*;

verus! {

/// A queue as contracts see it.
pub struct QueueModel<T> {
    /// The items that wait, the oldest first.
    pub items: Seq<T>,
    /// The largest number of items that may wait at once.
    pub capacity: nat,
    /// No more items are accepted.
    pub closed: bool,
}

impl<T> QueueModel<T> {
    /// The queue holds no more than its capacity.
    pub open spec fn valid(self) -> bool {
        self.items.len() <= self.capacity
    }

    /// The queue has room for one more item.
    pub open spec fn has_room(self) -> bool {
        self.items.len() < self.capacity
    }

    /// The queue after its oldest item was taken out.
    pub open spec fn popped(self) -> QueueModel<T>
        recommends
            self.items.len() > 0,
    {
        QueueModel { items: self.items.skip(1), ..self }
    }

    /// The items that `n` takings hand out one after another, as far as the
    /// queue holds that many.
    pub open spec fn handed_out(self, n: nat) -> Seq<T>
        decreases n,
    {
        if n == 0 || self.items.len() == 0 {
            Seq::empty()
        } else {
            seq![self.items[0]] + self.popped().handed_out((n - 1) as nat)
        }
    }
}

/// Items leave the queue in the order in which they wait: `n` takings hand
/// out the `n` oldest items, the oldest first.
pub proof fn lemma_first_in_first_out<T>(queue: QueueModel<T>, n: nat)
    requires
        n <= queue.items.len(),
    ensures
        queue.handed_out(n) == queue.items.take(n as int),
    decreases n,
{
    if n > 0 {
        lemma_first_in_first_out(queue.popped(), (n - 1) as nat);
        assert(seq![queue.items[0]] + queue.items.skip(1).take(n - 1) =~= queue.items.take(
            n as int,
        ));
    } else {
        assert(queue.items.take(0) =~= Seq::<T>::empty());
    }
}

/// An item that is taken in leaves after all that waited before it and
/// before any that is taken in after it.
pub proof fn lemma_taken_in_at_the_end<T>(queue: QueueModel<T>, first: T, second: T)
    ensures
        (QueueModel { items: queue.items.push(first).push(second), ..queue }).handed_out(
            queue.items.len() + 2,
        ) == queue.items + seq![first, second],
{
    let after = QueueModel { items: queue.items.push(first).push(second), ..queue };
    lemma_first_in_first_out(after, queue.items.len() + 2);
    assert(after.items.take(queue.items.len() as int + 2) =~= queue.items + seq![first, second]);
}

/// Why an item was not taken in. The item comes back to the producer.
pub enum PushError<T> {
    /// The queue is full: the producer has to wait and offer the item again.
    Full(T),
    /// The queue is closed.
    Closed(T),
}

/// What the consumer gets from the queue.
pub enum Pop<T> {
    /// The oldest item.
    Item(T),
    /// Nothing waits now, but more may come: the consumer has to wait.
    Empty,
    /// Nothing waits and nothing will come: the consumer is done.
    Finished,
}

/// A bounded first-in first-out queue.
pub struct RequestQueue<T> {
    items: VecDeque<T>,
    capacity: usize,
    closed: bool,
}

impl<T> View for RequestQueue<T> {
    type V = QueueModel<T>;

    closed spec fn view(&self) -> QueueModel<T> {
        QueueModel { items: self.items@, capacity: self.capacity as nat, closed: self.closed }
    }
}

impl<T> RequestQueue<T> {
    #[verifier::type_invariant]
    spec fn well_formed(self) -> bool {
        self@.valid()
    }

    /// An open, empty queue for at most `capacity` items.
    pub fn new(capacity: usize) -> (queue: RequestQueue<T>)
        ensures
            queue@ == (QueueModel::<T> { items: Seq::empty(), capacity: capacity as nat, closed: false }),
            queue@.valid(),
    {
        RequestQueue { items: VecDeque::new(), capacity, closed: false }
    }

    /// The number of items that wait.
    pub fn len(&self) -> (n: usize)
        ensures
            n == self@.items.len(),
            self@.valid(),
    {
        proof {
            use_type_invariant(self);
        }
        self.items.len()
    }

    /// Whether the queue was closed.
    pub fn is_closed(&self) -> (closed: bool)
        ensures
            closed == self@.closed,
    {
        self.closed
    }

    /// Offers `item` to the queue. An open queue with room takes it in
    /// behind all that wait; a closed queue, and a full one, hands it back
    /// and stays as it is.
    pub fn push(&mut self, item: T) -> (res: Result<(), PushError<T>>)
        ensures
            final(self)@.valid(),
            old(self)@.closed ==> res == Err::<(), PushError<T>>(PushError::Closed(item))
                && final(self)@ == old(self)@,
            !old(self)@.closed && !old(self)@.has_room() ==> res == Err::<(), PushError<T>>(
                PushError::Full(item),
            ) && final(self)@ == old(self)@,
            !old(self)@.closed && old(self)@.has_room() ==> res is Ok && final(self)@ == (QueueModel {
                items: old(self)@.items.push(item),
                ..old(self)@
            }),
    {
        let mut held = RequestQueue::new(0);
        core::mem::swap(self, &mut held);
        proof {
            use_type_invariant(&held);
        }
        let RequestQueue { mut items, capacity, closed } = held;
        let res = if closed {
            Err(PushError::Closed(item))
        } else if items.len() >= capacity {
            Err(PushError::Full(item))
        } else {
            items.push_back(item);
            Ok(())
        };
        *self = RequestQueue { items, capacity, closed };
        res
    }

    /// Takes the oldest item out of the queue. Where nothing waits, the
    /// answer tells an open queue, at which the consumer waits, from a closed
    /// one, at which it stops.
    pub fn pop(&mut self) -> (res: Pop<T>)
        ensures
            final(self)@.valid(),
            old(self)@.items.len() > 0 ==> res == Pop::Item(old(self)@.items[0]) && final(self)@
                == old(self)@.popped(),
            old(self)@.items.len() == 0 ==> final(self)@ == old(self)@ && res == (if old(
                self,
            )@.closed {
                Pop::<T>::Finished
            } else {
                Pop::<T>::Empty
            }),
    {
        let mut held = RequestQueue::new(0);
        core::mem::swap(self, &mut held);
        proof {
            use_type_invariant(&held);
        }
        let RequestQueue { mut items, capacity, closed } = held;
        let res = match items.pop_front() {
            Some(item) => Pop::Item(item),
            None => if closed {
                Pop::Finished
            } else {
                Pop::Empty
            },
        };
        proof {
            if old(self)@.items.len() > 0 {
                assert(items@ =~= old(self)@.items.skip(1));
            }
        }
        *self = RequestQueue { items, capacity, closed };
        res
    }

    /// Closes the queue: nothing more is taken in, and what waits can still
    /// be taken out.
    pub fn close(&mut self)
        ensures
            final(self)@ == (QueueModel { closed: true, ..old(self)@ }),
            final(self)@.valid(),
    {
        let mut held = RequestQueue::new(0);
        core::mem::swap(self, &mut held);
        proof {
            use_type_invariant(&held);
        }
        let RequestQueue { items, capacity, closed: _ } = held;
        *self = RequestQueue { items, capacity, closed: true };
    }
}

} // verus!
