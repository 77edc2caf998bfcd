//! A generic first-in first-out queue.

use std::collections::VecDeque;
use vstd::prelude::*;

verus! {

broadcast use vstd::std_specs::vecdeque::group_vec_dequeue_axioms;

/// Generic FIFO queue: items leave in the order in which they arrived.
#[derive(Debug)]
pub struct Queue<T> {
    items: VecDeque<T>,
}

impl<T> View for Queue<T> {
    type V = Seq<T>;

    /// The queued items, front first.
    closed spec fn view(&self) -> Seq<T> {
        self.items@
    }
}

impl<T> Default for Queue<T> {
    /// An empty queue.
    fn default() -> (q: Self)
        ensures
            q@ == Seq::<T>::empty(),
    {
        Queue::new()
    }
}

/// The contents after enqueueing `item`: it joins at the back.
pub open spec fn enqueued<T>(items: Seq<T>, item: T) -> Seq<T> {
    items.push(item)
}

/// What a dequeue gives and leaves: the front item, if any, and the rest.
pub open spec fn dequeued<T>(items: Seq<T>) -> (Option<T>, Seq<T>) {
    if items.len() == 0 {
        (None, items)
    } else {
        (Some(items[0]), items.drop_first())
    }
}

/// The front item, if any.
pub open spec fn front<T>(items: Seq<T>) -> Option<T> {
    if items.len() == 0 {
        None
    } else {
        Some(items[0])
    }
}

/// The contents after enqueueing each of `xs` in turn.
pub open spec fn enqueued_all<T>(items: Seq<T>, xs: Seq<T>) -> Seq<T>
    decreases xs.len(),
{
    if xs.len() == 0 {
        items
    } else {
        enqueued(enqueued_all(items, xs.drop_last()), xs.last())
    }
}

/// The items `n` successive dequeues give, in order, and what they leave.
pub open spec fn dequeued_n<T>(items: Seq<T>, n: nat) -> (Seq<Option<T>>, Seq<T>)
    decreases n,
{
    if n == 0 {
        (Seq::empty(), items)
    } else {
        let (first, rest) = dequeued(items);
        let (more, left) = dequeued_n(rest, (n - 1) as nat);
        (seq![first] + more, left)
    }
}

impl<T> Queue<T> {
    /// Creates a new empty queue.
    pub fn new() -> (q: Self)
        ensures
            q@ == Seq::<T>::empty(),
    {
        Queue { items: VecDeque::new() }
    }

    /// Adds an item to the back of the queue.
    pub fn enqueue(&mut self, item: T)
        ensures
            final(self)@ == enqueued(old(self)@, item),
    {
        self.items.push_back(item);
    }

    /// Removes and returns the front item of the queue.
    pub fn dequeue(&mut self) -> (front: Option<T>)
        ensures
            (front, final(self)@) == dequeued(old(self)@),
    {
        self.items.pop_front()
    }

    /// The front item, without removing it.
    pub fn peek(&self) -> (item: Option<&T>)
        ensures
            match item {
                Some(x) => front(self@) == Some(*x),
                None => front(self@) is None,
            },
    {
        if self.items.len() == 0 {
            None
        } else {
            Some(&self.items[0])
        }
    }

    /// The back item, the one enqueued last, without removing it.
    pub fn peek_back(&self) -> (item: Option<&T>)
        ensures
            match item {
                Some(x) => self@.len() > 0 && *x == self@.last(),
                None => self@.len() == 0,
            },
    {
        let n = self.items.len();
        if n == 0 {
            None
        } else {
            Some(&self.items[n - 1])
        }
    }

    /// The number of items in the queue.
    pub fn len(&self) -> (n: usize)
        ensures
            n == self@.len(),
    {
        self.items.len()
    }

    /// Whether the queue holds no item.
    pub fn is_empty(&self) -> (empty: bool)
        ensures
            empty == (self@.len() == 0),
    {
        self.items.len() == 0
    }

    /// All items, front first.
    pub fn to_vec(&self) -> (all: Vec<&T>)
        ensures
            all@ == self@.as_ref(),
    {
        let mut all: Vec<&T> = Vec::new();
        let n = self.items.len();
        let mut i: usize = 0;
        while i < n
            invariant
                n == self@.len(),
                0 <= i <= n,
                all@ == self@.take(i as int).as_ref(),
            decreases n - i,
        {
            all.push(&self.items[i]);
            i = i + 1;
            assert(all@ =~= self@.take(i as int).as_ref());
        }
        assert(self@.take(n as int) =~= self@);
        all
    }
}

/// First in, first out: enqueueing `xs` one by one into an empty queue and
/// then dequeueing as many times gives back `xs` in the same order and leaves
/// the queue empty, so one more dequeue gives nothing.
pub proof fn law_fifo<T>(xs: Seq<T>)
    ensures
        dequeued_n(enqueued_all(Seq::<T>::empty(), xs), xs.len()) == (
            xs.map_values(|x: T| Some(x)),
            Seq::<T>::empty(),
        ),
        dequeued(dequeued_n(enqueued_all(Seq::<T>::empty(), xs), xs.len()).1).0 is None,
{
    lemma_enqueued_all(Seq::<T>::empty(), xs);
    assert(Seq::<T>::empty() + xs =~= xs);
    lemma_dequeued_n_prefix(xs, Seq::<T>::empty());
    assert(xs + Seq::<T>::empty() =~= xs);
}

/// Enqueueing `xs` one by one appends them in order.
pub proof fn lemma_enqueued_all<T>(items: Seq<T>, xs: Seq<T>)
    ensures
        enqueued_all(items, xs) == items + xs,
    decreases xs.len(),
{
    if xs.len() > 0 {
        lemma_enqueued_all(items, xs.drop_last());
        assert(items + xs.drop_last() + seq![xs.last()] =~= items + xs);
    }
}

/// Dequeueing as many times as there are items in front of `rest` gives
/// those items in order and leaves `rest`.
pub proof fn lemma_dequeued_n_prefix<T>(xs: Seq<T>, rest: Seq<T>)
    ensures
        dequeued_n(xs + rest, xs.len()) == (xs.map_values(|x: T| Some(x)), rest),
    decreases xs.len(),
{
    if xs.len() > 0 {
        assert((xs + rest).drop_first() =~= xs.drop_first() + rest);
        lemma_dequeued_n_prefix(xs.drop_first(), rest);
        assert(seq![Some(xs[0])] + xs.drop_first().map_values(|x: T| Some(x)) =~= xs.map_values(
            |x: T| Some(x),
        ));
    }
}

/// The front a peek shows is the item the next dequeue gives.
pub proof fn law_peek_then_dequeue<T>(items: Seq<T>)
    ensures
        front(items) == dequeued(items).0,
{
}

/// On a non-empty queue, enqueueing and dequeueing commute: the dequeue gives
/// the same front item either way, and both orders leave the same contents.
pub proof fn law_enqueue_dequeue_commute<T>(items: Seq<T>, item: T)
    requires
        items.len() > 0,
    ensures
        dequeued(enqueued(items, item)).0 == dequeued(items).0,
        dequeued(enqueued(items, item)).1 == enqueued(dequeued(items).1, item),
{
    assert(items.push(item).drop_first() =~= items.drop_first().push(item));
}

/// An item enqueued into an empty queue is the next one dequeued, and the
/// queue is empty again afterwards.
pub proof fn law_enqueue_into_empty<T>(item: T)
    ensures
        dequeued(enqueued(Seq::<T>::empty(), item)) == (Some(item), Seq::<T>::empty()),
{
    assert(Seq::<T>::empty().push(item).drop_first() =~= Seq::<T>::empty());
}

/// Each enqueue adds one item and each successful dequeue removes one.
pub proof fn law_length<T>(items: Seq<T>, item: T)
    ensures
        enqueued(items, item).len() == items.len() + 1,
        dequeued(items).0 is Some ==> dequeued(items).1.len() == items.len() - 1,
        dequeued(items).0 is None ==> items.len() == 0,
{
}

/// One call on a queue: an enqueue of an item, or a dequeue.
pub enum QueueOp<T> {
    Enqueue(T),
    Dequeue,
}

/// The contents after the calls `ops`, in order, as `enqueue` and `dequeue`
/// leave them.
pub open spec fn after_ops<T>(items: Seq<T>, ops: Seq<QueueOp<T>>) -> Seq<T>
    decreases ops.len(),
{
    if ops.len() == 0 {
        items
    } else {
        let before = after_ops(items, ops.drop_last());
        match ops.last() {
            QueueOp::Enqueue(x) => enqueued(before, x),
            QueueOp::Dequeue => dequeued(before).1,
        }
    }
}

/// How many of the calls `ops` are enqueues.
pub open spec fn enqueue_count<T>(ops: Seq<QueueOp<T>>) -> nat
    decreases ops.len(),
{
    if ops.len() == 0 {
        0
    } else {
        enqueue_count(ops.drop_last()) + if ops.last() is Enqueue {
            1nat
        } else {
            0nat
        }
    }
}

/// How many of the calls `ops`, made from `items`, are dequeues that give
/// an item.
pub open spec fn served_count<T>(items: Seq<T>, ops: Seq<QueueOp<T>>) -> nat
    decreases ops.len(),
{
    if ops.len() == 0 {
        0
    } else {
        served_count(items, ops.drop_last()) + if ops.last() is Dequeue && dequeued(
            after_ops(items, ops.drop_last()),
        ).0 is Some {
            1nat
        } else {
            0nat
        }
    }
}

/// Over any interleaving of calls, the length is the starting length plus
/// the enqueues minus the dequeues that gave an item; from a new queue it is
/// the enqueues minus those dequeues. The listing holds as many items.
pub proof fn law_length_over_calls<T>(items: Seq<T>, ops: Seq<QueueOp<T>>)
    ensures
        after_ops(items, ops).len() == items.len() + enqueue_count(ops) - served_count(items, ops),
        after_ops(items, ops).as_ref().len() == after_ops(items, ops).len(),
    decreases ops.len(),
{
    if ops.len() > 0 {
        law_length_over_calls(items, ops.drop_last());
    }
}

} // verus!
