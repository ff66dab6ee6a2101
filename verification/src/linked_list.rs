//! FIFO queue of task nodes.
//!
//! The kernel keeps its ready tasks in a queue with access to the head and
//! the tail. Nodes own their payload; the queue owns its nodes, so no node
//! can be aliased or outlive the list. The queue's abstract value is the
//! sequence of payloads from head to tail.

use vstd::prelude::*;

verus! {

/// A queue node owning one payload value.
pub struct ListItem<T> {
    pub value: T,
}

impl<T> ListItem<T> {
    pub fn new(value: T) -> (r: ListItem<T>)
        ensures
            r.value == value,
    {
        ListItem { value }
    }
}

/// A first-in-first-out queue of nodes, viewed as the sequence of payloads
/// from head (index 0) to tail.
pub struct LinkedList<T> {
    items: Vec<T>,
}

impl<T> View for LinkedList<T> {
    type V = Seq<T>;

    closed spec fn view(&self) -> Seq<T> {
        self.items@
    }
}

impl<T> LinkedList<T> {
    pub fn new() -> (r: LinkedList<T>)
        ensures
            r@ == Seq::<T>::empty(),
    {
        LinkedList { items: Vec::new() }
    }

    /// Appends a node at the tail.
    pub fn push_back(&mut self, item: ListItem<T>)
        ensures
            final(self)@ == old(self)@.push(item.value),
    {
        self.items.push(item.value);
    }

    pub fn is_empty(&self) -> (r: bool)
        ensures
            r == (self@.len() == 0),
    {
        self.items.len() == 0
    }

    /// A mutable view of the head payload, without removing it; `None` when
    /// the queue is empty.
    pub fn front_mut(&mut self) -> (r: Option<&mut T>)
        ensures
            old(self)@.len() == 0 ==> r is None && *final(self) == *old(self),
            old(self)@.len() > 0 ==> (r matches Some(p) && *p == old(self)@[0] && final(self)@
                == old(self)@.update(0, *final(p))),
    {
        if self.items.len() == 0 {
            None
        } else {
            Some(vstd::std_specs::vec::vec_index_mut(&mut self.items, 0))
        }
    }

    /// Removes and returns the head node; `None` when the queue is empty.
    pub fn pop_front(&mut self) -> (r: Option<ListItem<T>>)
        ensures
            old(self)@.len() == 0 ==> r is None && *final(self) == *old(self),
            old(self)@.len() > 0 ==> (r matches Some(it) && it.value == old(self)@[0])
                && final(self)@ == old(self)@.drop_first(),
    {
        if self.items.len() == 0 {
            None
        } else {
            let v = self.items.remove(0);
            proof {
                assert(self@ =~= old(self)@.drop_first());
            }
            Some(ListItem { value: v })
        }
    }

    /// Moves the head node to the tail, keeping every other node's relative
    /// order: one step of round-robin rotation.
    pub fn rotate(&mut self)
        requires
            old(self)@.len() > 0,
        ensures
            final(self)@ == old(self)@.drop_first().push(old(self)@[0]),
    {
        let v = self.items.remove(0);
        self.items.push(v);
        proof {
            assert(self@ =~= old(self)@.drop_first().push(old(self)@[0]));
        }
    }
}

/// One queue operation, for stating what any sequence of them leaves
/// behind.
pub enum ListOp<T> {
    PushBack(T),
    PopFront,
}

/// The effect of one operation on the queue's abstract value, as the
/// contracts of `push_back` and `pop_front` state it.
pub open spec fn apply_op<T>(s: Seq<T>, op: ListOp<T>) -> Seq<T> {
    match op {
        ListOp::PushBack(v) => s.push(v),
        ListOp::PopFront => if s.len() == 0 {
            s
        } else {
            s.drop_first()
        },
    }
}

/// The queue left behind by a sequence of operations.
pub open spec fn apply_ops<T>(s: Seq<T>, ops: Seq<ListOp<T>>) -> Seq<T>
    decreases ops.len(),
{
    if ops.len() == 0 {
        s
    } else {
        apply_ops(apply_op(s, ops[0]), ops.drop_first())
    }
}

/// The values pushed by a sequence of operations, oldest first.
pub open spec fn pushed_values<T>(ops: Seq<ListOp<T>>) -> Seq<T>
    decreases ops.len(),
{
    if ops.len() == 0 {
        Seq::<T>::empty()
    } else {
        match ops[0] {
            ListOp::PushBack(v) => seq![v] + pushed_values(ops.drop_first()),
            ListOp::PopFront => pushed_values(ops.drop_first()),
        }
    }
}

/// How many elements remain after the operations, starting from `n`: each
/// push adds one, each pop removes one unless the queue was already empty.
pub open spec fn len_after<T>(n: int, ops: Seq<ListOp<T>>) -> int
    decreases ops.len(),
{
    if ops.len() == 0 {
        n
    } else {
        match ops[0] {
            ListOp::PushBack(_) => len_after(n + 1, ops.drop_first()),
            ListOp::PopFront => len_after(if n == 0 { 0 } else { n - 1 }, ops.drop_first()),
        }
    }
}

/// List invariants under arbitrary use: after any sequence of push and pop
/// operations the queue is exactly a suffix of "initial contents, then the
/// pushed values in push order" — the pops have consumed the oldest
/// elements, nothing else. In particular the queue is empty exactly when no
/// net element remains (`len_after` is zero), and the front is always the
/// earliest-enqueued element still present. A rotation is a pop followed by
/// a push of the same node, so sequences with rotations are covered too.
pub proof fn lemma_fifo_ops<T>(s: Seq<T>, ops: Seq<ListOp<T>>)
    ensures
        ({
            let all = s + pushed_values(ops);
            let rem = len_after(s.len() as int, ops);
            &&& 0 <= rem <= all.len()
            &&& apply_ops(s, ops) == all.skip(all.len() - rem)
            &&& apply_ops(s, ops).len() == rem
        }),
    decreases ops.len(),
{
    let all = s + pushed_values(ops);
    let rem = len_after(s.len() as int, ops);
    if ops.len() == 0 {
        assert(apply_ops(s, ops) =~= all.skip(all.len() - rem));
    } else {
        let rest = ops.drop_first();
        match ops[0] {
            ListOp::PushBack(v) => {
                let s1 = s.push(v);
                lemma_fifo_ops(s1, rest);
                assert(s1 + pushed_values(rest) =~= all);
            },
            ListOp::PopFront => {
                if s.len() == 0 {
                    lemma_fifo_ops(s, rest);
                    assert(s + pushed_values(rest) =~= all);
                } else {
                    let s1 = s.drop_first();
                    lemma_fifo_ops(s1, rest);
                    let all1 = s1 + pushed_values(rest);
                    assert(all1 =~= all.drop_first());
                    assert(all1.skip(all1.len() - rem) =~= all.skip(all.len() - rem));
                }
            },
        }
    }
}

impl<T> Default for LinkedList<T> {
    fn default() -> (r: Self)
        ensures
            r@ == Seq::<T>::empty(),
    {
        Self::new()
    }
}

} // verus!
