//! A doubly linked list with shared, cloneable handles.
//!
//! The chain of nodes lives in a growable arena: every node sits in a slot of
//! a vector, and the `next`/`prev` links are plain slot indices. Ownership
//! therefore flows in one direction only (the arena owns every node), so no
//! reference cycle can keep a detached node alive, and a popped slot is
//! recycled through a free list.
//!
//! [`ListState`] is the sequential core: all functional contracts, stated over
//! a `Seq` view of the values from front to back, live here. A
//! [`DoublyLinkedList`] is a cheaply cloneable handle that shares one
//! [`ListState`] under a verified reader-writer lock; every mutating or
//! length-observing operation acquires that lock for its whole duration, so
//! concurrent operations from different threads are strictly serialized, and
//! the lock's invariant guarantees the structural well-formedness of the
//! chain whenever no operation holds the lock.

use std::sync::Arc;
use vstd::prelude::*;
use vstd::rwlock::{RwLock, RwLockPredicate};

verus! {

/// One link cell: a value and the slot indices of its two neighbours.
pub struct Node<T> {
    pub value: T,
    pub next: Option<usize>,
    pub prev: Option<usize>,
}

impl<T> Node<T> {
    /// A fresh, unlinked node.
    pub fn new(value: T) -> (n: Node<T>)
        ensures
            n.value == value,
            n.next is None,
            n.prev is None,
    {
        Node { value, next: None, prev: None }
    }
}

/// The node chain itself: head, tail and length over an arena of slots.
///
/// The ghost `order` sequence lists the occupied slot indices from front to
/// back; `wf` ties it to the `next`/`prev` links, so that following `next`
/// from the head for `length` steps visits exactly the chain and ends at the
/// tail.
pub struct ListState<T> {
    nodes: Vec<Option<Node<T>>>,
    free: Vec<usize>,
    head: Option<usize>,
    tail: Option<usize>,
    length: usize,
    order: Ghost<Seq<usize>>,
}

impl<T> ListState<T> {
    /// The values in the list, front to back.
    pub closed spec fn view(&self) -> Seq<T> {
        Seq::new(self.length as nat, |i: int| self.nodes@[self.order@[i] as int]->0.value)
    }

    /// The slot index of the front node, when one exists.
    pub closed spec fn spec_head(&self) -> Option<usize> {
        self.head
    }

    /// The slot index of the back node, when one exists.
    pub closed spec fn spec_tail(&self) -> Option<usize> {
        self.tail
    }

    /// Whether a front node exists.
    pub open spec fn has_head(&self) -> bool {
        self.spec_head() is Some
    }

    /// Whether a back node exists.
    pub open spec fn has_tail(&self) -> bool {
        self.spec_tail() is Some
    }

    /// Structural well-formedness of the chain.
    ///
    /// - the length counter equals the number of chained slots;
    /// - the list is empty exactly when both ends are absent;
    /// - the head has no predecessor and the tail no successor;
    /// - following `next` from the head walks the chain in order, and `prev`
    ///   walks it backwards, each slot occupied and distinct;
    /// - every slot is either chained or on the free list, so a pop leaks
    ///   nothing.
    pub closed spec fn wf(&self) -> bool {
        let ord = self.order@;
        let nodes = self.nodes@;
        let free = self.free@;
        &&& ord.len() == self.length
        &&& ord.len() + free.len() == nodes.len()
        &&& self.head == (if self.length == 0 {
            None::<usize>
        } else {
            Some(ord[0])
        })
        &&& self.tail == (if self.length == 0 {
            None::<usize>
        } else {
            Some(ord[self.length - 1])
        })
        &&& forall|i: int| 0 <= i < ord.len() ==> (#[trigger] ord[i]) < nodes.len()
        &&& forall|i: int| 0 <= i < ord.len() ==> (#[trigger] nodes[ord[i] as int]) is Some
        &&& forall|i: int, j: int| 0 <= i < j < ord.len() ==> ord[i] != ord[j]
        &&& forall|i: int|
            0 <= i < ord.len() ==> (#[trigger] nodes[ord[i] as int])->0.prev == (if i == 0 {
                None::<usize>
            } else {
                Some(ord[i - 1])
            })
        &&& forall|i: int|
            0 <= i < ord.len() ==> (#[trigger] nodes[ord[i] as int])->0.next == (if i == ord.len()
                - 1 {
                None::<usize>
            } else {
                Some(ord[i + 1])
            })
        &&& forall|k: int| 0 <= k < free.len() ==> (#[trigger] free[k]) < nodes.len()
        &&& forall|k: int| 0 <= k < free.len() ==> (#[trigger] nodes[free[k] as int]) is None
        &&& forall|k: int, l: int| 0 <= k < l < free.len() ==> free[k] != free[l]
    }

    /// An empty chain.
    pub fn new() -> (s: Self)
        ensures
            s.wf(),
            s@ == Seq::<T>::empty(),
    {
        let s = ListState {
            nodes: Vec::new(),
            free: Vec::new(),
            head: None,
            tail: None,
            length: 0,
            order: Ghost(Seq::empty()),
        };
        proof {
            assert(s@ =~= Seq::<T>::empty());
        }
        s
    }

    /// The number of nodes in the chain.
    pub fn len(&self) -> (n: usize)
        ensures
            n == self@.len(),
    {
        self.length
    }

    /// Whether the chain holds no nodes.
    pub fn is_empty(&self) -> (r: bool)
        ensures
            r == (self@.len() == 0),
    {
        self.length == 0
    }

    /// Stores a fresh node, reusing a free slot when one exists, and returns
    /// its index. Links, ends and length are untouched.
    fn store_node(&mut self, node: Node<T>) -> (idx: usize)
        requires
            old(self).wf(),
        ensures
            idx < final(self).nodes@.len(),
            final(self).nodes@[idx as int] == Some(node),
            final(self).nodes@.len() >= old(self).nodes@.len(),
            // every other slot is unchanged, and a grown arena adds only the new slot
            forall|j: int| 0 <= j < old(self).nodes@.len() && j != idx
                ==> final(self).nodes@[j] == old(self).nodes@[j],
            final(self).nodes@.len() == old(self).nodes@.len() || (final(self).nodes@.len()
                == old(self).nodes@.len() + 1 && idx == old(self).nodes@.len()),
            // the new slot was not occupied before
            idx < old(self).nodes@.len() ==> old(self).nodes@[idx as int] is None,
            // free list bookkeeping
            final(self).nodes@.len() == final(self).order@.len() + final(self).free@.len() + 1,
            forall|k: int| 0 <= k < final(self).free@.len()
                ==> (#[trigger] final(self).free@[k]) < final(self).nodes@.len(),
            forall|k: int| 0 <= k < final(self).free@.len() ==> final(self).free@[k] != idx,
            forall|k: int| 0 <= k < final(self).free@.len()
                ==> final(self).nodes@[#[trigger] final(self).free@[k] as int] is None,
            forall|k: int, l: int| 0 <= k < l < final(self).free@.len()
                ==> final(self).free@[k] != final(self).free@[l],
            // the rest of the state is untouched
            final(self).head == old(self).head,
            final(self).tail == old(self).tail,
            final(self).length == old(self).length,
            final(self).order == old(self).order,
    {
        match self.free.pop() {
            Some(idx) => {
                self.nodes.set(idx, Some(node));
                idx
            },
            None => {
                let idx = self.nodes.len();
                self.nodes.push(Some(node));
                idx
            },
        }
    }

    /// Inserts `value` at the front of the chain.
    pub fn push_front(&mut self, value: T)
        requires
            old(self).wf(),
        ensures
            final(self).wf(),
            final(self)@ == seq![value] + old(self)@,
    {
        let ghost old_ord = self.order@;
        let node = Node { value, next: self.head, prev: None };
        let old_head = self.head;
        let idx = self.store_node(node);
        match old_head {
            Some(h) => {
                let taken = self.nodes[h].take();
                match taken {
                    Some(mut hn) => {
                        hn.prev = Some(idx);
                        self.nodes.set(h, Some(hn));
                    },
                    None => unreached(),
                }
            },
            None => {
                self.tail = Some(idx);
            },
        }
        self.head = Some(idx);
        proof {
            vstd::std_specs::vec::axiom_spec_len(&self.nodes);
        }
        self.length = self.length + 1;
        proof {
            self.order@ = seq![idx] + old_ord;
        }
        proof {
            assert(self@ =~= seq![value] + old(self)@);
        }
    }

    /// Inserts `value` at the back of the chain.
    pub fn push_back(&mut self, value: T)
        requires
            old(self).wf(),
        ensures
            final(self).wf(),
            final(self)@ == old(self)@ + seq![value],
    {
        let ghost old_ord = self.order@;
        let node = Node { value, next: None, prev: self.tail };
        let old_tail = self.tail;
        let idx = self.store_node(node);
        match old_tail {
            Some(t) => {
                let taken = self.nodes[t].take();
                match taken {
                    Some(mut tn) => {
                        tn.next = Some(idx);
                        self.nodes.set(t, Some(tn));
                    },
                    None => unreached(),
                }
            },
            None => {
                self.head = Some(idx);
            },
        }
        self.tail = Some(idx);
        proof {
            vstd::std_specs::vec::axiom_spec_len(&self.nodes);
        }
        self.length = self.length + 1;
        proof {
            self.order@ = old_ord + seq![idx];
        }
        proof {
            assert(self@ =~= old(self)@ + seq![value]);
        }
    }

    /// Removes and returns the front value; an empty chain stays untouched
    /// and signals `None`.
    pub fn pop_front(&mut self) -> (r: Option<T>)
        requires
            old(self).wf(),
        ensures
            final(self).wf(),
            old(self)@.len() == 0 ==> r is None && *final(self) == *old(self),
            old(self)@.len() > 0 ==> (r matches Some(v) && v == old(self)@[0]) && final(self)@
                == old(self)@.drop_first(),
    {
        match self.head {
            None => None,
            Some(h) => {
                let taken = self.nodes[h].take();
                let node = match taken {
                    Some(n) => n,
                    None => unreached(),
                };
                match node.next {
                    Some(nx) => {
                        let neighbour = self.nodes[nx].take();
                        match neighbour {
                            Some(mut m) => {
                                m.prev = None;
                                self.nodes.set(nx, Some(m));
                            },
                            None => unreached(),
                        }
                        self.head = Some(nx);
                    },
                    None => {
                        self.head = None;
                        self.tail = None;
                    },
                }
                self.free.push(h);
                self.length = self.length - 1;
                proof {
                    self.order@ = self.order@.drop_first();
                }
                proof {
                    assert(self@ =~= old(self)@.drop_first());
                }
                Some(node.value)
            },
        }
    }

    /// Removes and returns the back value; an empty chain stays untouched
    /// and signals `None`.
    pub fn pop_back(&mut self) -> (r: Option<T>)
        requires
            old(self).wf(),
        ensures
            final(self).wf(),
            old(self)@.len() == 0 ==> r is None && *final(self) == *old(self),
            old(self)@.len() > 0 ==> (r matches Some(v) && v == old(self)@.last()) && final(self)@
                == old(self)@.drop_last(),
    {
        match self.tail {
            None => None,
            Some(t) => {
                let taken = self.nodes[t].take();
                let node = match taken {
                    Some(n) => n,
                    None => unreached(),
                };
                match node.prev {
                    Some(pv) => {
                        let neighbour = self.nodes[pv].take();
                        match neighbour {
                            Some(mut m) => {
                                m.next = None;
                                self.nodes.set(pv, Some(m));
                            },
                            None => unreached(),
                        }
                        self.tail = Some(pv);
                    },
                    None => {
                        self.head = None;
                        self.tail = None;
                    },
                }
                self.free.push(t);
                self.length = self.length - 1;
                proof {
                    self.order@ = self.order@.drop_last();
                }
                proof {
                    assert(self@ =~= old(self)@.drop_last());
                }
                Some(node.value)
            },
        }
    }

    /// Clones the values front to back by walking `next` from the head.
    pub fn snapshot(&self) -> (r: Vec<T>) where T: Clone
        requires
            self.wf(),
        ensures
            r@.len() == self@.len(),
            forall|i: int| 0 <= i < r@.len() ==> cloned(self@[i], #[trigger] r@[i]),
    {
        let mut out: Vec<T> = Vec::new();
        let mut cur: Option<usize> = self.head;
        loop
            invariant
                self.wf(),
                out@.len() <= self@.len(),
                cur == (if out@.len() == self@.len() {
                    None::<usize>
                } else {
                    Some(self.order@[out@.len() as int])
                }),
                forall|i: int| 0 <= i < out@.len() ==> cloned(self@[i], #[trigger] out@[i]),
            ensures
                out@.len() == self@.len(),
                forall|i: int| 0 <= i < out@.len() ==> cloned(self@[i], #[trigger] out@[i]),
            decreases self@.len() - out@.len(),
        {
            match cur {
                None => {
                    break ;
                },
                Some(c) => {
                    match &self.nodes[c] {
                        Some(n) => {
                            out.push(n.value.clone());
                            cur = n.next;
                        },
                        None => {
                            return unreached();
                        },
                    }
                },
            }
        }
        out
    }

    /// The list is empty exactly when the head link is absent, exactly when
    /// the tail link is absent.
    pub proof fn lemma_empty_iff_ends_absent(&self)
        requires
            self.wf(),
        ensures
            self@.len() == 0 <==> !self.has_head(),
            self@.len() == 0 <==> !self.has_tail(),
    {
    }

    /// A one-element list has head and tail on the same node.
    pub proof fn lemma_single_node_shares_ends(&self)
        requires
            self.wf(),
            self@.len() == 1,
        ensures
            self.has_head(),
            self.has_tail(),
            self.spec_head() == self.spec_tail(),
    {
    }
}

/// The lock invariant of a shared list: the chain inside the lock is always
/// structurally well-formed when no operation holds the lock.
pub struct ListInv;

impl<T> RwLockPredicate<ListState<T>> for ListInv {
    open spec fn inv(self, s: ListState<T>) -> bool {
        s.wf()
    }
}

/// A cheaply cloneable handle to one shared list.
///
/// Every handle clone refers to the same storage: a [`ListState`] guarded by
/// a verified reader-writer lock. Each mutating or length-observing operation
/// acquires the lock for its whole duration, so operations from different
/// threads are strictly serialized, and each one meets the sequential
/// contract of the corresponding [`ListState`] method against the state it
/// observed while holding the lock. The lock's predicate is [`ListInv`]:
/// the structural invariants hold whenever no operation holds the lock.
pub struct DoublyLinkedList<T> {
    shared: Arc<RwLock<ListState<T>, ListInv>>,
}

impl<T> DoublyLinkedList<T> {
    /// True when both handles share the same underlying storage, so that an
    /// update through one is observed through the other.
    pub closed spec fn shares_storage_with(&self, other: &DoublyLinkedList<T>) -> bool {
        self.shared == other.shared
    }

    /// What the handle's lock allows as a resting state.
    pub closed spec fn lock_allows(&self, state: ListState<T>) -> bool {
        self.shared.inv(state)
    }

    /// Law: the lock of every shared list allows exactly the well-formed
    /// chains. Whenever no operation holds the lock, the structural
    /// invariants hold of the state inside, after any sequence of
    /// operations through any of the handles.
    pub proof fn lemma_at_rest_invariants_hold(&self, state: ListState<T>)
        ensures
            self.lock_allows(state) <==> state.wf(),
    {
    }

    /// A new, empty shared list.
    pub fn new() -> Self {
        let state = ListState::new();
        DoublyLinkedList { shared: Arc::new(RwLock::new(state, Ghost(ListInv))) }
    }

    /// Appends `value` at the front, serialized by the shared lock.
    pub fn push_front(&self, value: T) {
        let (mut state, handle) = self.shared.acquire_write();
        state.push_front(value);
        handle.release_write(state);
    }

    /// Appends `value` at the back, serialized by the shared lock.
    pub fn push_back(&self, value: T) {
        let (mut state, handle) = self.shared.acquire_write();
        state.push_back(value);
        handle.release_write(state);
    }

    /// Removes the front value, or signals `None` on an empty list, leaving
    /// it untouched.
    pub fn pop_front(&self) -> Option<T> {
        let (mut state, handle) = self.shared.acquire_write();
        let r = state.pop_front();
        handle.release_write(state);
        r
    }

    /// Removes the back value, or signals `None` on an empty list, leaving
    /// it untouched.
    pub fn pop_back(&self) -> Option<T> {
        let (mut state, handle) = self.shared.acquire_write();
        let r = state.pop_back();
        handle.release_write(state);
        r
    }

    /// The number of values in the list at the moment the lock was held.
    pub fn len(&self) -> usize {
        let read = self.shared.acquire_read();
        let n = read.borrow().len();
        read.release_read();
        n
    }

    /// Whether the list was empty at the moment the lock was held.
    pub fn is_empty(&self) -> bool {
        let read = self.shared.acquire_read();
        let r = read.borrow().is_empty();
        read.release_read();
        r
    }

    /// A copy of the contents, front to back. The walk holds the read lock
    /// for its whole duration, so it sees the list of one moment; writers
    /// wait meanwhile. Meant for display and inspection.
    pub fn snapshot(&self) -> Vec<T> where T: Clone {
        let read = self.shared.acquire_read();
        let r = read.borrow().snapshot();
        read.release_read();
        r
    }
}

impl<T> Clone for DoublyLinkedList<T> {
    /// A clone shares the storage of the original: pushes through one handle
    /// are visible through the other, and dropping either leaves the list
    /// intact for the survivor.
    fn clone(&self) -> (r: Self)
        ensures
            r.shares_storage_with(self),
    {
        DoublyLinkedList { shared: self.shared.clone() }
    }
}

/// Ghost description of one push at either end, for stating laws over whole
/// sequences of operations.
pub enum PushOp<T> {
    Front(T),
    Back(T),
}

/// The effect of one push on the list view, exactly as the `ensures` of
/// [`ListState::push_front`] and [`ListState::push_back`] state it.
pub open spec fn apply_push<T>(s: Seq<T>, op: PushOp<T>) -> Seq<T> {
    match op {
        PushOp::Front(v) => seq![v] + s,
        PushOp::Back(v) => s + seq![v],
    }
}

/// The effect of a whole sequence of pushes, applied front to back.
pub open spec fn apply_pushes<T>(s: Seq<T>, ops: Seq<PushOp<T>>) -> Seq<T>
    decreases ops.len(),
{
    if ops.len() == 0 {
        s
    } else {
        apply_pushes(apply_push(s, ops[0]), ops.drop_first())
    }
}

/// The view left behind by `n` front pops, exactly as the `ensures` of
/// [`ListState::pop_front`] states one: an empty list is left untouched.
pub open spec fn pop_front_n<T>(s: Seq<T>, n: nat) -> Seq<T>
    decreases n,
{
    if n == 0 {
        s
    } else if s.len() == 0 {
        s
    } else {
        pop_front_n(s.drop_first(), (n - 1) as nat)
    }
}

/// Law: any sequence of pushes, at either end in any order, grows the length
/// by exactly the number of pushes.
pub proof fn lemma_pushes_add_length<T>(s: Seq<T>, ops: Seq<PushOp<T>>)
    ensures
        apply_pushes(s, ops).len() == s.len() + ops.len(),
    decreases ops.len(),
{
    if ops.len() > 0 {
        lemma_pushes_add_length(apply_push(s, ops[0]), ops.drop_first());
    }
}

/// Law: a front push followed by a front pop returns the pushed value and
/// restores the previous list.
pub proof fn lemma_push_front_pop_front<T>(s: Seq<T>, v: T)
    ensures
        apply_push(s, PushOp::Front(v))[0] == v,
        apply_push(s, PushOp::Front(v)).drop_first() == s,
{
    assert(apply_push(s, PushOp::Front(v)).drop_first() =~= s);
}

/// Law: a back push followed by a back pop returns the pushed value and
/// restores the previous list.
pub proof fn lemma_push_back_pop_back<T>(s: Seq<T>, v: T)
    ensures
        apply_push(s, PushOp::Back(v)).last() == v,
        apply_push(s, PushOp::Back(v)).drop_last() == s,
{
    assert(apply_push(s, PushOp::Back(v)).drop_last() =~= s);
}

/// Law: popping as many times as the list is long drains it completely, and
/// any further pop leaves it empty and untouched.
pub proof fn lemma_pop_all<T>(s: Seq<T>, n: nat)
    ensures
        n >= s.len() ==> pop_front_n(s, n) == Seq::<T>::empty(),
    decreases n,
{
    if n > 0 && s.len() > 0 {
        lemma_pop_all(s.drop_first(), (n - 1) as nat);
    }
    if n >= s.len() && (n == 0 || s.len() == 0) {
        assert(pop_front_n(s, n) =~= Seq::<T>::empty());
    }
}


} // verus!
