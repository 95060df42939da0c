//! The queue itself: an arena of nodes, linked by handles.

use crate::model::{after_pop, popped};
use vstd::prelude::*;

verus! {

/// One slot of the arena: an element, if the slot is in use, and the handle
/// of the slot that follows it in its chain.
struct Node<T> {
    elem: Option<T>,
    next: Option<usize>,
}

/// A first-in-first-out queue.
///
/// The nodes are slots of an arena and refer to one another by handle, the
/// slot's position. `head` is the handle of the oldest node and `tail` that
/// of the newest; `tail` only ever serves to attach a new node behind it.
/// Slots that a removal has emptied are chained from `free` and serve later
/// insertions, so the arena grows only when every slot is in use.
pub struct List<T> {
    /// The arena.
    nodes: Vec<Node<T>>,
    /// The oldest node, if the queue holds anything.
    head: Option<usize>,
    /// The newest node, if the queue holds anything.
    tail: Option<usize>,
    /// The first emptied slot, if there is one.
    free: Option<usize>,
    /// The handles of the nodes in use, oldest first.
    chain: Ghost<Seq<usize>>,
    /// The handles of the emptied slots, in the order of their links.
    spare: Ghost<Seq<usize>>,
}

/// `path` lists distinct slots of `nodes`; it starts at `first`, each slot's
/// link leads to the next one listed, and the last slot has no link.
spec fn linked<T>(nodes: Seq<Node<T>>, first: Option<usize>, path: Seq<usize>) -> bool {
    &&& forall|i: int| 0 <= i < path.len() ==> (#[trigger] path[i]) < nodes.len()
    &&& forall|i: int, j: int|
        0 <= i < j < path.len() ==> #[trigger] path[i] != #[trigger] path[j]
    &&& first == (if path.len() == 0 {
        None
    } else {
        Some(path[0])
    })
    &&& forall|i: int|
        0 <= i < path.len() ==> nodes[(#[trigger] path[i]) as int].next == (if i + 1 < path.len() {
            Some(path[i + 1])
        } else {
            None
        })
}

impl<T> List<T> {
    /// The queue's invariant: the nodes in use form one chain from `head`
    /// to `tail`, the emptied slots form another from `free`, and every slot
    /// of the arena is on exactly one of the two.
    pub closed spec fn wf(&self) -> bool {
        &&& linked(self.nodes@, self.head, self.chain@)
        &&& linked(self.nodes@, self.free, self.spare@)
        &&& self.tail == (if self.chain@.len() == 0 {
            None
        } else {
            Some(self.chain@.last())
        })
        &&& forall|i: int|
            0 <= i < self.chain@.len() ==> self.nodes@[(#[trigger] self.chain@[i]) as int].elem
                is Some
        &&& forall|i: int, j: int|
            0 <= i < self.chain@.len() && 0 <= j < self.spare@.len() ==> #[trigger] self.chain@[i]
                != #[trigger] self.spare@[j]
        &&& self.chain@.len() + self.spare@.len() == self.nodes@.len()
    }

    /// The elements of the queue, oldest first.
    pub closed spec fn view(&self) -> Seq<T> {
        Seq::new(self.chain@.len(), |i: int| self.nodes@[self.chain@[i] as int].elem.unwrap())
    }

    /// The number of slots in the arena, in use or emptied.
    pub closed spec fn slots(&self) -> nat {
        self.nodes@.len()
    }

    /// Whether the queue has a first node.
    pub closed spec fn has_head(&self) -> bool {
        self.head is Some
    }

    /// Whether the queue remembers a last node.
    pub closed spec fn has_tail(&self) -> bool {
        self.tail is Some
    }

    /// The two ends are set exactly when the queue holds something: a queue
    /// without elements has neither a first node nor a remembered last one.
    /// And every element has a slot of its own.
    pub proof fn lemma_ends_follow_contents(&self)
        requires
            self.wf(),
        ensures
            self.has_head() <==> self@.len() > 0,
            self.has_tail() <==> self@.len() > 0,
            self@.len() <= self.slots(),
    {
    }

    /// An empty queue, with an empty arena.
    pub fn new() -> (list: Self)
        ensures
            list.wf(),
            list@ == Seq::<T>::empty(),
            !list.has_head(),
            !list.has_tail(),
            list.slots() == 0,
    {
        let list = List {
            nodes: Vec::new(),
            head: None,
            tail: None,
            free: None,
            chain: Ghost(Seq::empty()),
            spare: Ghost(Seq::empty()),
        };
        assert(list@ =~= Seq::<T>::empty());
        list
    }

    /// Inserts `elem` behind the newest element.
    ///
    /// The new node takes an emptied slot where there is one; the arena
    /// grows, by one slot, only when all its slots are in use, and it does
    /// so before anything else in the queue changes.
    pub fn push(&mut self, elem: T)
        requires
            old(self).wf(),
        ensures
            final(self).wf(),
            final(self)@ == old(self)@.push(elem),
            final(self).has_head(),
            final(self).has_tail(),
            final(self).slots() == (if old(self)@.len() < old(self).slots() {
                old(self).slots()
            } else {
                old(self).slots() + 1
            }),
    {
        let node = Node { elem: Some(elem), next: None };
        let slot: usize = match self.free {
            Some(i) => {
                self.free = self.nodes[i].next;
                self.nodes[i] = node;
                proof {
                    self.spare@ = self.spare@.drop_first();
                }
                i
            },
            None => {
                self.nodes.push(node);
                self.nodes.len() - 1
            },
        };
        match self.tail {
            Some(t) => {
                self.nodes[t].next = Some(slot);
            },
            None => {
                self.head = Some(slot);
            },
        }
        self.tail = Some(slot);
        proof {
            self.chain@ = self.chain@.push(slot);
            assert(self@ =~= old(self)@.push(elem));
        }
    }

    /// Removes the oldest element and returns it, or returns `None` and
    /// leaves the queue as it is when it holds nothing.
    ///
    /// When the last element leaves, the queue forgets its last node along
    /// with its first. The slot of the removed node stays in the arena, for
    /// a later insertion.
    pub fn pop(&mut self) -> (elem: Option<T>)
        requires
            old(self).wf(),
        ensures
            final(self).wf(),
            elem == popped(old(self)@),
            final(self)@ == after_pop(old(self)@),
            final(self).has_head() <==> final(self)@.len() > 0,
            final(self).has_tail() <==> final(self)@.len() > 0,
            final(self).slots() == old(self).slots(),
    {
        match self.head {
            None => None,
            Some(h) => {
                let elem = self.nodes[h].elem.take();
                self.head = self.nodes[h].next;
                self.nodes[h].next = self.free;
                self.free = Some(h);
                if self.head.is_none() {
                    self.tail = None;
                }
                proof {
                    self.chain@ = self.chain@.drop_first();
                    self.spare@ = seq![h] + self.spare@;
                    assert(self@ =~= after_pop(old(self)@));
                }
                elem
            },
        }
    }
}

} // verus!
