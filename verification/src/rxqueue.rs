//! The queue of operations owed to the guest: first in, first out, and no
//! operation queued twice.

use vstd::prelude::*;
use crate::rxops::RxOps;

verus! {

/// The queue contents after `op` was offered to a queue holding `q`.
pub open spec fn enqueued(q: Seq<RxOps>, op: RxOps) -> Seq<RxOps> {
    if q.contains(op) {
        q
    } else {
        q.push(op)
    }
}

/// Pending operations in the order in which they were first enqueued.
#[derive(Debug, PartialEq, Eq)]
pub struct RxQueue {
    queue: Vec<RxOps>,
}

impl View for RxQueue {
    type V = Seq<RxOps>;

    closed spec fn view(&self) -> Seq<RxOps> {
        self.queue@
    }
}

impl RxQueue {
    /// No operation is pending twice.
    #[verifier::type_invariant]
    pub open spec fn inv(&self) -> bool {
        self@.no_duplicates()
    }

    /// An empty queue.
    pub fn new() -> (q: Self)
        ensures
            q@ == Seq::<RxOps>::empty(),
            q@.no_duplicates(),
    {
        RxQueue { queue: Vec::new() }
    }

    /// Whether `op` is pending.
    pub fn contains(&self, op: RxOps) -> (found: bool)
        ensures
            found == self@.contains(op),
    {
        let mut i: usize = 0;
        while i < self.queue.len()
            invariant
                i <= self.queue.len(),
                forall|j: int| 0 <= j < i ==> self.queue@[j] != op,
            decreases self.queue.len() - i,
        {
            if self.queue[i] == op {
                return true;
            }
            i += 1;
        }
        false
    }

    /// Appends `op` unless it is pending already.
    pub fn enqueue(&mut self, op: RxOps)
        ensures
            final(self)@ == enqueued(old(self)@, op),
            final(self)@.no_duplicates(),
    {
        proof {
            use_type_invariant(&*self);
        }
        if !self.contains(op) {
            let mut queue: Vec<RxOps> = Vec::new();
            core::mem::swap(&mut self.queue, &mut queue);
            queue.push(op);
            self.queue = queue;
        }
    }

    /// The operation that was enqueued first, left in place.
    pub fn peek(&self) -> (head: Option<RxOps>)
        ensures
            head == (if self@.len() == 0 { None } else { Some(self@[0]) }),
    {
        if self.queue.len() == 0 {
            None
        } else {
            Some(self.queue[0])
        }
    }

    /// Removes and returns the operation that was enqueued first.
    pub fn dequeue(&mut self) -> (head: Option<RxOps>)
        ensures
            head == (if old(self)@.len() == 0 { None } else { Some(old(self)@[0]) }),
            final(self)@ == (if old(self)@.len() == 0 { old(self)@ } else { old(self)@.skip(1) }),
            final(self)@.no_duplicates(),
    {
        proof {
            use_type_invariant(&*self);
        }
        if self.queue.len() == 0 {
            None
        } else {
            let mut queue: Vec<RxOps> = Vec::new();
            core::mem::swap(&mut self.queue, &mut queue);
            let head = queue.remove(0);
            self.queue = queue;
            Some(head)
        }
    }

    /// Whether any operation is pending.
    pub fn pending_rx(&self) -> (pending: bool)
        ensures
            pending == (self@.len() > 0),
    {
        self.queue.len() > 0
    }
}

} // verus!
