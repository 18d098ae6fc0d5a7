//! The ready queue.
//!
//! A buffer of `TaskInfo` entries with a randomized dequeue: `send` appends,
//! and `try_recv_random` removes the entry at an index chosen by a random
//! draw, leaving every other entry in place and in order.  The draw itself
//! is a parameter, so the dequeue is a pure function of the buffer and the
//! draw, which is what makes a whole run reproducible from its seed.

use vstd::prelude::*;

use crate::node::TaskInfo;

verus! {

/// The index a draw selects among `len` buffered entries.
pub open spec fn pick_index(sel: u64, len: int) -> int {
    sel as int % len
}

/// A queue of ready tasks with a draw-directed dequeue.
pub struct ReadyQueue {
    entries: Vec<TaskInfo>,
}

impl View for ReadyQueue {
    type V = Seq<TaskInfo>;

    closed spec fn view(&self) -> Seq<TaskInfo> {
        self.entries@
    }
}

impl ReadyQueue {
    /// An empty queue.
    pub fn new() -> (r: ReadyQueue)
        ensures
            r@ == Seq::<TaskInfo>::empty(),
    {
        ReadyQueue { entries: Vec::new() }
    }

    /// The number of buffered entries.
    pub fn len(&self) -> (n: usize)
        ensures
            n == self@.len(),
    {
        self.entries.len()
    }

    /// Appends an entry.  Entries already buffered keep their positions.
    pub fn send(&mut self, t: TaskInfo)
        ensures
            final(self)@ == old(self)@.push(t),
    {
        self.entries.push(t);
    }

    /// If the buffer is non-empty, removes and returns the entry at the
    /// index the draw `sel` selects; the remaining entries keep their
    /// relative order.  Returns `None` on an empty buffer.
    pub fn try_recv_random(&mut self, sel: u64) -> (r: Option<TaskInfo>)
        ensures
            old(self)@.len() == 0 ==> r is None && final(self)@ == old(self)@,
            old(self)@.len() > 0 ==> r == Some(old(self)@[pick_index(sel, old(self)@.len() as int)]),
            old(self)@.len() > 0 ==> final(self)@ == old(self)@.remove(
                pick_index(sel, old(self)@.len() as int),
            ),
    {
        let len = self.entries.len();
        if len == 0 {
            None
        } else {
            let i = (sel % (len as u64)) as usize;
            assert(i < len);
            Some(self.entries.remove(i))
        }
    }
}

} // verus!
