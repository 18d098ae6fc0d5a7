//! Node and task records.
//!
//! A `NodeInfo` is one installment of a node's identity and flags.  Killing a
//! node installs a fresh `NodeInfo` for the same `NodeId`; tasks spawned
//! earlier keep a reference to the old installment, observe its `killed`
//! flag, and are discarded on their next dequeue.  References to a
//! `NodeInfo` are represented as indices into the executor's arena of every
//! installment ever created, which renders shared-pointer identity as plain
//! values the verifier can reason about.

use vstd::prelude::*;

use crate::decimal::dec_str;
use crate::{Id, NodeId};

verus! {

/// One installment of a node's identity and scheduling flags.
pub struct NodeInfo {
    /// The node this installment belongs to.
    pub id: NodeId,
    /// The node's name (diagnostics only).
    pub name: String,
    /// The simulated CPU core count reported to tasks of this node.
    pub cores: u64,
    /// While set, dequeued tasks of this installment are parked on the
    /// node's waiting list instead of running.
    pub paused: bool,
    /// Once set, never cleared: dequeued tasks of this installment are
    /// discarded without running.
    pub killed: bool,
}

/// The ghost image of a [`NodeInfo`].
#[verifier::ext_equal]
pub ghost struct AbsInfo {
    pub id: NodeId,
    pub name: Seq<char>,
    pub cores: u64,
    pub paused: bool,
    pub killed: bool,
}

impl View for NodeInfo {
    type V = AbsInfo;

    open spec fn view(&self) -> AbsInfo {
        AbsInfo {
            id: self.id,
            name: self.name@,
            cores: self.cores,
            paused: self.paused,
            killed: self.killed,
        }
    }
}

/// The per-task record: the task's identifier and the `NodeInfo`
/// installment it was pinned to at spawn time.  The installment reference
/// (`node`) is an index into the executor's info arena and never changes
/// over the task's lifetime.
#[derive(Debug, PartialEq, Eq, Structural, Clone, Copy)]
pub struct TaskInfo {
    pub id: Id,
    pub node: usize,
}

impl NodeInfo {
    /// Creates the record of a fresh task pinned to the installment at
    /// index `node_ref`, drawing its identifier from `next_task`.
    pub fn new_task(node_ref: usize, next_task: &mut u64) -> (r: TaskInfo)
        requires
            *old(next_task) < u64::MAX,
        ensures
            r == (TaskInfo { id: Id(*old(next_task)), node: node_ref }),
            *final(next_task) == *old(next_task) + 1,
    {
        TaskInfo { id: Id::new(next_task), node: node_ref }
    }
}

/// The default name of the node with this id: `"node-"` followed by the
/// decimal id.
pub open spec fn default_name_of(id: u64) -> Seq<char> {
    "node-"@ + dec_str(id as int)
}

/// A registry entry: the node's current installment, its waiting list of
/// parked tasks, and whether the node was created with an init program.
pub struct Node {
    /// Index of the node's current `NodeInfo` installment.
    pub info: usize,
    /// Tasks dequeued while the node was paused, in dequeue order.
    pub waiting: Vec<TaskInfo>,
    /// Whether an init program was stored at creation; only such nodes can
    /// be meaningfully restarted.
    pub has_init: bool,
}

/// The ghost image of a [`Node`].
#[verifier::ext_equal]
pub ghost struct AbsNode {
    pub info: int,
    pub waiting: Seq<TaskInfo>,
    pub has_init: bool,
}

impl View for Node {
    type V = AbsNode;

    open spec fn view(&self) -> AbsNode {
        AbsNode { info: self.info as int, waiting: self.waiting@, has_init: self.has_init }
    }
}

} // verus!
