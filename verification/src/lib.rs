//! Deterministic cooperative task executor for discrete-event simulation.
//!
//! A single-threaded scheduler drives asynchronous tasks against a virtual
//! clock, across logical nodes that can be paused, resumed, killed and
//! restarted to model faults.  Every scheduling decision is a pure function
//! of the executor state and of the pseudo-random draws handed to it, so a
//! whole run is reproducible from its seed.
//!
//! The scheduler itself polls no future: the surrounding runtime performs the
//! polls and the timer waits, and calls back into the verified state machine
//! for every decision (which ready entry runs next, what a kill or a pause
//! does to the registry, when a run is a deadlock or over its time limit).

use vstd::prelude::*;

pub mod decimal;
pub mod entropy;
pub mod executor;
pub mod join;
pub mod laws;
pub mod node;
pub mod queue;

verus! {

/// A unique identifier for a node.
///
/// Zero is reserved for the implicit "main" node that hosts the root
/// computation; further nodes receive monotonically increasing identifiers
/// starting at 1.
#[derive(Debug, PartialEq, Eq, Structural, PartialOrd, Ord, Hash, Clone, Copy)]
pub struct NodeId(pub u64);

impl NodeId {
    /// The identifier of the main node.
    pub fn zero() -> (r: NodeId)
        ensures
            r == (NodeId(0)),
    {
        NodeId(0)
    }
}

/// An opaque identifier that is unique among all tasks of a run.
///
/// Identifiers are drawn from a monotonic counter owned by the task handle,
/// starting at 0, and are never reused within a run.
#[derive(Debug, PartialEq, Eq, Structural, Hash, Clone, Copy)]
pub struct Id(pub u64);

impl Id {
    /// Draws the next identifier from the counter.
    pub fn new(next: &mut u64) -> (r: Id)
        requires
            *old(next) < u64::MAX,
        ensures
            r == (Id(*old(next))),
            *final(next) == *old(next) + 1,
    {
        let r = Id(*next);
        *next = *next + 1;
        r
    }
}

} // verus!
