//! The executor state machine.
//!
//! `TaskHandle` owns the node registry, the arena of `NodeInfo`
//! installments, the ready queue and the task-id counter; `Executor` adds
//! the virtual clock, the optional time limit and the currently polled
//! task.  Every operation's postcondition equates the new state with a
//! spec-level transition function of the old state and the operation's
//! arguments, so a whole run is a pure function of the root program and of
//! the pseudo-random draws: this is the determinism the simulation rests
//! on.
//!
//! Polling a future is the one thing the machine cannot do itself.  The
//! surrounding runtime repeatedly asks [`Executor::run_next`] which ready
//! entry to handle, performs the single poll when told to, and reports back
//! through [`Executor::finish_poll`]; node lifecycle calls and spawns
//! arrive between polls.

use vstd::prelude::*;

use crate::node::{AbsInfo, AbsNode, Node, NodeInfo, TaskInfo};
use crate::queue::{pick_index, ReadyQueue};
use crate::{Id, NodeId};

verus! {

/// Owner of the node registry, the installment arena, the ready queue and
/// the task-id counter.
pub struct TaskHandle {
    /// Every `NodeInfo` installment ever created, in creation order.  The
    /// main node's initial installment sits at index 0.  Entries are never
    /// removed: a stale index stays meaningful, which is how tasks pinned
    /// to a killed installment are recognised.
    pub infos: Vec<NodeInfo>,
    /// The registry of non-main nodes: `nodes[k]` is the node with id
    /// `k + 1`.  The main node is not registered and cannot be paused,
    /// killed or restarted.
    pub nodes: Vec<Node>,
    /// The ready queue feeding the executor.
    pub ready: ReadyQueue,
    /// The task-id counter: the next `Id` to allocate.
    pub next_task: u64,
}

/// The ghost image of a [`TaskHandle`].
#[verifier::ext_equal]
pub ghost struct AbsHandle {
    pub infos: Seq<AbsInfo>,
    pub nodes: Seq<AbsNode>,
    pub ready: Seq<TaskInfo>,
    pub next_task: int,
}

impl View for TaskHandle {
    type V = AbsHandle;

    open spec fn view(&self) -> AbsHandle {
        AbsHandle {
            infos: self.infos@.map_values(|i: NodeInfo| i@),
            nodes: self.nodes@.map_values(|n: Node| n@),
            ready: self.ready@,
            next_task: self.next_task as int,
        }
    }
}

impl AbsHandle {
    /// The registry knows this id (the main node, id 0, lives outside it).
    pub open spec fn is_node(self, id: NodeId) -> bool {
        1 <= id.0 && id.0 <= self.nodes.len()
    }

    /// A task record is consistent with this state: it is pinned to an
    /// existing installment and its id was allocated by the counter.
    pub open spec fn task_ok(self, t: TaskInfo) -> bool {
        &&& t.node < self.infos.len()
        &&& t.id.0 < self.next_task
    }

    /// The installment at index `i` is current for its node: either it is
    /// the main node's installment at index 0, or the registry entry of
    /// its node points back at it.
    pub open spec fn live_ok(self, i: int) -> bool {
        if self.infos[i].id.0 == 0 {
            i == 0
        } else {
            &&& self.is_node(self.infos[i].id)
            &&& self.nodes[self.infos[i].id.0 - 1].info == i
        }
    }

    /// Well-formedness of the whole handle state.
    pub open spec fn wf(self) -> bool {
        &&& 0 <= self.next_task <= u64::MAX
        &&& self.nodes.len() + 1 <= u64::MAX
        &&& 1 <= self.infos.len()
        &&& self.infos[0].id == NodeId(0)
        &&& !self.infos[0].paused
        &&& !self.infos[0].killed
        &&& self.infos[0].cores == 1
        // a live installment is the current installment of its node
        &&& forall|i: int|
            0 <= i < self.infos.len() && !(#[trigger] self.infos[i]).killed ==> self.live_ok(i)
        // registry entries point at installments carrying the right id
        &&& forall|k: int|
            0 <= k < self.nodes.len() ==> {
                &&& 0 <= (#[trigger] self.nodes[k]).info < self.infos.len()
                &&& self.infos[self.nodes[k].info].id == NodeId((k + 1) as u64)
            }
        // queued and parked tasks are consistent with the state
        &&& forall|j: int| 0 <= j < self.ready.len() ==> self.task_ok(#[trigger] self.ready[j])
        &&& forall|k: int, j: int|
            0 <= k < self.nodes.len() && 0 <= j < (#[trigger] self.nodes[k]).waiting.len()
                ==> self.task_ok(#[trigger] self.nodes[k].waiting[j])
    }
}

/// The state after `kill(id)`: the node's waiting list is dropped, a fresh
/// installment (unpaused, unkilled, one core) is installed for the node,
/// and the old installment is marked killed — permanently, so every task
/// still pinned to it is discarded at its next dequeue.
pub open spec fn kill_spec(h: AbsHandle, id: NodeId) -> AbsHandle {
    let k = id.0 - 1;
    let old_i = h.nodes[k].info;
    let fresh = AbsInfo {
        id,
        name: h.infos[old_i].name,
        cores: 1,
        paused: false,
        killed: false,
    };
    AbsHandle {
        infos: h.infos.update(old_i, AbsInfo { killed: true, ..h.infos[old_i] }).push(fresh),
        nodes: h.nodes.update(
            k,
            AbsNode {
                info: h.infos.len() as int,
                waiting: Seq::empty(),
                has_init: h.nodes[k].has_init,
            },
        ),
        ..h
    }
}

/// The state after `pause(id)`: the node's current installment has its
/// `paused` flag set.
pub open spec fn pause_spec(h: AbsHandle, id: NodeId) -> AbsHandle {
    let i = h.nodes[id.0 - 1].info;
    AbsHandle { infos: h.infos.update(i, AbsInfo { paused: true, ..h.infos[i] }), ..h }
}

/// The state after `resume(id)`: the `paused` flag is cleared and the
/// node's waiting list is appended to the ready queue in accumulation
/// order.
pub open spec fn resume_spec(h: AbsHandle, id: NodeId) -> AbsHandle {
    let k = id.0 - 1;
    let i = h.nodes[k].info;
    AbsHandle {
        infos: h.infos.update(i, AbsInfo { paused: false, ..h.infos[i] }),
        nodes: h.nodes.update(k, AbsNode { waiting: Seq::empty(), ..h.nodes[k] }),
        ready: h.ready + h.nodes[k].waiting,
        ..h
    }
}

impl TaskHandle {
    /// Kills all tasks of the node: clears its waiting list, installs a
    /// fresh installment, and marks the old one killed so that every
    /// in-flight task pinned to it is discarded on dequeue.  Tasks spawned
    /// against the fresh installment (e.g. by a later restart) run
    /// normally.  Idempotent in effect: a second kill retires an
    /// installment no task is pinned to.
    pub fn kill(&mut self, id: NodeId)
        requires
            old(self)@.wf(),
            old(self)@.is_node(id),
        ensures
            final(self)@ == kill_spec(old(self)@, id),
            final(self)@.wf(),
    {
        let nlen = self.nodes.len();
        proof {
            assert(id.0 - 1 < nlen);
        }
        let k = (id.0 - 1) as usize;
        proof {
            let h = old(self)@;
            assert(k as int == id.0 - 1);
            assert(h.nodes[k as int] == self.nodes@[k as int]@);
            assert(h.nodes[k as int].info < h.infos.len());
        }
        let old_i = self.nodes[k].info;
        let name = self.infos[old_i].name.clone();
        let new_ix = self.infos.len();
        self.infos.push(NodeInfo { id, name, cores: 1, paused: false, killed: false });
        let marked = &mut self.infos[old_i];
        marked.killed = true;
        let entry = &mut self.nodes[k];
        entry.info = new_ix;
        entry.waiting = Vec::new();
        proof {
            assert(self@ =~~= kill_spec(old(self)@, id));
            assert(self@.wf());
        }
    }

    /// Pauses all tasks of the node: from now on its dequeued tasks are
    /// parked on the waiting list instead of running.  Idempotent.  Tasks
    /// already running are not preempted.
    pub fn pause(&mut self, id: NodeId)
        requires
            old(self)@.wf(),
            old(self)@.is_node(id),
        ensures
            final(self)@ == pause_spec(old(self)@, id),
            final(self)@.wf(),
    {
        let nlen = self.nodes.len();
        proof {
            assert(id.0 - 1 < nlen);
        }
        let k = (id.0 - 1) as usize;
        proof {
            let h = old(self)@;
            assert(k as int == id.0 - 1);
            assert(h.nodes[k as int] == self.nodes@[k as int]@);
            assert(h.nodes[k as int].info < h.infos.len());
        }
        let i = self.nodes[k].info;
        let entry = &mut self.infos[i];
        entry.paused = true;
        proof {
            assert(self@ =~~= pause_spec(old(self)@, id));
            assert(self@.wf());
        }
    }

    /// Resumes the node: clears the `paused` flag and moves the waiting
    /// list to the ready queue, preserving the order in which the entries
    /// were parked.  Idempotent (resuming an unpaused node moves an empty
    /// list).
    pub fn resume(&mut self, id: NodeId)
        requires
            old(self)@.wf(),
            old(self)@.is_node(id),
        ensures
            final(self)@ == resume_spec(old(self)@, id),
            final(self)@.wf(),
    {
        let nlen = self.nodes.len();
        proof {
            assert(id.0 - 1 < nlen);
        }
        let k = (id.0 - 1) as usize;
        proof {
            let h = old(self)@;
            assert(k as int == id.0 - 1);
            assert(h.nodes[k as int] == self.nodes@[k as int]@);
            assert(h.nodes[k as int].info < h.infos.len());
        }
        let i = self.nodes[k].info;
        let entry = &mut self.infos[i];
        entry.paused = false;
        let ghost mid = self@;
        let n = self.nodes[k].waiting.len();
        let mut j: usize = 0;
        while j < n
            invariant
                j <= n,
                k < self@.nodes.len(),
                self@.nodes == mid.nodes,
                self@.infos == mid.infos,
                self@.next_task == mid.next_task,
                n == self@.nodes[k as int].waiting.len(),
                self@.ready == mid.ready + self@.nodes[k as int].waiting.subrange(0, j as int),
            decreases n - j,
        {
            proof {
                assert(self@.nodes[k as int] == self.nodes@[k as int]@);
            }
            let t = self.nodes[k].waiting[j];
            self.ready.send(t);
            proof {
                assert(self@.ready =~= mid.ready + self@.nodes[k as int].waiting.subrange(
                    0,
                    j + 1,
                ));
            }
            j = j + 1;
        }
        let entry = &mut self.nodes[k];
        entry.waiting = Vec::new();
        proof {
            assert(self@.nodes[k as int].waiting =~= Seq::<TaskInfo>::empty());
            assert(mid.nodes[k as int].waiting.subrange(
                0,
                mid.nodes[k as int].waiting.len() as int,
            ) =~= mid.nodes[k as int].waiting);
            assert(self@ =~~= resume_spec(old(self)@, id));
            assert(self@.wf());
        }
    }

    /// Creates a new node and returns a handle bound to its first
    /// installment.  The node gets the next free id, the given name (or
    /// `node-<id>` when none is given) and the given core count (default
    /// 1).  When the node carries an init program, the caller runs it
    /// against the returned handle to spawn the node's bootstrap tasks,
    /// exactly as a later restart will.
    pub fn create_node(&mut self, name: Option<String>, has_init: bool, cores: Option<u64>) -> (r:
        TaskNodeHandle)
        requires
            old(self)@.wf(),
            old(self)@.nodes.len() + 2 <= u64::MAX,
        ensures
            final(self)@ == create_spec(
                old(self)@,
                spec_node_name(name, (old(self)@.nodes.len() + 1) as u64),
                has_init,
                spec_cores(cores),
            ),
            final(self)@.wf(),
            r.info == old(self)@.infos.len(),
            r.node_id == (NodeId((old(self)@.nodes.len() + 1) as u64)),
    {
        let id_num = (self.nodes.len() as u64) + 1;
        let id = NodeId(id_num);
        let nm = match name {
            Some(n) => n,
            None => {
                let mut s = String::from_str("node-");
                let digits = crate::decimal::u64_to_string(id_num);
                s.append(digits.as_str());
                s
            },
        };
        let cores_v = match cores {
            Some(c) => c,
            None => 1,
        };
        let new_ix = self.infos.len();
        self.infos.push(NodeInfo { id, name: nm, cores: cores_v, paused: false, killed: false });
        self.nodes.push(Node { info: new_ix, waiting: Vec::new(), has_init });
        proof {
            assert(self@ =~~= create_spec(
                old(self)@,
                spec_node_name(name, id_num),
                has_init,
                spec_cores(cores),
            ));
            assert(self@.wf());
        }
        TaskNodeHandle { info: new_ix, node_id: id }
    }

    /// Restarts the node: kills it (see [`TaskHandle::kill`]) and, when an
    /// init program was stored at creation, returns a handle bound to the
    /// fresh installment against which the caller runs that program again.
    /// A node without an init program is effectively dead after a restart.
    pub fn restart(&mut self, id: NodeId) -> (r: Option<TaskNodeHandle>)
        requires
            old(self)@.wf(),
            old(self)@.is_node(id),
        ensures
            final(self)@ == kill_spec(old(self)@, id),
            final(self)@.wf(),
            old(self)@.nodes[id.0 - 1].has_init ==> (r matches Some(h) && h.info == old(
                self,
            )@.infos.len() && h.node_id == id),
            !old(self)@.nodes[id.0 - 1].has_init ==> r is None,
    {
        self.kill(id);
        let nlen = self.nodes.len();
        proof {
            assert(id.0 - 1 < nlen);
        }
        let k = (id.0 - 1) as usize;
        proof {
            assert(self@.nodes[k as int] == self.nodes@[k as int]@);
        }
        if self.nodes[k].has_init {
            Some(TaskNodeHandle { info: self.nodes[k].info, node_id: id })
        } else {
            None
        }
    }

    /// Requeues a woken task: the waker's half of the contract.  The
    /// task's runnable goes back on the ready queue; its record is
    /// unchanged, so a kill or pause of its installment still reaches it
    /// at the next dequeue.
    pub fn wake(&mut self, t: TaskInfo)
        requires
            old(self)@.wf(),
            old(self)@.task_ok(t),
        ensures
            final(self)@ == (AbsHandle { ready: old(self)@.ready.push(t), ..old(self)@ }),
            final(self)@.wf(),
    {
        self.ready.send(t);
        proof {
            assert(self@ =~~= (AbsHandle { ready: old(self)@.ready.push(t), ..old(self)@ }));
            assert(self@.wf());
        }
    }

    /// Returns a handle bound to the node's current installment, or `None`
    /// for an unknown id.  The main node (id 0) is always known.
    pub fn get_node(&self, id: NodeId) -> (r: Option<TaskNodeHandle>)
        requires
            self@.wf(),
        ensures
            id.0 == 0 ==> (r matches Some(h) && h.info == 0 && h.node_id == id),
            self@.is_node(id) ==> (r matches Some(h) && h.info == self@.nodes[id.0 - 1].info
                && h.node_id == id),
            id.0 > self@.nodes.len() ==> r is None,
    {
        if id.0 == 0 {
            Some(TaskNodeHandle { info: 0, node_id: id })
        } else {
            let nlen = self.nodes.len();
            if id.0 <= nlen as u64 {
                let k = (id.0 - 1) as usize;
                proof {
                    assert(self@.nodes[k as int] == self.nodes@[k as int]@);
                }
                Some(TaskNodeHandle { info: self.nodes[k].info, node_id: id })
            } else {
                None
            }
        }
    }
}

/// The name a new node ends up with: the given one, or the default name
/// for its id.
pub open spec fn spec_node_name(name: Option<String>, id: u64) -> Seq<char> {
    match name {
        Some(n) => n@,
        None => crate::node::default_name_of(id),
    }
}

/// The core count a new node ends up with: the given one, or 1.
pub open spec fn spec_cores(cores: Option<u64>) -> u64 {
    match cores {
        Some(c) => c,
        None => 1,
    }
}

/// The state after `create_node`: a fresh installment carrying the next
/// free node id and a fresh registry entry pointing at it.
pub open spec fn create_spec(h: AbsHandle, nm: Seq<char>, has_init: bool, cores: u64) -> AbsHandle {
    let id = NodeId((h.nodes.len() + 1) as u64);
    AbsHandle {
        infos: h.infos.push(
            AbsInfo { id, name: nm, cores, paused: false, killed: false },
        ),
        nodes: h.nodes.push(
            AbsNode { info: h.infos.len() as int, waiting: Seq::empty(), has_init },
        ),
        ..h
    }
}

/// The state after a spawn on the installment at `node_ref`: a task record
/// carrying the next task id is appended to the ready queue and the
/// counter moves on.
pub open spec fn spawn_spec(h: AbsHandle, node_ref: usize) -> AbsHandle {
    AbsHandle {
        ready: h.ready.push(TaskInfo { id: Id(h.next_task as u64), node: node_ref }),
        next_task: h.next_task + 1,
        ..h
    }
}

/// A handle to spawn tasks on a node, bound to one `NodeInfo` installment.
/// Tasks spawned through it are pinned to that installment: a kill of the
/// node invalidates them, while handles bound to the replacement
/// installment spawn tasks that run normally.
#[derive(Debug, PartialEq, Eq, Structural, Clone, Copy)]
pub struct TaskNodeHandle {
    /// Index of the installment this handle is bound to.
    pub info: usize,
    /// The node's id.
    pub node_id: NodeId,
}

impl TaskNodeHandle {
    /// The id of the node this handle spawns onto.
    pub fn id(&self) -> (r: NodeId)
        ensures
            r == self.node_id,
    {
        self.node_id
    }

    /// Spawns a new task on this handle's node, returning a join handle
    /// for it.  The task is pinned to this handle's installment, gets the
    /// next task id, and its first runnable is placed on the ready queue.
    pub fn spawn(&self, h: &mut TaskHandle) -> (r: crate::join::JoinHandle)
        requires
            old(h)@.wf(),
            self.info < old(h)@.infos.len(),
            old(h).next_task < u64::MAX,
        ensures
            final(h)@ == spawn_spec(old(h)@, self.info),
            final(h)@.wf(),
            r == (crate::join::JoinHandle { task_id: Id(old(h).next_task), task_held: true }),
    {
        self.spawn_local(h)
    }

    /// Spawns a task that need not be sendable across threads.  In this
    /// single-threaded executor the distinction from [`Self::spawn`] is
    /// observational only; the effect is the same.
    pub fn spawn_local(&self, h: &mut TaskHandle) -> (r: crate::join::JoinHandle)
        requires
            old(h)@.wf(),
            self.info < old(h)@.infos.len(),
            old(h).next_task < u64::MAX,
        ensures
            final(h)@ == spawn_spec(old(h)@, self.info),
            final(h)@.wf(),
            r == (crate::join::JoinHandle { task_id: Id(old(h).next_task), task_held: true }),
    {
        let ti = NodeInfo::new_task(self.info, &mut h.next_task);
        h.ready.send(ti);
        proof {
            assert(h@ =~~= spawn_spec(old(h)@, self.info));
            assert(h@.wf());
        }
        crate::join::JoinHandle { task_id: ti.id, task_held: true }
    }
}

/// What one drain-phase step decided.
#[derive(Debug, PartialEq, Eq, Structural, Clone, Copy)]
pub enum StepOutcome {
    /// The ready queue was empty: the drain phase is over.
    Empty,
    /// The dequeued task was pinned to a killed installment and was
    /// discarded without running.
    Discard(TaskInfo),
    /// The dequeued task's node is paused: the task was parked on the
    /// node's waiting list.
    Park(TaskInfo),
    /// The dequeued task became the current task and must now be polled
    /// exactly once.
    Run(TaskInfo),
}

/// What `block_on` does once the ready queue has drained and the root
/// future was probed.
#[derive(Debug, PartialEq, Eq, Structural, Clone, Copy)]
pub enum ProbeVerdict {
    /// The root future completed: return its value.
    Finished,
    /// No task is ready and no timer is pending: every task would block
    /// forever.  Fatal.
    Deadlock,
    /// Virtual time has passed the configured limit.  Fatal.
    LimitExceeded,
    /// Go round again: drain, probe, advance.
    KeepGoing,
}

/// The executor: the handle state plus the virtual clock, the optional
/// time limit and the task currently being polled.
pub struct Executor {
    pub handle: TaskHandle,
    /// Virtual time, in nanoseconds since the start of the run.
    pub time: u64,
    /// When set, exceeding this virtual time is fatal.
    pub time_limit: Option<u64>,
    /// The task a poll is in flight for: present between
    /// [`Executor::run_next`] choosing a task and the matching
    /// [`Executor::finish_poll`].  Spawning without an explicit node and
    /// the reported core count both use it.
    pub current: Option<TaskInfo>,
}

/// The ghost image of an [`Executor`].
#[verifier::ext_equal]
pub ghost struct AbsExec {
    pub handle: AbsHandle,
    pub time: int,
    pub time_limit: Option<u64>,
    pub current: Option<TaskInfo>,
}

impl View for Executor {
    type V = AbsExec;

    open spec fn view(&self) -> AbsExec {
        AbsExec {
            handle: self.handle@,
            time: self.time as int,
            time_limit: self.time_limit,
            current: self.current,
        }
    }
}

impl AbsExec {
    /// Well-formedness: the handle state is well-formed and the current
    /// task, if any, is consistent with it.
    pub open spec fn wf(self) -> bool {
        &&& self.handle.wf()
        &&& (self.current matches Some(t) ==> self.handle.task_ok(t))
    }

    /// Virtual time has passed the configured limit.
    pub open spec fn limit_exceeded(self) -> bool {
        self.time_limit matches Some(l) && self.time >= l
    }
}

/// The executor state a run begins in: the main node's installment, an
/// empty registry, an empty ready queue, the clock at zero.
pub open spec fn init_exec() -> AbsExec {
    AbsExec {
        handle: AbsHandle {
            infos: seq![
                AbsInfo {
                    id: NodeId(0),
                    name: "main"@,
                    cores: 1,
                    paused: false,
                    killed: false,
                },
            ],
            nodes: Seq::empty(),
            ready: Seq::empty(),
            next_task: 0,
        },
        time: 0,
        time_limit: None,
        current: None,
    }
}

/// What [`Executor::run_next`] returns in a given state for a given draw.
pub open spec fn run_next_out(s: AbsExec, sel: u64) -> StepOutcome {
    if s.handle.ready.len() == 0 {
        StepOutcome::Empty
    } else {
        let ti = s.handle.ready[pick_index(sel, s.handle.ready.len() as int)];
        let inf = s.handle.infos[ti.node as int];
        if inf.killed {
            StepOutcome::Discard(ti)
        } else if inf.paused {
            StepOutcome::Park(ti)
        } else {
            StepOutcome::Run(ti)
        }
    }
}

/// The state [`Executor::run_next`] leaves behind for a given draw.
pub open spec fn run_next_spec(s: AbsExec, sel: u64) -> AbsExec {
    if s.handle.ready.len() == 0 {
        s
    } else {
        let i = pick_index(sel, s.handle.ready.len() as int);
        let ti = s.handle.ready[i];
        let rest = s.handle.ready.remove(i);
        let inf = s.handle.infos[ti.node as int];
        if inf.killed {
            AbsExec { handle: AbsHandle { ready: rest, ..s.handle }, ..s }
        } else if inf.paused {
            let k = inf.id.0 - 1;
            AbsExec {
                handle: AbsHandle {
                    ready: rest,
                    nodes: s.handle.nodes.update(
                        k,
                        AbsNode {
                            waiting: s.handle.nodes[k].waiting.push(ti),
                            ..s.handle.nodes[k]
                        },
                    ),
                    ..s.handle
                },
                ..s
            }
        } else {
            AbsExec {
                handle: AbsHandle { ready: rest, ..s.handle },
                current: Some(ti),
                ..s
            }
        }
    }
}

impl Executor {
    /// A fresh executor: empty registry, empty ready queue, clock at zero,
    /// the main node pre-installed with one core.
    pub fn new() -> (r: Executor)
        ensures
            r@ == init_exec(),
            r@.wf(),
    {
        let mut infos: Vec<NodeInfo> = Vec::new();
        infos.push(
            NodeInfo {
                id: NodeId::zero(),
                name: String::from_str("main"),
                cores: 1,
                paused: false,
                killed: false,
            },
        );
        let r = Executor {
            handle: TaskHandle { infos, nodes: Vec::new(), ready: ReadyQueue::new(), next_task: 0 },
            time: 0,
            time_limit: None,
            current: None,
        };
        proof {
            assert(r@ =~~= init_exec());
            assert(r@.wf());
        }
        r
    }

    /// The task handle owning the registry and the ready queue.
    pub fn handle(&self) -> (r: &TaskHandle)
        ensures
            *r == self.handle,
    {
        &self.handle
    }

    /// Configures the simulation-wide deadline: once virtual time passes
    /// `limit`, [`Executor::after_drain`] reports a fatal verdict.
    pub fn set_time_limit(&mut self, limit: u64)
        ensures
            final(self)@ == (AbsExec { time_limit: Some(limit), ..old(self)@ }),
    {
        self.time_limit = Some(limit);
        proof {
            assert(self@ =~~= (AbsExec { time_limit: Some(limit), ..old(self)@ }));
        }
    }

    /// Virtual time elapsed since the start of the run, in nanoseconds.
    pub fn elapsed(&self) -> (t: u64)
        ensures
            t == self@.time,
    {
        self.time
    }

    /// Advances the virtual clock by `d` nanoseconds.  Time never moves
    /// backwards: this is the only way it moves apart from the post-poll
    /// bump of [`Executor::finish_poll`].
    pub fn advance(&mut self, d: u64)
        requires
            old(self).time + d <= u64::MAX,
        ensures
            final(self)@ == (AbsExec { time: old(self)@.time + d, ..old(self)@ }),
    {
        self.time = self.time + d;
        proof {
            assert(self@ =~~= (AbsExec { time: old(self)@.time + d, ..old(self)@ }));
        }
    }

    /// One drain-phase decision.  Dequeues the ready entry the draw `sel`
    /// selects and either discards it (killed installment), parks it
    /// (paused node) or installs it as the current task, in which case the
    /// caller must poll it exactly once and then call
    /// [`Executor::finish_poll`].  Returns [`StepOutcome::Empty`] when
    /// nothing is ready.
    pub fn run_next(&mut self, sel: u64) -> (r: StepOutcome)
        requires
            old(self)@.wf(),
            old(self).current is None,
        ensures
            r == run_next_out(old(self)@, sel),
            final(self)@ == run_next_spec(old(self)@, sel),
            final(self)@.wf(),
    {
        let got = self.handle.ready.try_recv_random(sel);
        match got {
            None => {
                proof {
                    assert(self@ =~~= run_next_spec(old(self)@, sel));
                }
                StepOutcome::Empty
            },
            Some(ti) => {
                proof {
                    let h = old(self)@.handle;
                    assert(h.ready[pick_index(sel, h.ready.len() as int)] == ti);
                    assert(h.task_ok(ti));
                    assert(h.infos[ti.node as int] == self.handle.infos@[ti.node as int]@);
                }
                if self.handle.infos[ti.node].killed {
                    proof {
                        assert(self@ =~~= run_next_spec(old(self)@, sel));
                    }
                    StepOutcome::Discard(ti)
                } else if self.handle.infos[ti.node].paused {
                    let id = self.handle.infos[ti.node].id;
                    proof {
                        let h = old(self)@.handle;
                        assert(h.live_ok(ti.node as int));
                        assert(id.0 >= 1);
                        assert(h.nodes[id.0 - 1].info == ti.node);
                    }
                    let nlen = self.handle.nodes.len();
                    proof {
                        assert(id.0 - 1 < nlen);
                    }
                    let k = (id.0 - 1) as usize;
                    proof {
                        assert(old(self)@.handle.nodes[k as int] == self.handle.nodes@[
                            k as int
                        ]@);
                    }
                    let entry = &mut self.handle.nodes[k];
                    entry.waiting.push(ti);
                    proof {
                        assert(self@ =~~= run_next_spec(old(self)@, sel));
                        assert(self@.wf());
                    }
                    StepOutcome::Park(ti)
                } else {
                    self.current = Some(ti);
                    proof {
                        assert(self@ =~~= run_next_spec(old(self)@, sel));
                        assert(self@.wf());
                    }
                    StepOutcome::Run(ti)
                }
            },
        }
    }

    /// Ends the poll of the current task: clears the current-task slot and
    /// advances virtual time by the drawn `bump` of 50 to 99 nanoseconds,
    /// the simulated cost of one poll.  The bump is applied after every
    /// poll, the main node's included.
    pub fn finish_poll(&mut self, bump: u64)
        requires
            old(self).current is Some,
            50 <= bump < 100,
            old(self).time + bump <= u64::MAX,
        ensures
            final(self)@ == (AbsExec {
                time: old(self)@.time + bump,
                current: None,
                ..old(self)@
            }),
    {
        self.current = None;
        self.time = self.time + bump;
        proof {
            assert(self@ =~~= (AbsExec {
                time: old(self)@.time + bump,
                current: None,
                ..old(self)@
            }));
        }
    }

    /// The decision `block_on` takes after a drain: if the root future
    /// completed, return; otherwise, if no timer event could fire, the
    /// simulation is deadlocked; otherwise, once virtual time has passed
    /// the configured limit the run is over it; else keep going.
    pub fn after_drain(&self, root_ready: bool, timer_fired: bool) -> (r: ProbeVerdict)
        ensures
            root_ready ==> r == ProbeVerdict::Finished,
            !root_ready && !timer_fired ==> r == ProbeVerdict::Deadlock,
            !root_ready && timer_fired && self@.limit_exceeded() ==> r
                == ProbeVerdict::LimitExceeded,
            !root_ready && timer_fired && !self@.limit_exceeded() ==> r
                == ProbeVerdict::KeepGoing,
    {
        if root_ready {
            ProbeVerdict::Finished
        } else if !timer_fired {
            ProbeVerdict::Deadlock
        } else {
            match self.time_limit {
                Some(l) => {
                    if self.time >= l {
                        ProbeVerdict::LimitExceeded
                    } else {
                        ProbeVerdict::KeepGoing
                    }
                },
                None => ProbeVerdict::KeepGoing,
            }
        }
    }

    /// The simulated CPU count visible to the current task: its node's
    /// `cores`.  `None` outside any task context, where the platform's
    /// real value applies.
    pub fn available_parallelism(&self) -> (r: Option<u64>)
        requires
            self@.wf(),
        ensures
            self.current matches Some(t) ==> r == Some(self@.handle.infos[t.node as int].cores),
            self.current is None ==> r is None,
    {
        match self.current {
            Some(t) => {
                proof {
                    assert(self@.handle.infos[t.node as int] == self.handle.infos@[
                        t.node as int
                    ]@);
                }
                Some(self.handle.infos[t.node].cores)
            },
            None => None,
        }
    }
}

impl TaskNodeHandle {
    /// The handle of the node the current task belongs to, used by the
    /// free-standing spawn functions to resolve their target.
    pub fn current(ex: &Executor) -> (r: TaskNodeHandle)
        requires
            ex@.wf(),
            ex.current is Some,
        ensures
            r.info == ex.current.unwrap().node,
            r.node_id == ex@.handle.infos[ex.current.unwrap().node as int].id,
    {
        let t = ex.current.unwrap();
        proof {
            assert(ex@.handle.infos[t.node as int] == ex.handle.infos@[t.node as int]@);
        }
        TaskNodeHandle { info: t.node, node_id: ex.handle.infos[t.node].id }
    }
}

/// Spawns a new task on the current task's node, returning a join handle
/// for it.  Callable only from task context, i.e. while a poll is in
/// flight.
pub fn spawn(ex: &mut Executor) -> (r: crate::join::JoinHandle)
    requires
        old(ex)@.wf(),
        old(ex).current is Some,
        old(ex).handle.next_task < u64::MAX,
    ensures
        final(ex)@ == (AbsExec {
            handle: spawn_spec(old(ex)@.handle, old(ex).current.unwrap().node),
            ..old(ex)@
        }),
        final(ex)@.wf(),
        r == (crate::join::JoinHandle {
            task_id: Id(old(ex).handle.next_task),
            task_held: true,
        }),
{
    let th = TaskNodeHandle::current(ex);
    let r = th.spawn(&mut ex.handle);
    proof {
        assert(ex@ =~~= (AbsExec {
            handle: spawn_spec(old(ex)@.handle, old(ex).current.unwrap().node),
            ..old(ex)@
        }));
    }
    r
}

/// Spawns a task that need not be sendable across threads on the current
/// task's node.  Same effect as [`spawn`].
pub fn spawn_local(ex: &mut Executor) -> (r: crate::join::JoinHandle)
    requires
        old(ex)@.wf(),
        old(ex).current is Some,
        old(ex).handle.next_task < u64::MAX,
    ensures
        final(ex)@ == (AbsExec {
            handle: spawn_spec(old(ex)@.handle, old(ex).current.unwrap().node),
            ..old(ex)@
        }),
        final(ex)@.wf(),
        r == (crate::join::JoinHandle {
            task_id: Id(old(ex).handle.next_task),
            task_held: true,
        }),
{
    spawn(ex)
}

/// Spawns a task that runs a blocking closure.  In the simulation this is
/// an ordinary task that runs the closure at its first poll, so the effect
/// on the executor is that of [`spawn`].
pub fn spawn_blocking(ex: &mut Executor) -> (r: crate::join::JoinHandle)
    requires
        old(ex)@.wf(),
        old(ex).current is Some,
        old(ex).handle.next_task < u64::MAX,
    ensures
        final(ex)@ == (AbsExec {
            handle: spawn_spec(old(ex)@.handle, old(ex).current.unwrap().node),
            ..old(ex)@
        }),
        final(ex)@.wf(),
        r == (crate::join::JoinHandle {
            task_id: Id(old(ex).handle.next_task),
            task_held: true,
        }),
{
    spawn(ex)
}

} // verus!
