//! The executor's global guarantees, stated and proved over the
//! spec-level transition functions that every operation's postcondition is
//! tied to.
//!
//! A drain phase is a sequence of steps, each directed by one draw pair:
//! the selection draw that picks the ready entry and the bump draw that
//! prices the poll.  [`drain_run`] and [`drain_trace`] fold the per-step
//! transition over a draw sequence; the lemmas below say what any such
//! run guarantees: the schedule is a function of the draws (determinism),
//! virtual time never decreases, task identifiers are never reused, and
//! tasks pinned to killed or paused installments never run.

use vstd::prelude::*;

use crate::executor::{run_next_out, run_next_spec, AbsExec, AbsHandle, StepOutcome};
use crate::node::TaskInfo;
use crate::{executor, Id, NodeId};

verus! {

/// One full drain step directed by the draw pair `(sel, bump)`: the
/// dequeue decision of [`run_next_out`], followed — when a task ran — by
/// the post-poll time bump.
pub open spec fn drain_step(s: AbsExec, sel: u64, bump: u64) -> AbsExec {
    let s1 = run_next_spec(s, sel);
    if run_next_out(s, sel) matches StepOutcome::Run(_) {
        AbsExec { time: s1.time + bump, current: None, ..s1 }
    } else {
        s1
    }
}

/// The state a drain phase reaches from `s` under the draw sequence
/// `draws`.
pub open spec fn drain_run(s: AbsExec, draws: Seq<(u64, u64)>) -> AbsExec
    decreases draws.len(),
{
    if draws.len() == 0 {
        s
    } else {
        drain_run(drain_step(s, draws[0].0, draws[0].1), draws.drop_first())
    }
}

/// The interleaving a drain phase produces from `s` under the draw
/// sequence `draws`: one [`StepOutcome`] per draw pair.
pub open spec fn drain_trace(s: AbsExec, draws: Seq<(u64, u64)>) -> Seq<StepOutcome>
    decreases draws.len(),
{
    if draws.len() == 0 {
        Seq::empty()
    } else {
        seq![run_next_out(s, draws[0].0)] + drain_trace(
            drain_step(s, draws[0].0, draws[0].1),
            draws.drop_first(),
        )
    }
}

/// Determinism: two runs from the same state under the same draw sequence
/// — and, since every draw comes from the seeded generator, under the
/// same seed — produce the identical interleaving and the identical final
/// state.  The executable operations are tied to these functions by their
/// postconditions, so this is a statement about the executor itself.
pub proof fn lemma_schedule_deterministic(
    s1: AbsExec,
    s2: AbsExec,
    d1: Seq<(u64, u64)>,
    d2: Seq<(u64, u64)>,
)
    requires
        s1 == s2,
        d1 == d2,
    ensures
        drain_trace(s1, d1) == drain_trace(s2, d2),
        drain_run(s1, d1) == drain_run(s2, d2),
{
}

/// A drain step never touches the installment arena: flags set by `kill`
/// or `pause` stay exactly as they are while the queue drains.
pub proof fn lemma_drain_step_keeps_infos(s: AbsExec, sel: u64, bump: u64)
    ensures
        drain_step(s, sel, bump).handle.infos == s.handle.infos,
{
}

/// Monotonic time: a drain phase never moves virtual time backwards.
pub proof fn lemma_time_monotonic(s: AbsExec, draws: Seq<(u64, u64)>)
    ensures
        drain_run(s, draws).time >= s.time,
    decreases draws.len(),
{
    if draws.len() > 0 {
        lemma_time_monotonic(drain_step(s, draws[0].0, draws[0].1), draws.drop_first());
    }
}

/// Task-id uniqueness: in a well-formed state, the id the next spawn
/// allocates is distinct from the id of every task already queued, parked
/// or current, and the spawn moves the counter on, so no two spawns of a
/// run ever hand out the same id.
pub proof fn lemma_task_ids_unique(s: AbsExec, node_ref: usize)
    requires
        s.wf(),
        node_ref < s.handle.infos.len(),
    ensures
        forall|j: int|
            0 <= j < s.handle.ready.len() ==> (#[trigger] s.handle.ready[j]).id != Id(
                s.handle.next_task as u64,
            ),
        forall|k: int, j: int|
            0 <= k < s.handle.nodes.len() && 0 <= j < s.handle.nodes[k].waiting.len()
                ==> (#[trigger] s.handle.nodes[k].waiting[j]).id != Id(s.handle.next_task as u64),
        s.current matches Some(t) ==> t.id != Id(s.handle.next_task as u64),
        executor::spawn_spec(s.handle, node_ref).next_task == s.handle.next_task + 1,
{
    assert forall|j: int| 0 <= j < s.handle.ready.len() implies (#[trigger] s.handle.ready[j]).id
        != Id(s.handle.next_task as u64) by {
        assert(s.handle.task_ok(s.handle.ready[j]));
    }
    assert forall|k: int, j: int|
        0 <= k < s.handle.nodes.len() && 0 <= j
            < s.handle.nodes[k].waiting.len() implies (#[trigger] s.handle.nodes[k].waiting[j]).id
        != Id(s.handle.next_task as u64) by {
        assert(s.handle.task_ok(s.handle.nodes[k].waiting[j]));
    }
}

/// Kill isolation, drained: once an installment is marked killed, no task
/// pinned to it ever runs again — every drain phase, whatever its draws,
/// discards such tasks, and the mark never goes away.
pub proof fn lemma_kill_isolation(s: AbsExec, draws: Seq<(u64, u64)>, i: int)
    requires
        0 <= i < s.handle.infos.len(),
        s.handle.infos[i].killed,
    ensures
        drain_run(s, draws).handle.infos == s.handle.infos,
        forall|k: int|
            0 <= k < drain_trace(s, draws).len() ==> !(#[trigger] drain_trace(s, draws)[k]
                matches StepOutcome::Run(t) && t.node == i),
    decreases draws.len(),
{
    if draws.len() > 0 {
        let s2 = drain_step(s, draws[0].0, draws[0].1);
        lemma_drain_step_keeps_infos(s, draws[0].0, draws[0].1);
        lemma_kill_isolation(s2, draws.drop_first(), i);
        assert(!(run_next_out(s, draws[0].0) matches StepOutcome::Run(t) && t.node == i));
    }
}

/// Kill isolation, at the kill: after `kill(id)`, no task whose record
/// was created before the kill — every such task is pinned to the node's
/// then-current installment — ever runs in any subsequent drain phase.
pub proof fn lemma_kill_then_drain(s: AbsExec, id: NodeId, draws: Seq<(u64, u64)>)
    requires
        s.handle.wf(),
        s.handle.is_node(id),
    ensures
        ({
            let victim = s.handle.nodes[id.0 - 1].info;
            let after = AbsExec { handle: executor::kill_spec(s.handle, id), ..s };
            forall|k: int|
                0 <= k < drain_trace(after, draws).len() ==> !(#[trigger] drain_trace(
                    after,
                    draws,
                )[k] matches StepOutcome::Run(t) && t.node == victim)
        }),
{
    let victim = s.handle.nodes[id.0 - 1].info;
    let after = AbsExec { handle: executor::kill_spec(s.handle, id), ..s };
    assert(0 <= victim < after.handle.infos.len());
    assert(after.handle.infos[victim].killed);
    lemma_kill_isolation(after, draws, victim);
}

/// A `killed` mark is permanent: no lifecycle operation — another kill, a
/// pause, a resume, a node creation, a spawn, a wake — ever clears it.
/// Together with [`lemma_kill_isolation`] this is kill isolation in full:
/// once a node is killed, every task pinned to its old installment stays
/// dead whatever happens afterwards.
pub proof fn lemma_killed_is_permanent(
    h: AbsHandle,
    id: NodeId,
    nm: Seq<char>,
    has_init: bool,
    cores: u64,
    node_ref: usize,
    t: TaskInfo,
    i: int,
)
    requires
        h.wf(),
        h.is_node(id),
        0 <= i < h.infos.len(),
        h.infos[i].killed,
    ensures
        executor::kill_spec(h, id).infos[i].killed,
        executor::pause_spec(h, id).infos[i].killed,
        executor::resume_spec(h, id).infos[i].killed,
        executor::create_spec(h, nm, has_init, cores).infos[i].killed,
        executor::spawn_spec(h, node_ref).infos[i].killed,
        (AbsHandle { ready: h.ready.push(t), ..h }).infos[i].killed,
{
}

/// Pause isolation: while an installment's `paused` flag stands, no task
/// pinned to it runs — every drain phase parks such tasks instead, and
/// only an explicit `resume` (which is not a drain step) clears the flag.
/// Together with `resume`'s postcondition — the waiting list moves to the
/// ready queue whole and in order — this is the pause half of the
/// pause/resume guarantee.
pub proof fn lemma_pause_isolation(s: AbsExec, draws: Seq<(u64, u64)>, i: int)
    requires
        0 <= i < s.handle.infos.len(),
        s.handle.infos[i].paused,
    ensures
        drain_run(s, draws).handle.infos == s.handle.infos,
        forall|k: int|
            0 <= k < drain_trace(s, draws).len() ==> !(#[trigger] drain_trace(s, draws)[k]
                matches StepOutcome::Run(t) && t.node == i),
    decreases draws.len(),
{
    if draws.len() > 0 {
        let s2 = drain_step(s, draws[0].0, draws[0].1);
        lemma_drain_step_keeps_infos(s, draws[0].0, draws[0].1);
        lemma_pause_isolation(s2, draws.drop_first(), i);
        assert(!(run_next_out(s, draws[0].0) matches StepOutcome::Run(t) && t.node == i));
    }
}

/// Resume requeues whole and in order: clearing a pause moves the node's
/// waiting list to the tail of the ready queue exactly as it accumulated,
/// leaving the list empty — no parked entry is dropped, reordered or
/// duplicated.  From the ready queue, each entry is then subject to the
/// ordinary draw-directed dequeue.
pub proof fn lemma_resume_requeues_in_order(h: AbsHandle, id: NodeId)
    requires
        h.wf(),
        h.is_node(id),
    ensures
        executor::resume_spec(h, id).ready == h.ready + h.nodes[id.0 - 1].waiting,
        executor::resume_spec(h, id).nodes[id.0 - 1].waiting.len() == 0,
        !executor::resume_spec(h, id).infos[h.nodes[id.0 - 1].info].paused,
{
}

/// Pausing is idempotent: a second pause changes nothing, and a resume
/// after a double pause behaves exactly like a resume after one.
pub proof fn lemma_pause_idempotent(h: AbsHandle, id: NodeId)
    requires
        h.wf(),
        h.is_node(id),
    ensures
        executor::pause_spec(executor::pause_spec(h, id), id) =~~= executor::pause_spec(h, id),
{
}

/// Resuming is idempotent in effect: a second resume finds the flag
/// already clear and the waiting list already empty, so it changes
/// nothing.
pub proof fn lemma_resume_idempotent(h: AbsHandle, id: NodeId)
    requires
        h.wf(),
        h.is_node(id),
    ensures
        executor::resume_spec(executor::resume_spec(h, id), id) =~~= executor::resume_spec(h, id),
{
}

/// Killing is idempotent in effect: after one kill or two, the node's
/// registry entry carries an empty waiting list and a fresh installment —
/// same id, same name, one core, neither paused nor killed — and by
/// [`lemma_killed_is_permanent`] every installment the first kill retired
/// stays retired.  (The second kill retires the first kill's replacement,
/// to which no task was ever pinned.)
pub proof fn lemma_kill_idempotent_in_effect(h: AbsHandle, id: NodeId)
    requires
        h.wf(),
        h.is_node(id),
    ensures
        ({
            let once = executor::kill_spec(h, id);
            let twice = executor::kill_spec(once, id);
            &&& once.nodes[id.0 - 1].waiting == twice.nodes[id.0 - 1].waiting
            &&& once.nodes[id.0 - 1].waiting.len() == 0
            &&& once.infos[once.nodes[id.0 - 1].info] =~~= twice.infos[twice.nodes[id.0 - 1].info]
            &&& !once.infos[once.nodes[id.0 - 1].info].killed
            &&& !once.infos[once.nodes[id.0 - 1].info].paused
            &&& once.infos[once.nodes[id.0 - 1].info].cores == 1
            &&& twice.infos[once.nodes[id.0 - 1].info].killed
        }),
{
}

/// Every state a drain phase reaches from a well-formed state with no
/// poll in flight is well-formed again, whatever the draws.
pub proof fn lemma_drain_preserves_wf(s: AbsExec, draws: Seq<(u64, u64)>)
    requires
        s.wf(),
        s.current is None,
    ensures
        drain_run(s, draws).wf(),
        drain_run(s, draws).current is None,
    decreases draws.len(),
{
    if draws.len() > 0 {
        let s2 = drain_step(s, draws[0].0, draws[0].1);
        lemma_drain_step_wf(s, draws[0].0, draws[0].1);
        lemma_drain_preserves_wf(s2, draws.drop_first());
    }
}

/// One drain step from a well-formed state with no poll in flight leaves
/// a well-formed state with no poll in flight.
pub proof fn lemma_drain_step_wf(s: AbsExec, sel: u64, bump: u64)
    requires
        s.wf(),
        s.current is None,
    ensures
        drain_step(s, sel, bump).wf(),
        drain_step(s, sel, bump).current is None,
{
    let h = s.handle;
    if h.ready.len() > 0 {
        let i = crate::queue::pick_index(sel, h.ready.len() as int);
        let ti = h.ready[i];
        assert(h.task_ok(ti));
        let inf = h.infos[ti.node as int];
        if !inf.killed && inf.paused {
            assert(h.live_ok(ti.node as int));
            assert(inf.id.0 >= 1);
        }
        assert forall|j: int|
            0 <= j < drain_step(s, sel, bump).handle.ready.len() implies drain_step(
            s,
            sel,
            bump,
        ).handle.task_ok(#[trigger] drain_step(s, sel, bump).handle.ready[j]) by {
            assert(drain_step(s, sel, bump).handle.ready[j] == if j < i {
                h.ready[j]
            } else {
                h.ready[j + 1]
            });
        }
    }
}

/// A task never runs while it is parked: an entry a drain step parks goes
/// to the waiting list of its own node, whose installment `resume` will
/// move back to the ready queue in order.
pub proof fn lemma_park_targets_own_node(s: AbsExec, sel: u64)
    requires
        s.handle.wf(),
    ensures
        (run_next_out(s, sel) matches StepOutcome::Park(t) ==> s.handle.infos[
            t.node as int
        ].paused),
        (run_next_out(s, sel) matches StepOutcome::Discard(t) ==> s.handle.infos[
            t.node as int
        ].killed),
        (run_next_out(s, sel) matches StepOutcome::Run(t) ==> !s.handle.infos[
            t.node as int
        ].killed && !s.handle.infos[t.node as int].paused),
{
}

} // verus!
