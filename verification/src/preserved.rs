//! Every operation keeps the invariant of the queue.

use std::time::SystemTime;
use vstd::prelude::*;

use crate::job_queue::QueueState;
use crate::model::find_id;
use crate::model::first_with_id;
use crate::model::has_id;
use crate::model::ids_increasing;
use crate::model::interrupted_text;
use crate::model::JobStateView;
use crate::model::JobView;
use crate::model::Op;
use crate::model::QueueView;

verus! {

/// A submission keeps the invariant.
pub proof fn lemma_submit_wf(q: QueueView, cmdline: Seq<char>, now: SystemTime)
    requires
        q.wf(),
        q.last_id < u64::MAX,
    ensures
        q.submit(cmdline, now).wf(),
{
    let r = q.submit(cmdline, now);
    assert(r.all_jobs() =~= q.all_jobs().push(JobView::fresh(r.last_id, cmdline, now)));
}

/// A dispatch keeps the invariant.
pub proof fn lemma_schedule_wf(q: QueueView, now: SystemTime)
    requires
        q.wf(),
    ensures
        q.schedule(now).wf(),
{
    let r = q.schedule(now);
    if q.can_dispatch() {
        assert(r.all_jobs() =~= q.all_jobs().update(
            q.finished.len() as int,
            q.queue[0].dispatched(now),
        ));
        assert(q.all_jobs()[q.finished.len() as int] == q.queue[0]);
    }
}

/// Noting a process id keeps the invariant.
pub proof fn lemma_assign_pid_wf(q: QueueView, id: u64, pid: u32)
    requires
        q.wf(),
    ensures
        q.assign_pid(id, pid).wf(),
{
    let r = q.assign_pid(id, pid);
    if q.head_running() && q.queue[0].id == id {
        assert(r.all_jobs() =~= q.all_jobs().update(
            q.finished.len() as int,
            q.queue[0].with_pid(pid),
        ));
        assert(q.all_jobs()[q.finished.len() as int] == q.queue[0]);
    }
}

/// The end of the running job keeps the invariant.
pub proof fn lemma_finish_wf(
    q: QueueView,
    state: JobStateView,
    stdout: Seq<char>,
    stderr: Seq<char>,
    now: SystemTime,
)
    requires
        q.wf(),
        q.queue.len() > 0 ==> q.head_running(),
        state.is_terminal(),
    ensures
        q.finish(state, stdout, stderr, now).wf(),
{
    let r = q.finish(state, stdout, stderr, now);
    if q.queue.len() > 0 {
        assert(r.all_jobs() =~= q.all_jobs().update(
            q.finished.len() as int,
            q.queue[0].ended(state, stdout, stderr, now),
        ));
        assert(q.all_jobs()[q.finished.len() as int] == q.queue[0]);
        assert forall|i: int| 0 < i < r.queue.len() implies (#[trigger] r.queue[i]).waiting() by {
            assert(r.queue[i] == q.queue[i + 1]);
        }
        if r.queue.len() > 0 {
            assert(r.queue[0] == q.queue[1]);
        }
    }
}

/// The first place of an id is the one that [`find_id`] gives.
pub proof fn lemma_find_id_first(jobs: Seq<JobView>, id: u64, i: int)
    requires
        first_with_id(jobs, id, i),
    ensures
        find_id(jobs, id) == Some(i),
{
    let c = choose|c: int| first_with_id(jobs, id, c);
    assert(first_with_id(jobs, id, c));
    if c < i {
        assert(jobs[c].id != id);
    }
    if i < c {
        assert(jobs[i].id != id);
    }
}

/// Where no job has the id, [`find_id`] gives nothing.
pub proof fn lemma_find_id_none(jobs: Seq<JobView>, id: u64)
    requires
        forall|k: int| 0 <= k < jobs.len() ==> (#[trigger] jobs[k]).id != id,
    ensures
        find_id(jobs, id) is None,
{
    if exists|i: int| first_with_id(jobs, id, i) {
        let c = choose|c: int| first_with_id(jobs, id, c);
        assert(jobs[c].id != id);
    }
}

/// What [`find_id`] gives is the first place of the id.
pub proof fn lemma_find_id_some(jobs: Seq<JobView>, id: u64)
    ensures
        find_id(jobs, id) matches Some(i) ==> first_with_id(jobs, id, i),
        find_id(jobs, id) is None ==> !has_id(jobs, id),
{
    if find_id(jobs, id) is None {
        if has_id(jobs, id) {
            let w = choose|i: int| 0 <= i < jobs.len() && (#[trigger] jobs[i]).id == id;
            lemma_first_exists(jobs, id, w);
        }
    }
}

/// Where a job has the id, some job is the first to have it.
pub proof fn lemma_first_exists(jobs: Seq<JobView>, id: u64, w: int)
    requires
        0 <= w < jobs.len(),
        jobs[w].id == id,
    ensures
        exists|i: int| first_with_id(jobs, id, i),
    decreases w,
{
    if exists|k: int| 0 <= k < w && (#[trigger] jobs[k]).id == id {
        let k = choose|k: int| 0 <= k < w && (#[trigger] jobs[k]).id == id;
        lemma_first_exists(jobs, id, k);
    } else {
        assert(first_with_id(jobs, id, w));
    }
}

/// A removal keeps the invariant.
pub proof fn lemma_remove_wf(q: QueueView, id: u64)
    requires
        q.wf(),
    ensures
        q.remove(id).wf(),
{
    let r = q.remove(id);
    lemma_find_id_some(q.finished, id);
    lemma_find_id_some(q.queue, id);
    match find_id(q.finished, id) {
        Some(i) => {
            assert(r.all_jobs() =~= q.all_jobs().remove(i));
            lemma_remove_keeps_order(q.all_jobs(), i, q.last_id);
            assert forall|k: int| 0 <= k < r.finished.len() implies (#[trigger] r.finished[k]).done() by {
                if k < i {
                    assert(r.finished[k] == q.finished[k]);
                } else {
                    assert(r.finished[k] == q.finished[k + 1]);
                }
            }
        },
        None => match find_id(q.queue, id) {
            Some(i) => {
                if !(q.queue[i].state is Running) {
                    let n = q.finished.len() as int;
                    assert(r.all_jobs() =~= q.all_jobs().remove(n + i));
                    lemma_remove_keeps_order(q.all_jobs(), n + i, q.last_id);
                    assert forall|k: int| 0 < k < r.queue.len() implies (#[trigger] r.queue[k]).waiting() by {
                        if k < i {
                            assert(r.queue[k] == q.queue[k]);
                        } else {
                            assert(r.queue[k] == q.queue[k + 1]);
                        }
                    }
                    if r.queue.len() > 0 {
                        if i == 0 {
                            assert(r.queue[0] == q.queue[1]);
                        } else {
                            assert(r.queue[0] == q.queue[0]);
                        }
                    }
                }
            },
            None => {},
        },
    }
}

/// The jobs that stay when one leaves keep their order and their bound.
pub proof fn lemma_remove_keeps_order(jobs: Seq<JobView>, i: int, bound: u64)
    requires
        0 <= i < jobs.len(),
        ids_increasing(jobs),
        forall|k: int| 0 <= k < jobs.len() ==> (#[trigger] jobs[k]).id <= bound,
    ensures
        ids_increasing(jobs.remove(i)),
        forall|k: int| 0 <= k < jobs.remove(i).len() ==> (#[trigger] jobs.remove(i)[k]).id <= bound,
{
    let r = jobs.remove(i);
    assert forall|a: int, b: int| 0 <= a < b < r.len() implies (#[trigger] r[a]).id < (#[trigger] r[b]).id by {
        let a2 = if a < i { a } else { a + 1 };
        let b2 = if b < i { b } else { b + 1 };
        assert(r[a] == jobs[a2]);
        assert(r[b] == jobs[b2]);
    }
    assert forall|k: int| 0 <= k < r.len() implies (#[trigger] r[k]).id <= bound by {
        let k2 = if k < i { k } else { k + 1 };
        assert(r[k] == jobs[k2]);
    }
}

/// A reset of the head keeps the invariant.
pub proof fn lemma_reset_first_job_wf(q: QueueView, new_state: JobStateView, now: SystemTime)
    requires
        q.wf(),
        q.may_reset_to(new_state),
    ensures
        q.reset_first_job(new_state, now).wf(),
{
    let r = q.reset_first_job(new_state, now);
    if q.queue.len() > 0 && !(q.queue[0].state is Queued) {
        match new_state {
            JobStateView::Queued => {
                assert(r.all_jobs() =~= q.all_jobs().update(
                    q.finished.len() as int,
                    q.queue[0].requeued(),
                ));
                assert(q.all_jobs()[q.finished.len() as int] == q.queue[0]);
            },
            JobStateView::Failed(_) => {
                lemma_finish_wf(q, new_state, Seq::empty(), Seq::empty(), now);
            },
            _ => {},
        }
    }
}

/// A change of the queue's state keeps the invariant, unless it is to stop
/// the queue outright.
pub proof fn lemma_set_state_wf(q: QueueView, new_state: QueueState)
    requires
        q.wf(),
        new_state != QueueState::Stopped,
    ensures
        q.set_state(new_state).wf(),
{
    assert(q.set_state(new_state).all_jobs() =~= q.all_jobs());
}

/// An empty queue keeps the invariant.
pub proof fn lemma_empty_wf(last_id: u64)
    ensures
        QueueView::empty(last_id).wf(),
{
    assert(QueueView::empty(last_id).all_jobs() =~= Seq::empty());
}

/// Every operation that the queue admits keeps the invariant, and none
/// lowers the highest id.
pub proof fn lemma_step(q: QueueView, op: Op)
    requires
        q.wf(),
        q.admits(op),
    ensures
        q.apply(op).wf(),
        q.apply(op).last_id >= q.last_id,
{
    match op {
        Op::Submit { cmdline, now } => lemma_submit_wf(q, cmdline, now),
        Op::Schedule { now } => lemma_schedule_wf(q, now),
        Op::AssignPid { id, pid } => lemma_assign_pid_wf(q, id, pid),
        Op::Finish { state, stdout, stderr, now } => lemma_finish_wf(q, state, stdout, stderr, now),
        Op::Remove { id } => lemma_remove_wf(q, id),
        Op::SetState { new_state } => lemma_set_state_wf(q, new_state),
        Op::ResetFirstJob { state, now } => lemma_reset_first_job_wf(q, state, now),
    }
}

/// A restart keeps the invariant.
pub proof fn lemma_recover_wf(q: QueueView, now: SystemTime)
    requires
        q.wf(),
    ensures
        q.recover(now).wf(),
{
    match q.state {
        QueueState::Stopped => {},
        QueueState::Stopping => lemma_reset_first_job_wf(q, JobStateView::Queued, now),
        QueueState::Running => lemma_reset_first_job_wf(
            q,
            JobStateView::Failed(interrupted_text()),
            now,
        ),
    }
}

} // verus!
