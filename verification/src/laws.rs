//! What holds of the queue because it keeps its invariant: the order of
//! the jobs, the growth of the ids, the single running job, and what a
//! restart and a request make of the queue.

use std::time::SystemTime;
use vstd::prelude::*;

use crate::dispatch::accepts_state;
use crate::dispatch::accepts_submission;
use crate::dispatch::carried_out;
use crate::dispatch::queue_after;
use crate::dispatch::step_after;
use crate::dispatch::StepView;
use crate::preserved::lemma_assign_pid_wf;
use crate::preserved::lemma_empty_wf;
use crate::preserved::lemma_finish_wf;
use crate::preserved::lemma_recover_wf;
use crate::preserved::lemma_remove_wf;
use crate::preserved::lemma_schedule_wf;
use crate::preserved::lemma_set_state_wf;
use crate::preserved::lemma_step;
use crate::preserved::lemma_submit_wf;
use crate::job_queue::QueueState;
use crate::model::interrupted_text;
use crate::model::running_count;
use crate::model::JobStateView;
use crate::model::JobView;
use crate::model::Op;
use crate::model::QueueView;
use crate::protocol::RequestView;
use crate::protocol::ResponseView;
use crate::state::restored;
use crate::state::DEFAULT_STATE_LAST_ID;

verus! {

/// The invariant holds after every operation: whatever operations are
/// applied to a well-formed queue, in whatever order, the queue is well
/// formed after each of them.
pub proof fn law_invariant_after_every_operation(q: QueueView, ops: Seq<Op>, n: int)
    requires
        q.wf(),
        q.admits_all(ops),
        0 <= n <= ops.len(),
    ensures
        q.run(ops.take(n)).wf(),
        q.run(ops.take(n)).last_id >= q.last_id,
    decreases n,
{
    if n > 0 {
        lemma_step(q, ops[0]);
        assert(ops.take(n).drop_first() =~= ops.drop_first().take(n - 1));
        assert(ops.take(n)[0] == ops[0]);
        law_invariant_after_every_operation(q.apply(ops[0]), ops.drop_first(), n - 1);
    } else {
        assert(ops.take(0).len() == 0);
    }
}

/// Every id that a run of operations issues is above the highest id that
/// the queue had before.
pub proof fn lemma_issued_above(q: QueueView, ops: Seq<Op>, i: int)
    requires
        q.wf(),
        q.admits_all(ops),
        0 <= i < q.issued(ops).len(),
    ensures
        q.issued(ops)[i] > q.last_id,
    decreases ops.len(),
{
    if ops.len() > 0 {
        lemma_step(q, ops[0]);
        let next = q.apply(ops[0]);
        let rest = next.issued(ops.drop_first());
        if ops[0] is Submit {
            if i > 0 {
                assert(q.issued(ops)[i] == rest[i - 1]);
                lemma_issued_above(next, ops.drop_first(), i - 1);
            }
        } else {
            lemma_issued_above(next, ops.drop_first(), i);
        }
    }
}

/// Monotonic ids: the ids that the submissions of a run are given grow
/// strictly, whatever other operations stand between them.
pub proof fn law_issued_ids_increase(q: QueueView, ops: Seq<Op>, i: int, j: int)
    requires
        q.wf(),
        q.admits_all(ops),
        0 <= i < j < q.issued(ops).len(),
    ensures
        q.issued(ops)[i] < q.issued(ops)[j],
    decreases ops.len(),
{
    if ops.len() > 0 {
        lemma_step(q, ops[0]);
        let next = q.apply(ops[0]);
        let rest = next.issued(ops.drop_first());
        if ops[0] is Submit {
            assert(q.issued(ops)[j] == rest[j - 1]);
            if i == 0 {
                assert(next.last_id == q.last_id + 1);
                lemma_issued_above(next, ops.drop_first(), j - 1);
            } else {
                assert(q.issued(ops)[i] == rest[i - 1]);
                law_issued_ids_increase(next, ops.drop_first(), i - 1, j - 1);
            }
        } else {
            law_issued_ids_increase(next, ops.drop_first(), i, j);
        }
    }
}

/// First in, first out: of two jobs in a well-formed queue, the one with
/// the lower id was submitted first. If both are in the queue it stands
/// before the other; if both are finished it ended before the other; and it
/// is never still in the queue when the other is finished or running.
pub proof fn law_first_in_first_out(q: QueueView, a: int, b: int)
    requires
        q.wf(),
    ensures
        0 <= a < q.queue.len() && 0 <= b < q.queue.len() && q.queue[a].id < q.queue[b].id ==> a < b,
        0 <= a < q.finished.len() && 0 <= b < q.finished.len() && q.finished[a].id
            < q.finished[b].id ==> a < b,
        0 <= a < q.queue.len() && 0 <= b < q.finished.len() ==> q.finished[b].id < q.queue[a].id,
        0 <= a < q.queue.len() && 0 <= b < q.queue.len() && q.queue[b].state is Running ==> q.queue[b].id
            <= q.queue[a].id,
{
    let all = q.all_jobs();
    let n = q.finished.len() as int;
    if 0 <= a < q.queue.len() && 0 <= b < q.queue.len() {
        assert(all[n + a] == q.queue[a]);
        assert(all[n + b] == q.queue[b]);
        if b < a {
            assert(all[n + b].id < all[n + a].id);
        }
    }
    if 0 <= a < q.finished.len() && 0 <= b < q.finished.len() {
        assert(all[a] == q.finished[a]);
        assert(all[b] == q.finished[b]);
        if b < a {
            assert(all[b].id < all[a].id);
        }
    }
    if 0 <= a < q.queue.len() && 0 <= b < q.finished.len() {
        assert(all[n + a] == q.queue[a]);
        assert(all[b] == q.finished[b]);
        assert(all[b].id < all[n + a].id);
    }
}

/// In a well-formed queue no two jobs share an id.
pub proof fn law_ids_unique(q: QueueView, a: int, b: int)
    requires
        q.wf(),
        0 <= a < q.all_jobs().len(),
        0 <= b < q.all_jobs().len(),
        q.all_jobs()[a].id == q.all_jobs()[b].id,
    ensures
        a == b,
{
    if a < b {
        assert(q.all_jobs()[a].id < q.all_jobs()[b].id);
    }
    if b < a {
        assert(q.all_jobs()[b].id < q.all_jobs()[a].id);
    }
}

/// Where at most the first of `jobs` runs, the number of running jobs says
/// whether it does.
pub proof fn lemma_running_count_head(jobs: Seq<JobView>)
    requires
        forall|i: int| 0 < i < jobs.len() ==> !((#[trigger] jobs[i]).state is Running),
    ensures
        running_count(jobs) == if jobs.len() > 0 && jobs[0].state is Running {
            1nat
        } else {
            0nat
        },
    decreases jobs.len(),
{
    if jobs.len() > 0 {
        let init = jobs.drop_last();
        assert forall|i: int| 0 < i < init.len() implies !((#[trigger] init[i]).state is Running) by {
            assert(init[i] == jobs[i]);
        }
        lemma_running_count_head(init);
        if jobs.len() > 1 {
            assert(init[0] == jobs[0]);
            assert(!(jobs[jobs.len() - 1].state is Running));
        }
    }
}

/// Where none of `jobs` runs, the number of running jobs is zero.
pub proof fn lemma_running_count_none(jobs: Seq<JobView>)
    requires
        forall|i: int| 0 <= i < jobs.len() ==> !((#[trigger] jobs[i]).state is Running),
    ensures
        running_count(jobs) == 0,
    decreases jobs.len(),
{
    if jobs.len() > 0 {
        let init = jobs.drop_last();
        assert forall|i: int| 0 <= i < init.len() implies !((#[trigger] init[i]).state is Running) by {
            assert(init[i] == jobs[i]);
        }
        lemma_running_count_none(init);
        assert(!(jobs[jobs.len() - 1].state is Running));
    }
}

/// At most one running: in a well-formed queue at most one job runs, and
/// the one that runs is the head of the queue.
pub proof fn law_at_most_one_running(q: QueueView)
    requires
        q.wf(),
    ensures
        running_count(q.queue) + running_count(q.finished) <= 1,
        running_count(q.queue) + running_count(q.finished) == 1 <==> q.head_running(),
        forall|i: int| 0 <= i < q.queue.len() && (#[trigger] q.queue[i]).state is Running ==> i == 0,
        forall|i: int| 0 <= i < q.finished.len() ==> !((#[trigger] q.finished[i]).state is Running),
{
    assert forall|i: int| 0 < i < q.queue.len() implies !((#[trigger] q.queue[i]).state is Running) by {
        assert(q.queue[i].waiting());
    }
    assert forall|i: int| 0 <= i < q.finished.len() implies !((#[trigger] q.finished[i]).state is Running) by {
        assert(q.finished[i].done());
    }
    lemma_running_count_head(q.queue);
    lemma_running_count_none(q.finished);
}

/// A stopped queue runs nothing, and a queue that is not running dispatches
/// nothing: asked for the next job, it stays as it is.
pub proof fn law_no_dispatch_unless_running(q: QueueView, now: SystemTime)
    requires
        q.wf(),
        q.state != QueueState::Running,
    ensures
        q.schedule(now) == q,
        q.state == QueueState::Stopped ==> running_count(q.queue) + running_count(q.finished) == 0,
{
    law_at_most_one_running(q);
}

/// A dispatch is complete when the process of the dispatched job has been
/// noted: the head of the queue then runs, with a start time and that
/// process.
pub proof fn law_dispatch_completes(q: QueueView, now: SystemTime, pid: u32)
    requires
        q.wf(),
        q.can_dispatch(),
    ensures
        ({
            let r = q.schedule(now).assign_pid(q.queue[0].id, pid);
            &&& r.wf()
            &&& r.queue[0] == q.queue[0].dispatched(now).with_pid(pid)
            &&& r.queue[0].active()
            &&& r.queue[0].pid == Some(pid)
        }),
{
    lemma_schedule_wf(q, now);
    lemma_assign_pid_wf(q.schedule(now), q.queue[0].id, pid);
}

/// Recovery: after a restart of a well-formed queue the invariant holds and
/// no job runs. A job that was running in a running queue has ended as
/// failed, with the text of [`interrupted_text`], and the jobs behind it
/// have moved up; a job that was running in a queue that was to stop after
/// it waits again at the head, as if it had never been dispatched. A second
/// restart changes nothing.
pub proof fn law_recovery(q: QueueView, now: SystemTime, again: SystemTime)
    requires
        q.wf(),
    ensures
        q.recover(now).wf(),
        !q.recover(now).head_running(),
        q.recover(now).state == q.state,
        q.recover(now).last_id == q.last_id,
        q.state == QueueState::Running && q.head_running() ==> {
            &&& q.recover(now).queue == q.queue.drop_first()
            &&& q.recover(now).finished == q.finished.push(
                q.queue[0].ended(
                    JobStateView::Failed(interrupted_text()),
                    Seq::empty(),
                    Seq::empty(),
                    now,
                ),
            )
        },
        q.state == QueueState::Stopping && q.head_running() ==> {
            &&& q.recover(now).queue == q.queue.update(0, q.queue[0].requeued())
            &&& q.recover(now).queue[0].waiting()
            &&& q.recover(now).finished == q.finished
        },
        !q.head_running() ==> q.recover(now) == q,
        q.recover(now).recover(again) == q.recover(now),
{
    lemma_recover_wf(q, now);
    let r = q.recover(now);
    if q.queue.len() > 0 && q.state == QueueState::Running && q.head_running() {
        if r.queue.len() > 0 {
            assert(r.queue[0] == q.queue[1]);
            assert(q.queue[1].waiting());
        }
    }
}

/// Of two submissions the first is given the lower id and stands before
/// the second in the queue, where both then are.
pub proof fn law_submissions_keep_their_order(
    q: QueueView,
    first: Seq<char>,
    second: Seq<char>,
    t1: SystemTime,
    t2: SystemTime,
)
    requires
        q.wf(),
        q.last_id + 2 <= u64::MAX,
    ensures
        ({
            let r = q.submit(first, t1).submit(second, t2);
            let n = q.queue.len() as int;
            &&& r.wf()
            &&& r.queue.len() == n + 2
            &&& r.queue[n] == JobView::fresh((q.last_id + 1) as u64, first, t1)
            &&& r.queue[n + 1] == JobView::fresh((q.last_id + 2) as u64, second, t2)
            &&& r.queue.take(n) == q.queue
            &&& r.finished == q.finished
        }),
{
    lemma_submit_wf(q, first, t1);
    lemma_submit_wf(q.submit(first, t1), second, t2);
    let r = q.submit(first, t1).submit(second, t2);
    assert(r.queue.take(q.queue.len() as int) =~= q.queue);
}

/// What the daemon stored is what it starts with: a well-formed queue that
/// is read back as it was taken apart is restored unchanged.
pub proof fn law_stored_queue_is_restored(q: QueueView)
    requires
        q.wf(),
    ensures
        restored(Some(q)) == q,
        restored(Some(q)).wf(),
        restored(None) == QueueView::empty(DEFAULT_STATE_LAST_ID),
        restored(None).wf(),
{
    lemma_empty_wf(DEFAULT_STATE_LAST_ID);
}

/// First in, first out, along a run: of two jobs that were submitted in
/// the course of the operations `ops`, the one submitted first stands before
/// the other where both are in the queue at the end, and is no longer in
/// the queue where the other is finished by then.
pub proof fn law_run_is_first_in_first_out(
    q: QueueView,
    ops: Seq<Op>,
    i: int,
    j: int,
    x: int,
    y: int,
)
    requires
        q.wf(),
        q.admits_all(ops),
        0 <= i < j < q.issued(ops).len(),
    ensures
        ({
            let r = q.run(ops);
            let first = q.issued(ops)[i];
            let second = q.issued(ops)[j];
            &&& r.wf()
            &&& first < second
            &&& 0 <= x < r.queue.len() && 0 <= y < r.queue.len() && r.queue[x].id == first
                && r.queue[y].id == second ==> x < y
            &&& 0 <= x < r.queue.len() && 0 <= y < r.finished.len() && r.finished[y].id == second
                ==> r.queue[x].id != first
            &&& 0 <= x < r.finished.len() && 0 <= y < r.finished.len() && r.finished[x].id == first
                && r.finished[y].id == second ==> x < y
        }),
{
    assert(ops.take(ops.len() as int) =~= ops);
    law_invariant_after_every_operation(q, ops, ops.len() as int);
    law_issued_ids_increase(q, ops, i, j);
    let r = q.run(ops);
    law_first_in_first_out(r, x, y);
    law_first_in_first_out(r, y, x);
}

/// Once a submission is answered, the job is there to be seen: a request
/// for the queued jobs that follows lists it last, under the id that the
/// answer gave.
pub proof fn law_submitted_job_is_listed(q: QueueView, cmdline: Seq<char>, now: SystemTime)
    requires
        q.wf(),
        accepts_submission(q, cmdline),
    ensures
        ({
            let after = queue_after(q, RequestView::SubmitJob(cmdline), now);
            let id = (q.last_id + 1) as u64;
            &&& after.wf()
            &&& step_after(q, RequestView::SubmitJob(cmdline)) == StepView::Answer(
                carried_out(ResponseView::SubmitJob(id), true, true),
            )
            &&& step_after(after, RequestView::GetQueuedJobs) == StepView::Answer(
                carried_out(ResponseView::GetJobs(after.queue), false, false),
            )
            &&& after.queue.len() == q.queue.len() + 1
            &&& after.queue.last() == JobView::fresh(id, cmdline, now)
        }),
{
    lemma_submit_wf(q, cmdline, now);
}

/// No request breaks the invariant, and none lowers the highest id.
pub proof fn law_requests_keep_the_invariant(q: QueueView, request: RequestView, now: SystemTime)
    requires
        q.wf(),
    ensures
        queue_after(q, request, now).wf(),
        queue_after(q, request, now).last_id >= q.last_id,
{
    match request {
        RequestView::SubmitJob(cmdline) => {
            if accepts_submission(q, cmdline) {
                lemma_submit_wf(q, cmdline, now);
            }
        },
        RequestView::RemoveJob(id) => lemma_remove_wf(q, id),
        RequestView::SetQueueState(state) => {
            if accepts_state(state) {
                lemma_set_state_wf(q, state);
            }
        },
        _ => {},
    }
}

/// When the running job has ended in a running queue, the job behind it is
/// the next to be dispatched.
pub proof fn law_next_job_follows(
    q: QueueView,
    state: JobStateView,
    stdout: Seq<char>,
    stderr: Seq<char>,
    now: SystemTime,
    then: SystemTime,
)
    requires
        q.wf(),
        q.head_running(),
        q.queue.len() >= 2,
        q.state == QueueState::Running,
        state.is_terminal(),
    ensures
        ({
            let ended = q.finish(state, stdout, stderr, now);
            &&& ended.can_dispatch()
            &&& ended.schedule(then).queue[0] == q.queue[1].dispatched(then)
            &&& ended.schedule(then).wf()
        }),
{
    lemma_finish_wf(q, state, stdout, stderr, now);
    let ended = q.finish(state, stdout, stderr, now);
    assert(ended.queue[0] == q.queue[1]);
    assert(q.queue[1].waiting());
    lemma_schedule_wf(ended, then);
}

} // verus!
