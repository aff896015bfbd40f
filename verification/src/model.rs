//! The mathematical model of the job queue: what a job and a queue are, when
//! a queue is well formed, and what each operation makes of it.

use std::time::SystemTime;
use vstd::prelude::*;

use crate::job_queue::FailReason;
use crate::job_queue::KillError;
use crate::job_queue::QueueState;

verus! {

/// The state of a job, with the failure reason as a sequence of characters.
pub enum JobStateView {
    Queued,
    Running,
    Terminated(i32),
    Killed(i32),
    Failed(Seq<char>),
}

impl JobStateView {
    /// A job in a terminal state has left the queue for good.
    pub open spec fn is_terminal(self) -> bool {
        self is Terminated || self is Killed || self is Failed
    }
}

/// A job as the contracts see it.
pub struct JobView {
    pub id: u64,
    pub cmdline: Seq<char>,
    pub scheduled: SystemTime,
    pub started: Option<SystemTime>,
    pub finished: Option<SystemTime>,
    pub stderr: Seq<char>,
    pub stdout: Seq<char>,
    pub state: JobStateView,
    pub pid: Option<u32>,
}

impl JobView {
    /// The job that a submission creates.
    pub open spec fn fresh(id: u64, cmdline: Seq<char>, now: SystemTime) -> JobView {
        JobView {
            id,
            cmdline,
            scheduled: now,
            started: None,
            finished: None,
            stderr: Seq::empty(),
            stdout: Seq::empty(),
            state: JobStateView::Queued,
            pid: None,
        }
    }

    /// A waiting job has not started, has not finished and has no process.
    pub open spec fn waiting(self) -> bool {
        &&& self.state is Queued
        &&& self.started is None
        &&& self.finished is None
        &&& self.pid is None
    }

    /// A running job has started and has not finished.
    pub open spec fn active(self) -> bool {
        &&& self.state is Running
        &&& self.started is Some
        &&& self.finished is None
    }

    /// A job that is done is in a terminal state, with both time stamps.
    pub open spec fn done(self) -> bool {
        &&& self.state.is_terminal()
        &&& self.started is Some
        &&& self.finished is Some
    }

    /// This job after dispatch at `now`.
    pub open spec fn dispatched(self, now: SystemTime) -> JobView {
        JobView { started: Some(now), state: JobStateView::Running, ..self }
    }

    /// This job with the process id `pid`.
    pub open spec fn with_pid(self, pid: u32) -> JobView {
        JobView { pid: Some(pid), ..self }
    }

    /// This job after it ended at `now` in `state`, with what it printed.
    pub open spec fn ended(
        self,
        state: JobStateView,
        stdout: Seq<char>,
        stderr: Seq<char>,
        now: SystemTime,
    ) -> JobView {
        JobView { finished: Some(now), state, stdout, stderr, ..self }
    }

    /// This job put back to wait, as if it had never been dispatched.
    pub open spec fn requeued(self) -> JobView {
        JobView {
            started: None,
            state: JobStateView::Queued,
            pid: None,
            stderr: Seq::empty(),
            stdout: Seq::empty(),
            ..self
        }
    }
}

/// Whether some job of `jobs` has the id `id`.
pub open spec fn has_id(jobs: Seq<JobView>, id: u64) -> bool {
    exists|i: int| 0 <= i < jobs.len() && (#[trigger] jobs[i]).id == id
}

/// Whether `i` is the first place in `jobs` of a job with the id `id`.
pub open spec fn first_with_id(jobs: Seq<JobView>, id: u64, i: int) -> bool {
    &&& 0 <= i < jobs.len()
    &&& jobs[i].id == id
    &&& forall|k: int| 0 <= k < i ==> (#[trigger] jobs[k]).id != id
}

/// The first place in `jobs` of a job with the id `id`, if there is one.
pub open spec fn find_id(jobs: Seq<JobView>, id: u64) -> Option<int> {
    if exists|i: int| first_with_id(jobs, id, i) {
        Some(choose|i: int| first_with_id(jobs, id, i))
    } else {
        None
    }
}

/// Whether the ids of `jobs` grow strictly from each job to the next.
pub open spec fn ids_increasing(jobs: Seq<JobView>) -> bool {
    forall|i: int, j: int|
        0 <= i < j < jobs.len() ==> (#[trigger] jobs[i]).id < (#[trigger] jobs[j]).id
}

/// The queue as the contracts see it.
pub struct QueueView {
    /// The highest id ever assigned.
    pub last_id: u64,
    pub state: QueueState,
    /// The jobs that wait, in the order of their submission, behind the one
    /// that runs, if any.
    pub queue: Seq<JobView>,
    /// The jobs that are done, in the order in which they ended.
    pub finished: Seq<JobView>,
}

impl QueueView {
    /// An empty queue that dispatches, whose next id follows `last_id`.
    pub open spec fn empty(last_id: u64) -> QueueView {
        QueueView {
            last_id,
            state: QueueState::Running,
            queue: Seq::empty(),
            finished: Seq::empty(),
        }
    }

    /// The jobs that are done followed by those in the queue: every job in
    /// the order in which it was submitted.
    pub open spec fn all_jobs(self) -> Seq<JobView> {
        self.finished + self.queue
    }

    /// Whether the head of the queue is a running job.
    pub open spec fn head_running(self) -> bool {
        self.queue.len() > 0 && self.queue[0].state is Running
    }

    /// Whether the head of the queue is a job that waits.
    pub open spec fn head_waiting(self) -> bool {
        self.queue.len() > 0 && self.queue[0].state is Queued
    }

    /// The invariant of the queue.
    ///
    /// Only the head of the queue may run, and every other job in the queue
    /// waits; the finished jobs are done; a stopped queue runs nothing; the
    /// ids grow strictly along the finished jobs and on along the queue, and
    /// none exceeds `last_id`.
    pub open spec fn wf(self) -> bool {
        &&& self.queue.len() > 0 ==> self.queue[0].waiting() || self.queue[0].active()
        &&& forall|i: int| 0 < i < self.queue.len() ==> (#[trigger] self.queue[i]).waiting()
        &&& forall|i: int| 0 <= i < self.finished.len() ==> (#[trigger] self.finished[i]).done()
        &&& self.state == QueueState::Stopped ==> !self.head_running()
        &&& ids_increasing(self.all_jobs())
        &&& forall|i: int|
            0 <= i < self.all_jobs().len() ==> (#[trigger] self.all_jobs()[i]).id <= self.last_id
    }

    /// The queue after the submission of `cmdline` at `now`.
    pub open spec fn submit(self, cmdline: Seq<char>, now: SystemTime) -> QueueView {
        let id = (self.last_id + 1) as u64;
        QueueView { last_id: id, queue: self.queue.push(JobView::fresh(id, cmdline, now)), ..self }
    }

    /// Whether the queue dispatches its head when asked: it is running and
    /// its head waits.
    pub open spec fn can_dispatch(self) -> bool {
        self.state == QueueState::Running && self.head_waiting()
    }

    /// The queue after it was asked at `now` for the next job to run.
    pub open spec fn schedule(self, now: SystemTime) -> QueueView {
        if self.can_dispatch() {
            QueueView { queue: self.queue.update(0, self.queue[0].dispatched(now)), ..self }
        } else {
            self
        }
    }

    /// The queue after the process `pid` was noted for the job `id`.
    pub open spec fn assign_pid(self, id: u64, pid: u32) -> QueueView {
        if self.head_running() && self.queue[0].id == id {
            QueueView { queue: self.queue.update(0, self.queue[0].with_pid(pid)), ..self }
        } else {
            self
        }
    }

    /// The queue after its head ended at `now` in `state`.
    pub open spec fn finish(
        self,
        state: JobStateView,
        stdout: Seq<char>,
        stderr: Seq<char>,
        now: SystemTime,
    ) -> QueueView {
        if self.queue.len() > 0 {
            QueueView {
                state: if self.state == QueueState::Stopping {
                    QueueState::Stopped
                } else {
                    self.state
                },
                queue: self.queue.drop_first(),
                finished: self.finished.push(self.queue[0].ended(state, stdout, stderr, now)),
                ..self
            }
        } else {
            self
        }
    }

    /// What the removal of the job `id` answers: the job, looked for among
    /// the finished jobs first and then in the queue, or why it stays.
    pub open spec fn remove_result(self, id: u64) -> Result<JobView, FailReason> {
        match find_id(self.finished, id) {
            Some(i) => Ok(self.finished[i]),
            None => match find_id(self.queue, id) {
                Some(i) => if self.queue[i].state is Running {
                    Err(FailReason::WrongJobState)
                } else {
                    Ok(self.queue[i])
                },
                None => Err(FailReason::NoSuchJob),
            },
        }
    }

    /// The queue after the removal of the job `id`.
    pub open spec fn remove(self, id: u64) -> QueueView {
        match find_id(self.finished, id) {
            Some(i) => QueueView { finished: self.finished.remove(i), ..self },
            None => match find_id(self.queue, id) {
                Some(i) => if self.queue[i].state is Running {
                    self
                } else {
                    QueueView { queue: self.queue.remove(i), ..self }
                },
                None => self,
            },
        }
    }

    /// The process that SIGTERM goes to when the job `id` is to be killed:
    /// that of the running job, if `id` names it and its process is known.
    pub open spec fn kill_target(self, id: u64) -> Result<u32, KillError> {
        if self.head_running() && self.queue[0].id == id {
            match self.queue[0].pid {
                Some(pid) => Ok(pid),
                None => Err(KillError::NoProcess),
            }
        } else {
            Err(KillError::NotRunning)
        }
    }

    /// The queue after it was told to take the state `new_state`: a queue
    /// with no job in it stops at once when told to stop after its job.
    pub open spec fn set_state(self, new_state: QueueState) -> QueueView {
        QueueView {
            state: if new_state == QueueState::Stopping && self.queue.len() == 0 {
                QueueState::Stopped
            } else {
                new_state
            },
            ..self
        }
    }

    /// Whether `new_state` may be given to the head of the queue by
    /// [`QueueView::reset_first_job`]: a head that waits is left alone, and
    /// any other is put back to wait or marked as failed.
    pub open spec fn may_reset_to(self, new_state: JobStateView) -> bool {
        self.queue.len() > 0 && !(self.queue[0].state is Queued) ==> new_state is Queued
            || new_state is Failed
    }

    /// The queue after its head, unless it waits, was given `new_state` at
    /// `now`.
    pub open spec fn reset_first_job(self, new_state: JobStateView, now: SystemTime) -> QueueView {
        if self.queue.len() > 0 && !(self.queue[0].state is Queued) {
            match new_state {
                JobStateView::Queued => QueueView {
                    queue: self.queue.update(0, self.queue[0].requeued()),
                    ..self
                },
                JobStateView::Failed(_) => self.finish(new_state, Seq::empty(), Seq::empty(), now),
                _ => self,
            }
        } else {
            self
        }
    }
}

/// One operation on the queue, with all that it is given.
pub enum Op {
    Submit { cmdline: Seq<char>, now: SystemTime },
    Schedule { now: SystemTime },
    AssignPid { id: u64, pid: u32 },
    Finish { state: JobStateView, stdout: Seq<char>, stderr: Seq<char>, now: SystemTime },
    Remove { id: u64 },
    SetState { new_state: QueueState },
    ResetFirstJob { state: JobStateView, now: SystemTime },
}

impl QueueView {
    /// Whether `op` may be applied to the queue: an id is left for a
    /// submission, only a running job ends and only in a terminal state, no
    /// caller stops the queue outright, and a head is reset only to wait or
    /// to have failed.
    pub open spec fn admits(self, op: Op) -> bool {
        match op {
            Op::Submit { .. } => self.last_id < u64::MAX,
            Op::Finish { state, .. } => (self.queue.len() > 0 ==> self.head_running())
                && state.is_terminal(),
            Op::SetState { new_state } => new_state != QueueState::Stopped,
            Op::ResetFirstJob { state, .. } => self.may_reset_to(state),
            _ => true,
        }
    }

    /// The queue after `op`.
    pub open spec fn apply(self, op: Op) -> QueueView {
        match op {
            Op::Submit { cmdline, now } => self.submit(cmdline, now),
            Op::Schedule { now } => self.schedule(now),
            Op::AssignPid { id, pid } => self.assign_pid(id, pid),
            Op::Finish { state, stdout, stderr, now } => self.finish(state, stdout, stderr, now),
            Op::Remove { id } => self.remove(id),
            Op::SetState { new_state } => self.set_state(new_state),
            Op::ResetFirstJob { state, now } => self.reset_first_job(state, now),
        }
    }

    /// Whether the operations `ops` may be applied to the queue one after
    /// the other.
    pub open spec fn admits_all(self, ops: Seq<Op>) -> bool
        decreases ops.len(),
    {
        ops.len() == 0 || (self.admits(ops[0]) && self.apply(ops[0]).admits_all(ops.drop_first()))
    }

    /// The queue after the operations `ops`, applied one after the other.
    pub open spec fn run(self, ops: Seq<Op>) -> QueueView
        decreases ops.len(),
    {
        if ops.len() == 0 {
            self
        } else {
            self.apply(ops[0]).run(ops.drop_first())
        }
    }

    /// The ids that the submissions among `ops` are given, in their order.
    pub open spec fn issued(self, ops: Seq<Op>) -> Seq<u64>
        decreases ops.len(),
    {
        if ops.len() == 0 {
            Seq::empty()
        } else {
            let rest = self.apply(ops[0]).issued(ops.drop_first());
            if ops[0] is Submit {
                seq![(self.last_id + 1) as u64] + rest
            } else {
                rest
            }
        }
    }

    /// The queue after a restart at `now`: a job that was running when the
    /// queue was last seen has failed if the queue was running, and waits
    /// again if the queue was to stop after it.
    pub open spec fn recover(self, now: SystemTime) -> QueueView {
        match self.state {
            QueueState::Stopped => self,
            QueueState::Stopping => self.reset_first_job(JobStateView::Queued, now),
            QueueState::Running => self.reset_first_job(
                JobStateView::Failed(interrupted_text()),
                now,
            ),
        }
    }
}

/// Why a job has failed that was running when the queue was last seen.
pub open spec fn interrupted_text() -> Seq<char> {
    "Interrupted by system failure, please re-submit or ask for assistance"@
}

/// How many of `jobs` are running.
pub open spec fn running_count(jobs: Seq<JobView>) -> nat
    decreases jobs.len(),
{
    if jobs.len() == 0 {
        0
    } else {
        running_count(jobs.drop_last()) + if jobs.last().state is Running {
            1nat
        } else {
            0nat
        }
    }
}

} // verus!
