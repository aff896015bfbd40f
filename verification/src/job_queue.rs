//! The job queue: its jobs, its states and the operations that move a job
//! from submission to a terminal state.

use std::time::SystemTime;
use vstd::prelude::*;
use vstd::std_specs::iter::IteratorSpec;

use crate::model::JobStateView;
use crate::model::JobView;
use crate::model::QueueView;
use crate::trusted::now;

verus! {

/// The current state of a single job.
#[derive(Debug, PartialEq)]
pub enum JobState {
    /// Queued and waiting for execution.
    Queued,
    /// Currently running, at the head of the queue.
    Running,
    /// The process has exited with the given value.
    Terminated(i32),
    /// The process has been killed by the given signal.
    Killed(i32),
    /// The process could not be launched or was aborted.
    Failed(String),
}

impl View for JobState {
    type V = JobStateView;

    open spec fn view(&self) -> JobStateView {
        match self {
            JobState::Queued => JobStateView::Queued,
            JobState::Running => JobStateView::Running,
            JobState::Terminated(code) => JobStateView::Terminated(*code),
            JobState::Killed(signal) => JobStateView::Killed(*signal),
            JobState::Failed(reason) => JobStateView::Failed(reason@),
        }
    }
}

impl Clone for JobState {
    fn clone(&self) -> (res: Self)
        ensures
            res == *self,
    {
        match self {
            JobState::Queued => JobState::Queued,
            JobState::Running => JobState::Running,
            JobState::Terminated(code) => JobState::Terminated(*code),
            JobState::Killed(signal) => JobState::Killed(*signal),
            JobState::Failed(reason) => JobState::Failed(reason.clone()),
        }
    }
}

/// The reason a job-specific command could not be processed.
#[derive(Debug, PartialEq, Eq, Clone, Copy, Structural)]
pub enum FailReason {
    /// The job is in the wrong state, as when a running job is to be removed.
    WrongJobState,
    /// There is no such job.
    NoSuchJob,
}

/// The reason a job could not be sent SIGTERM.
#[derive(Debug, PartialEq, Eq, Clone, Copy, Structural)]
pub enum KillError {
    /// No running job has the id.
    NotRunning,
    /// The job runs, but its process is not known yet.
    NoProcess,
    /// The kill command has ended with the given code, which is not zero.
    Refused(i32),
    /// The kill command has ended without an exit code.
    NoExitCode,
}

/// The state of the job queue.
#[derive(Debug, PartialEq, Eq, Clone, Copy, Structural)]
pub enum QueueState {
    /// The queue is idle or executing a job.
    Running,
    /// The job that runs now is the last before the queue stops.
    Stopping,
    /// The queue is stopped and dispatches nothing.
    Stopped,
}

/// A job.
#[derive(Debug)]
pub struct Job {
    /// The unique job id.
    pub id: u64,
    /// The command to be executed.
    pub cmdline: String,
    /// When the job entered the queue.
    pub scheduled: SystemTime,
    /// When the job was dispatched.
    pub started: Option<SystemTime>,
    /// When the job ended.
    pub finished: Option<SystemTime>,
    /// What the job wrote to its standard error.
    pub stderr: String,
    /// What the job wrote to its standard output.
    pub stdout: String,
    /// The current state of the job.
    pub state: JobState,
    /// The process that runs or ran the job.
    pub pid: Option<u32>,
}

impl View for Job {
    type V = JobView;

    open spec fn view(&self) -> JobView {
        JobView {
            id: self.id,
            cmdline: self.cmdline@,
            scheduled: self.scheduled,
            started: self.started,
            finished: self.finished,
            stderr: self.stderr@,
            stdout: self.stdout@,
            state: self.state@,
            pid: self.pid,
        }
    }
}

impl Clone for Job {
    fn clone(&self) -> (res: Self)
        ensures
            res == *self,
    {
        Job {
            id: self.id,
            cmdline: self.cmdline.clone(),
            scheduled: self.scheduled,
            started: self.started,
            finished: self.finished,
            stderr: self.stderr.clone(),
            stdout: self.stdout.clone(),
            state: self.state.clone(),
            pid: self.pid,
        }
    }
}

/// The views of `jobs`, one for one.
pub open spec fn job_views(jobs: Seq<Job>) -> Seq<JobView> {
    Seq::new(jobs.len(), |i: int| jobs[i]@)
}

/// The job queue itself.
#[derive(Debug)]
pub struct JobQueue {
    /// The last id assigned to a job.
    last_id: u64,
    /// The state of the queue.
    state: QueueState,
    /// The queued jobs, the one that runs first.
    queue: Vec<Job>,
    /// The finished jobs.
    finished: Vec<Job>,
}

impl View for JobQueue {
    type V = QueueView;

    closed spec fn view(&self) -> QueueView {
        QueueView {
            last_id: self.last_id,
            state: self.state,
            queue: job_views(self.queue@),
            finished: job_views(self.finished@),
        }
    }
}

impl Clone for JobQueue {
    fn clone(&self) -> (res: Self)
        ensures
            res@ == self@,
    {
        JobQueue {
            last_id: self.last_id,
            state: self.state,
            queue: copy_jobs(&self.queue),
            finished: copy_jobs(&self.finished),
        }
    }
}

impl JobQueue {
    /// Whether the queue keeps its invariant, which every queue does that
    /// this library hands out.
    pub open spec fn wf(&self) -> bool {
        self@.wf()
    }

    /// Creates a job queue with the given last id. The first id to be
    /// assigned will be `last_id + 1`.
    pub fn new(last_id: u64) -> (q: JobQueue)
        ensures
            q@ == QueueView::empty(last_id),
            q.wf(),
    {
        let q = JobQueue {
            last_id,
            state: QueueState::Running,
            queue: Vec::new(),
            finished: Vec::new(),
        };
        assert(q@.queue =~= Seq::empty());
        assert(q@.finished =~= Seq::empty());
        q
    }

    /// Submits a new job at the time `now` and returns the id assigned to it.
    pub fn submit_at(&mut self, cmdline: String, now: SystemTime) -> (id: u64)
        requires
            old(self).wf(),
            old(self)@.last_id < u64::MAX,
        ensures
            final(self)@ == old(self)@.submit(cmdline@, now),
            final(self).wf(),
            id == old(self)@.last_id + 1,
    {
        let job = Job {
            id: self.last_id + 1,
            cmdline,
            scheduled: now,
            started: None,
            finished: None,
            stderr: String::new(),
            stdout: String::new(),
            state: JobState::Queued,
            pid: None,
        };
        self.last_id = self.last_id + 1;
        self.queue.push(job);
        proof {
            assert(self@.queue =~= old(self)@.queue.push(
                JobView::fresh(self.last_id, cmdline@, now),
            ));
            crate::preserved::lemma_submit_wf(old(self)@, cmdline@, now);
        }
        self.last_id
    }

    /// Submits a new job to the queue and returns the id assigned to it. The
    /// job is stamped with the time of the call.
    pub fn submit(&mut self, cmdline: String) -> (id: u64)
        requires
            old(self).wf(),
            old(self)@.last_id < u64::MAX,
        ensures
            exists|t: SystemTime| final(self)@ == #[trigger] old(self)@.submit(cmdline@, t),
            final(self).wf(),
            id == old(self)@.last_id + 1,
    {
        let t = now();
        self.submit_at(cmdline, t)
    }

    /// Builds a queue from its four parts, as they come from a stored
    /// document, if together they keep the invariant of the queue.
    pub fn from_parts(
        last_id: u64,
        state: QueueState,
        queue: Vec<Job>,
        finished: Vec<Job>,
    ) -> (res: Option<JobQueue>)
        ensures
            match res {
                Some(q) => q@ == parts_view(last_id, state, queue@, finished@) && q.wf(),
                None => !parts_view(last_id, state, queue@, finished@).wf(),
            },
    {
        let ghost view = parts_view(last_id, state, queue@, finished@);
        let ghost all = view.all_jobs();
        let mut bound: Option<u64> = None;
        let mut i: usize = 0;
        while i < finished.len()
            invariant
                i <= finished.len(),
                view == parts_view(last_id, state, queue@, finished@),
                all == view.all_jobs(),
                forall|k: int| 0 <= k < i ==> (#[trigger] view.finished[k]).done(),
                forall|a: int, b: int|
                    0 <= a < b < i ==> (#[trigger] all[a]).id < (#[trigger] all[b]).id,
                forall|k: int| 0 <= k < i ==> (#[trigger] all[k]).id <= last_id,
                i == 0 <==> bound is None,
                bound matches Some(top) ==> top == all[i - 1].id,
            decreases finished.len() - i,
        {
            let job = &finished[i];
            assert(all[i as int] == view.finished[i as int]);
            assert(view.finished[i as int] == job@);
            if !is_done(job) || job.id > last_id || !above(bound, job.id) {
                proof {
                    if i > 0 {
                        assert(all[i - 1].id == bound->0);
                    }
                }
                return None;
            }
            proof {
                assert forall|a: int, b: int| 0 <= a < b < i + 1 implies (#[trigger] all[a]).id < (
                #[trigger] all[b]).id by {
                    if b == i && a < i - 1 {
                        assert(all[a].id < all[i - 1].id);
                    }
                }
            }
            bound = Some(job.id);
            i += 1;
        }
        let n = finished.len();
        let mut j: usize = 0;
        while j < queue.len()
            invariant
                j <= queue.len(),
                n == finished.len(),
                view == parts_view(last_id, state, queue@, finished@),
                all == view.all_jobs(),
                forall|k: int| 0 <= k < n ==> (#[trigger] view.finished[k]).done(),
                j > 0 ==> view.queue[0].waiting() || view.queue[0].active(),
                forall|k: int| 0 < k < j ==> (#[trigger] view.queue[k]).waiting(),
                forall|a: int, b: int|
                    0 <= a < b < n + j ==> (#[trigger] all[a]).id < (#[trigger] all[b]).id,
                forall|k: int| 0 <= k < n + j ==> (#[trigger] all[k]).id <= last_id,
                n + j == 0 <==> bound is None,
                bound matches Some(top) ==> top == all[n + j - 1].id,
            decreases queue.len() - j,
        {
            let job = &queue[j];
            assert(all[n + j] == view.queue[j as int]);
            assert(view.queue[j as int] == job@);
            let shaped = is_waiting(job) || (j == 0 && is_active(job));
            if !shaped || job.id > last_id || !above(bound, job.id) {
                proof {
                    if n + j > 0 {
                        assert(all[n + j - 1].id == bound->0);
                    }
                }
                return None;
            }
            proof {
                assert forall|a: int, b: int| 0 <= a < b < n + j + 1 implies (#[trigger] all[a]).id < (
                #[trigger] all[b]).id by {
                    if b == n + j && a < n + j - 1 {
                        assert(all[a].id < all[n + j - 1].id);
                    }
                }
            }
            bound = Some(job.id);
            j += 1;
        }
        if matches!(state, QueueState::Stopped) && queue.len() > 0 {
            if matches!(queue[0].state, JobState::Running) {
                return None;
            }
        }
        Some(JobQueue { last_id, state, queue, finished })
    }

    /// Returns the last id assigned to a job.
    pub fn last_id(&self) -> (id: u64)
        ensures
            id == self@.last_id,
    {
        self.last_id
    }

    /// Copies of the queued jobs, the running one first.
    pub fn queued_jobs(&self) -> (jobs: Vec<Job>)
        ensures
            job_views(jobs@) == self@.queue,
    {
        copy_jobs(&self.queue)
    }

    /// Copies of the finished jobs, in the order in which they ended.
    pub fn finished_jobs(&self) -> (jobs: Vec<Job>)
        ensures
            job_views(jobs@) == self@.finished,
    {
        copy_jobs(&self.finished)
    }

    /// Provides an iterator over the queued jobs, the running one first.
    pub fn iter_queued(&self) -> (jobs: std::slice::Iter<'_, Job>)
        ensures
            jobs.remaining().len() == self@.queue.len(),
            forall|i: int|
                0 <= i < self@.queue.len() ==> (#[trigger] jobs.remaining()[i])@ == self@.queue[i],
    {
        broadcast use vstd::std_specs::slice::axiom_spec_slice_iter;
        self.queue.as_slice().iter()
    }

    /// Provides an iterator over the finished jobs, in the order in which
    /// they ended.
    pub fn iter_finished(&self) -> (jobs: std::slice::Iter<'_, Job>)
        ensures
            jobs.remaining().len() == self@.finished.len(),
            forall|i: int|
                0 <= i < self@.finished.len() ==> (#[trigger] jobs.remaining()[i])@
                    == self@.finished[i],
    {
        broadcast use vstd::std_specs::slice::axiom_spec_slice_iter;
        self.finished.as_slice().iter()
    }

    /// Returns the state of the queue.
    pub fn get_state(&self) -> (state: QueueState)
        ensures
            state == self@.state,
    {
        self.state
    }

    /// Sets the state of the queue. A queue with no job in it stops at once
    /// when told to stop after its job. No caller may stop the queue
    /// outright: it stops by itself when its last job has ended.
    pub fn set_state(&mut self, new_state: QueueState)
        requires
            old(self).wf(),
            new_state != QueueState::Stopped,
        ensures
            final(self)@ == old(self)@.set_state(new_state),
            final(self).wf(),
    {
        let empty = self.queue.len() == 0;
        self.state = match new_state {
            QueueState::Stopping => if empty {
                QueueState::Stopped
            } else {
                QueueState::Stopping
            },
            other => other,
        };
    }

    /// Dispatches the head of the queue at the time `now`, if the queue is
    /// running and its head waits, and returns a copy of the job as it then
    /// is. Otherwise nothing changes and nothing is returned.
    pub fn schedule_at(&mut self, now: SystemTime) -> (job: Option<Job>)
        requires
            old(self).wf(),
        ensures
            final(self)@ == old(self)@.schedule(now),
            final(self).wf(),
            job is Some <==> old(self)@.can_dispatch(),
            job matches Some(j) ==> j@ == final(self)@.queue[0],
    {
        if !matches!(self.state, QueueState::Running) || self.queue.len() == 0 {
            return None;
        }
        if !matches!(self.queue[0].state, JobState::Queued) {
            return None;
        }
        self.queue[0].started = Some(now);
        self.queue[0].state = JobState::Running;
        let job = self.queue[0].clone();
        proof {
            assert(self@.queue =~= old(self)@.queue.update(0, old(self)@.queue[0].dispatched(now)));
            crate::preserved::lemma_schedule_wf(old(self)@, now);
        }
        Some(job)
    }

    /// Returns the head of the queue if it is to be executed now, marked as
    /// running since the time of the call.
    pub fn schedule(&mut self) -> (job: Option<Job>)
        requires
            old(self).wf(),
        ensures
            exists|t: SystemTime| final(self)@ == #[trigger] old(self)@.schedule(t),
            final(self).wf(),
            job is Some <==> old(self)@.can_dispatch(),
            job matches Some(j) ==> j@ == final(self)@.queue[0],
    {
        let t = now();
        self.schedule_at(t)
    }

    /// Assigns a process id to the running job, if `jobid` names it, and
    /// does nothing otherwise.
    pub fn assign_pid(&mut self, jobid: u64, pid: u32)
        requires
            old(self).wf(),
        ensures
            final(self)@ == old(self)@.assign_pid(jobid, pid),
            final(self).wf(),
    {
        if self.queue.len() > 0 {
            if matches!(self.queue[0].state, JobState::Running) && self.queue[0].id == jobid {
                self.queue[0].pid = Some(pid);
                proof {
                    assert(self@.queue =~= old(self)@.queue.update(
                        0,
                        old(self)@.queue[0].with_pid(pid),
                    ));
                    crate::preserved::lemma_assign_pid_wf(old(self)@, jobid, pid);
                }
            }
        }
    }

    /// Ends the running job at the time `now`: it leaves the queue in the
    /// state `new_state`, with what it printed, for the end of the list of
    /// finished jobs, and a copy of it is returned. A queue that was to stop
    /// after its job is stopped. With no job in the queue nothing happens.
    pub fn finish_at(
        &mut self,
        new_state: JobState,
        stdout: String,
        stderr: String,
        now: SystemTime,
    ) -> (job: Option<Job>)
        requires
            old(self).wf(),
            old(self)@.queue.len() > 0 ==> old(self)@.head_running(),
            new_state@.is_terminal(),
        ensures
            final(self)@ == old(self)@.finish(new_state@, stdout@, stderr@, now),
            final(self).wf(),
            job is Some <==> old(self)@.queue.len() > 0,
            job matches Some(j) ==> j@ == old(self)@.queue[0].ended(
                new_state@,
                stdout@,
                stderr@,
                now,
            ),
    {
        if self.queue.len() == 0 {
            return None;
        }
        let mut j = self.queue.remove(0);
        j.finished = Some(now);
        j.state = new_state;
        j.stdout = stdout;
        j.stderr = stderr;
        let copy = j.clone();
        self.finished.push(j);
        if matches!(self.state, QueueState::Stopping) {
            self.state = QueueState::Stopped;
        }
        proof {
            let ended = old(self)@.queue[0].ended(new_state@, stdout@, stderr@, now);
            assert(self@.queue =~= old(self)@.queue.drop_first());
            assert(self@.finished =~= old(self)@.finished.push(ended));
            crate::preserved::lemma_finish_wf(old(self)@, new_state@, stdout@, stderr@, now);
        }
        Some(copy)
    }

    /// Sets the running job to a finished state and moves it to the list of
    /// finished jobs, stamped with the time of the call.
    pub fn finish(
        &mut self,
        new_state: JobState,
        stdout: String,
        stderr: String,
    ) -> (job: Option<Job>)
        requires
            old(self).wf(),
            old(self)@.queue.len() > 0 ==> old(self)@.head_running(),
            new_state@.is_terminal(),
        ensures
            exists|t: SystemTime|
                final(self)@ == #[trigger] old(self)@.finish(new_state@, stdout@, stderr@, t),
            final(self).wf(),
            job is Some <==> old(self)@.queue.len() > 0,
            job matches Some(j) ==> j@ == final(self)@.finished.last(),
    {
        let t = now();
        self.finish_at(new_state, stdout, stderr, t)
    }

    /// Finds the process that SIGTERM goes to when the job `jobid` is to be
    /// killed: that of the running job, if `jobid` names it.
    pub fn sigterm_target(&self, jobid: u64) -> (res: Result<u32, KillError>)
        requires
            self.wf(),
        ensures
            res == self@.kill_target(jobid),
    {
        if self.queue.len() == 0 {
            return Err(KillError::NotRunning);
        }
        let head = &self.queue[0];
        if !matches!(head.state, JobState::Running) || head.id != jobid {
            return Err(KillError::NotRunning);
        }
        match head.pid {
            Some(pid) => Ok(pid),
            None => Err(KillError::NoProcess),
        }
    }

    /// Removes the job with the given id and returns it. The finished jobs
    /// are searched first, then the queue. A running job stays where it is.
    pub fn remove(&mut self, id: u64) -> (res: Result<Job, FailReason>)
        requires
            old(self).wf(),
        ensures
            final(self)@ == old(self)@.remove(id),
            final(self).wf(),
            match res {
                Ok(job) => old(self)@.remove_result(id) == Ok::<JobView, FailReason>(job@),
                Err(reason) => old(self)@.remove_result(id) == Err::<JobView, FailReason>(reason),
            },
    {
        let found = position_of(&self.finished, id);
        if let Some(index) = found {
            let job = self.finished.remove(index);
            proof {
                assert(self@.finished =~= old(self)@.finished.remove(index as int));
                crate::preserved::lemma_remove_wf(old(self)@, id);
            }
            return Ok(job);
        }
        let found = position_of(&self.queue, id);
        if let Some(index) = found {
            if matches!(self.queue[index].state, JobState::Running) {
                return Err(FailReason::WrongJobState);
            }
            let job = self.queue.remove(index);
            proof {
                assert(self@.queue =~= old(self)@.queue.remove(index as int));
                crate::preserved::lemma_remove_wf(old(self)@, id);
            }
            return Ok(job);
        }
        Err(FailReason::NoSuchJob)
    }

    /// Gives the head of the queue, unless it waits, the state `new_state`
    /// at the time `now`: put back to wait, it is as if it had never been
    /// dispatched; marked as failed, it ends as a running job ends.
    pub fn reset_first_job_at(&mut self, new_state: JobState, now: SystemTime)
        requires
            old(self).wf(),
            old(self)@.may_reset_to(new_state@),
        ensures
            final(self)@ == old(self)@.reset_first_job(new_state@, now),
            final(self).wf(),
    {
        if self.queue.len() == 0 {
            return ;
        }
        if matches!(self.queue[0].state, JobState::Queued) {
            return ;
        }
        match new_state {
            JobState::Queued => {
                self.queue[0].started = None;
                self.queue[0].state = JobState::Queued;
                self.queue[0].pid = None;
                self.queue[0].stderr = String::new();
                self.queue[0].stdout = String::new();
                proof {
                    assert(self@.queue =~= old(self)@.queue.update(
                        0,
                        old(self)@.queue[0].requeued(),
                    ));
                    crate::preserved::lemma_reset_first_job_wf(old(self)@, new_state@, now);
                }
            },
            JobState::Failed(reason) => {
                self.finish_at(JobState::Failed(reason), String::new(), String::new(), now);
            },
            _ => {},
        }
    }

    /// Resets the first job of the queue if it was running when the queue
    /// was last seen, as of the time of the call.
    pub fn reset_first_job(&mut self, new_state: JobState)
        requires
            old(self).wf(),
            old(self)@.may_reset_to(new_state@),
        ensures
            exists|t: SystemTime|
                final(self)@ == #[trigger] old(self)@.reset_first_job(new_state@, t),
            final(self).wf(),
    {
        let t = now();
        self.reset_first_job_at(new_state, t)
    }

    /// Brings the queue back to a defined state at the time `now`, after a
    /// restart: a job that was running when the queue was last seen has
    /// failed if the queue was running, and waits again if the queue was to
    /// stop after it. A stopped queue is left as it is.
    pub fn recover_at(&mut self, now: SystemTime)
        requires
            old(self).wf(),
        ensures
            final(self)@ == old(self)@.recover(now),
            final(self).wf(),
    {
        proof {
            crate::preserved::lemma_recover_wf(old(self)@, now);
        }
        match self.state {
            QueueState::Stopped => {},
            QueueState::Stopping => self.reset_first_job_at(JobState::Queued, now),
            QueueState::Running => {
                self.reset_first_job_at(JobState::Failed(interrupted_message()), now)
            },
        }
    }

    /// Brings the queue back to a defined state after a restart, as of the
    /// time of the call.
    pub fn recover(&mut self)
        requires
            old(self).wf(),
        ensures
            exists|t: SystemTime| final(self)@ == #[trigger] old(self)@.recover(t),
            final(self).wf(),
    {
        let t = now();
        self.recover_at(t)
    }
}

/// The queue that the four parts of a stored document describe.
pub open spec fn parts_view(
    last_id: u64,
    state: QueueState,
    queue: Seq<Job>,
    finished: Seq<Job>,
) -> QueueView {
    QueueView { last_id, state, queue: job_views(queue), finished: job_views(finished) }
}

/// Whether `id` is above `bound`, where there is one.
fn above(bound: Option<u64>, id: u64) -> (res: bool)
    ensures
        res <==> (bound matches Some(top) ==> top < id),
{
    match bound {
        Some(top) => top < id,
        None => true,
    }
}

/// Whether `job` has the shape of a job that waits.
fn is_waiting(job: &Job) -> (res: bool)
    ensures
        res == job@.waiting(),
{
    matches!(job.state, JobState::Queued) && job.started.is_none() && job.finished.is_none()
        && job.pid.is_none()
}

/// Whether `job` has the shape of a job that runs.
fn is_active(job: &Job) -> (res: bool)
    ensures
        res == job@.active(),
{
    matches!(job.state, JobState::Running) && job.started.is_some() && job.finished.is_none()
}

/// Whether `job` has the shape of a job that is done.
fn is_done(job: &Job) -> (res: bool)
    ensures
        res == job@.done(),
{
    let terminal = match job.state {
        JobState::Terminated(_) => true,
        JobState::Killed(_) => true,
        JobState::Failed(_) => true,
        _ => false,
    };
    terminal && job.started.is_some() && job.finished.is_some()
}

/// Copies of `jobs`, one for one.
fn copy_jobs(jobs: &Vec<Job>) -> (copies: Vec<Job>)
    ensures
        copies@ == jobs@,
{
    let mut copies: Vec<Job> = Vec::new();
    let mut i: usize = 0;
    while i < jobs.len()
        invariant
            i <= jobs.len(),
            copies@ == jobs@.take(i as int),
        decreases jobs.len() - i,
    {
        copies.push(jobs[i].clone());
        assert(jobs@.take(i + 1) =~= jobs@.take(i as int).push(jobs@[i as int]));
        i += 1;
    }
    assert(jobs@.take(jobs.len() as int) =~= jobs@);
    copies
}

/// What the exit code `code` of the kill command says of the signal: it was
/// sent if the code is zero.
pub open spec fn sigterm_outcome(code: Option<i32>) -> Result<(), KillError> {
    match code {
        Some(c) => if c == 0 {
            Ok(())
        } else {
            Err(KillError::Refused(c))
        },
        None => Err(KillError::NoExitCode),
    }
}

/// Reads the exit code of the kill command.
pub fn sigterm_result(code: Option<i32>) -> (res: Result<(), KillError>)
    ensures
        res == sigterm_outcome(code),
{
    match code {
        Some(c) => if c == 0 {
            Ok(())
        } else {
            Err(KillError::Refused(c))
        },
        None => Err(KillError::NoExitCode),
    }
}

/// The command that sends SIGTERM to the process `pid`, as a program
/// followed by its arguments.
pub open spec fn sigterm_command_line(pid: u32) -> Seq<Seq<char>> {
    seq!["/bin/kill"@, "-SIGTERM"@, crate::text::decimal(pid as nat)]
}

/// Builds the command that sends SIGTERM to the process `pid`.
pub fn sigterm_command(pid: u32) -> (res: Vec<String>)
    ensures
        crate::text::views(res@) == sigterm_command_line(pid),
{
    let mut res: Vec<String> = Vec::new();
    res.push("/bin/kill".to_owned());
    res.push("-SIGTERM".to_owned());
    res.push(crate::text::decimal_string(pid as u64));
    assert(crate::text::views(res@) =~= sigterm_command_line(pid));
    res
}

/// The failure reason of a job that was running when the queue was last
/// seen.
pub fn interrupted_message() -> (text: String)
    ensures
        text@ == crate::model::interrupted_text(),
{
    "Interrupted by system failure, please re-submit or ask for assistance".to_owned()
}

/// The first place in `jobs` of a job with the id `id`, if there is one.
fn position_of(jobs: &Vec<Job>, id: u64) -> (found: Option<usize>)
    ensures
        match found {
            Some(i) => i < jobs.len() && crate::model::find_id(job_views(jobs@), id) == Some(
                i as int,
            ),
            None => crate::model::find_id(job_views(jobs@), id) is None,
        },
{
    let mut i: usize = 0;
    while i < jobs.len()
        invariant
            i <= jobs.len(),
            forall|k: int| 0 <= k < i ==> (#[trigger] job_views(jobs@)[k]).id != id,
        decreases jobs.len() - i,
    {
        if jobs[i].id == id {
            proof {
                crate::preserved::lemma_find_id_first(job_views(jobs@), id, i as int);
            }
            return Some(i);
        }
        i += 1;
    }
    proof {
        crate::preserved::lemma_find_id_none(job_views(jobs@), id);
    }
    None
}

} // verus!
