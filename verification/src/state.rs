//! The program state: where the queue is stored, and what is made of a
//! stored queue when the daemon starts.

use std::path::PathBuf;
use vstd::prelude::*;

use crate::job_queue::job_views;
use crate::job_queue::Job;
use crate::job_queue::JobQueue;
use crate::job_queue::QueueState;
use crate::model::QueueView;

verus! {

/// Job ids are incremented before they are assigned to jobs: with a last
/// id of zero the first job is given the id 1.
pub const DEFAULT_STATE_LAST_ID: u64 = 0;

/// The configuration of the program state.
pub struct State {
    state_file: PathBuf,
}

impl State {
    /// The file in which the queue is stored.
    pub closed spec fn path(&self) -> PathBuf {
        self.state_file
    }

    /// Configures the program state with the file `p`.
    fn load(p: PathBuf) -> (state: State)
        ensures
            state.path() == p,
    {
        State { state_file: p }
    }

    /// Configures the program state with the file in which the queue is
    /// stored, whether or not the file is there yet.
    pub fn from(p: PathBuf) -> (state: State)
        ensures
            state.path() == p,
    {
        State::load(p)
    }

    /// The file in which the queue is stored.
    pub fn state_file(&self) -> (p: &PathBuf)
        ensures
            *p == self.path(),
    {
        &self.state_file
    }
}

/// A queue as it is stored: its four parts, as they were read.
#[derive(Debug)]
pub struct StoredQueue {
    pub last_id: u64,
    pub state: QueueState,
    pub queue: Vec<Job>,
    pub finished: Vec<Job>,
}

impl View for StoredQueue {
    type V = QueueView;

    open spec fn view(&self) -> QueueView {
        QueueView {
            last_id: self.last_id,
            state: self.state,
            queue: job_views(self.queue@),
            finished: job_views(self.finished@),
        }
    }
}

/// The queue that the daemon starts with, given what was read from the
/// state file, if anything was: the stored queue if it keeps the invariant
/// of the queue, and a fresh queue otherwise.
pub open spec fn restored(stored: Option<QueueView>) -> QueueView {
    match stored {
        Some(q) => if q.wf() {
            q
        } else {
            QueueView::empty(DEFAULT_STATE_LAST_ID)
        },
        None => QueueView::empty(DEFAULT_STATE_LAST_ID),
    }
}

/// The views of what was read.
pub open spec fn stored_view(stored: Option<StoredQueue>) -> Option<QueueView> {
    match stored {
        Some(s) => Some(s@),
        None => None,
    }
}

/// Makes the queue that the daemon starts with, given what was read from
/// the state file: nothing, if the file was missing or could not be read as
/// a queue.
pub fn restore(stored: Option<StoredQueue>) -> (q: JobQueue)
    ensures
        q@ == restored(stored_view(stored)),
        q.wf(),
{
    match stored {
        Some(s) => match JobQueue::from_parts(s.last_id, s.state, s.queue, s.finished) {
            Some(q) => q,
            None => JobQueue::new(DEFAULT_STATE_LAST_ID),
        },
        None => JobQueue::new(DEFAULT_STATE_LAST_ID),
    }
}

/// Takes a copy of the queue apart, to be stored.
pub fn stored(q: &JobQueue) -> (s: StoredQueue)
    ensures
        s@ == q@,
{
    StoredQueue {
        last_id: q.last_id(),
        state: q.get_state(),
        queue: q.queued_jobs(),
        finished: q.finished_jobs(),
    }
}

} // verus!
