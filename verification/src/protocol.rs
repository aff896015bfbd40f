//! The messages that a client and the daemon exchange.

use vstd::prelude::*;

use crate::job_queue::job_views;
use crate::job_queue::Job;
use crate::job_queue::QueueState;
use crate::model::JobView;

verus! {

/// A request of a client to the daemon.
#[derive(Debug)]
pub enum Request {
    /// Submit a job with the given command line, which starts with an
    /// appkey. Answered by `SubmitJob` or `Error`.
    SubmitJob(String),
    /// Remove the job with the given id, if it waits or is finished.
    /// Answered by `GetJob` or `Error`.
    RemoveJob(u64),
    /// Send SIGTERM to the job with the given id. Answered by `Done` or
    /// `Error`.
    KillJob(u64),
    /// Ask for the queued jobs, the running one first. Answered by
    /// `GetJobs`.
    GetQueuedJobs,
    /// Ask for the finished jobs. Answered by `GetJobs`.
    GetFinishedJobs,
    /// Set the state of the queue. Answered by `QueueState` or `Error`.
    SetQueueState(QueueState),
    /// Ask for the state of the queue. Answered by `QueueState`.
    GetQueueState,
}

/// A request as the contracts see it.
pub enum RequestView {
    SubmitJob(Seq<char>),
    RemoveJob(u64),
    KillJob(u64),
    GetQueuedJobs,
    GetFinishedJobs,
    SetQueueState(QueueState),
    GetQueueState,
}

impl View for Request {
    type V = RequestView;

    open spec fn view(&self) -> RequestView {
        match self {
            Request::SubmitJob(cmdline) => RequestView::SubmitJob(cmdline@),
            Request::RemoveJob(id) => RequestView::RemoveJob(*id),
            Request::KillJob(id) => RequestView::KillJob(*id),
            Request::GetQueuedJobs => RequestView::GetQueuedJobs,
            Request::GetFinishedJobs => RequestView::GetFinishedJobs,
            Request::SetQueueState(state) => RequestView::SetQueueState(*state),
            Request::GetQueueState => RequestView::GetQueueState,
        }
    }
}

/// An answer of the daemon to a client.
#[derive(Debug)]
pub enum Response {
    /// The job has been submitted under the given id.
    SubmitJob(u64),
    /// A list of jobs.
    GetJobs(Vec<Job>),
    /// A single job.
    GetJob(Job),
    /// The request could not be handled, for the reason given.
    Error(String),
    /// The state of the queue.
    QueueState(QueueState),
    /// The request was handled and there is nothing to return.
    Done,
}

/// An answer as the contracts see it.
pub enum ResponseView {
    SubmitJob(u64),
    GetJobs(Seq<JobView>),
    GetJob(JobView),
    Error(Seq<char>),
    QueueState(QueueState),
    Done,
}

impl View for Response {
    type V = ResponseView;

    open spec fn view(&self) -> ResponseView {
        match self {
            Response::SubmitJob(id) => ResponseView::SubmitJob(*id),
            Response::GetJobs(jobs) => ResponseView::GetJobs(job_views(jobs@)),
            Response::GetJob(job) => ResponseView::GetJob(job@),
            Response::Error(message) => ResponseView::Error(message@),
            Response::QueueState(state) => ResponseView::QueueState(*state),
            Response::Done => ResponseView::Done,
        }
    }
}

} // verus!
