//! The client's side of the protocol: which requests a command sends and
//! what it makes of the answers.

use reqwest::Url;
use vstd::prelude::*;

use crate::job_queue::job_views;
use crate::job_queue::Job;
use crate::job_queue::QueueState;
use crate::model::JobView;
use crate::protocol::Request;
use crate::protocol::RequestView;
use crate::protocol::Response;
use crate::protocol::ResponseView;
use crate::runner::notify_address;
use crate::trusted::url_parsed;
use crate::text::decimal;
use crate::text::decimal_string;

verus! {

/// What a command makes of an answer of the daemon.
#[derive(Debug)]
pub enum Reading {
    /// The request was carried out, and this line tells the user so.
    Told(String),
    /// The request was carried out, and this is the job that it is about.
    OneJob(Job),
    /// The request was carried out, and these are the jobs asked for, to be
    /// shown under the given header.
    Listed { header: String, jobs: Vec<Job> },
    /// The request was carried out and there is nothing to show.
    Quiet,
    /// The daemon has refused the request, and this line tells the user
    /// why. The command fails.
    Refused(String),
    /// The answer is none that the request can have.
    Unexpected,
}

/// A reading as the contracts see it.
pub enum ReadingView {
    Told(Seq<char>),
    OneJob(JobView),
    Listed { header: Seq<char>, jobs: Seq<JobView> },
    Quiet,
    Refused(Seq<char>),
    Unexpected,
}

impl View for Reading {
    type V = ReadingView;

    open spec fn view(&self) -> ReadingView {
        match self {
            Reading::Told(line) => ReadingView::Told(line@),
            Reading::OneJob(job) => ReadingView::OneJob(job@),
            Reading::Listed { header, jobs } => ReadingView::Listed {
                header: header@,
                jobs: job_views(jobs@),
            },
            Reading::Quiet => ReadingView::Quiet,
            Reading::Refused(line) => ReadingView::Refused(line@),
            Reading::Unexpected => ReadingView::Unexpected,
        }
    }
}

/// The name of a state of the queue.
pub open spec fn state_name(state: QueueState) -> Seq<char> {
    match state {
        QueueState::Running => "Running"@,
        QueueState::Stopping => "Stopping"@,
        QueueState::Stopped => "Stopped"@,
    }
}

/// What is made of the answer to a submission.
pub open spec fn submit_reading(response: ResponseView) -> ReadingView {
    match response {
        ResponseView::SubmitJob(id) => ReadingView::Told("Submitted as job #"@ + decimal(id as nat)),
        ResponseView::Error(reason) => ReadingView::Refused("Could not submit job: "@ + reason),
        _ => ReadingView::Unexpected,
    }
}

/// What is made of the answer to a removal.
pub open spec fn remove_reading(response: ResponseView) -> ReadingView {
    match response {
        ResponseView::GetJob(job) => ReadingView::OneJob(job),
        ResponseView::Error(reason) => ReadingView::Refused("Could not remove job: "@ + reason),
        _ => ReadingView::Unexpected,
    }
}

/// What is made of the answer to a kill request.
pub open spec fn kill_reading(response: ResponseView) -> ReadingView {
    match response {
        ResponseView::Done => ReadingView::Quiet,
        ResponseView::Error(reason) => ReadingView::Refused("Could not kill job: "@ + reason),
        _ => ReadingView::Unexpected,
    }
}

/// What is made of an answer that is to tell the state of the queue.
pub open spec fn state_reading(response: ResponseView) -> ReadingView {
    match response {
        ResponseView::QueueState(state) => ReadingView::Told(
            "Current queue status: "@ + state_name(state),
        ),
        ResponseView::Error(reason) => ReadingView::Refused("Could not get queue status: "@ + reason),
        _ => ReadingView::Unexpected,
    }
}

/// What is made of an answer that is to list jobs, shown under `header`;
/// `what` names the jobs where the daemon refuses.
pub open spec fn list_reading(
    response: ResponseView,
    header: Seq<char>,
    what: Seq<char>,
) -> ReadingView {
    match response {
        ResponseView::GetJobs(jobs) => ReadingView::Listed { header, jobs },
        ResponseView::Error(reason) => ReadingView::Refused("Could not get "@ + what + ": "@ + reason),
        _ => ReadingView::Unexpected,
    }
}

/// Joins `prefix` and `rest`.
fn line(prefix: &str, rest: &str) -> (res: String)
    ensures
        res@ == prefix@ + rest@,
{
    let mut res = prefix.to_owned();
    res.append(rest);
    res
}

/// The request that submits `cmdline`.
pub fn submit_request(cmdline: &str) -> (request: Request)
    ensures
        request@ == RequestView::SubmitJob(cmdline@),
{
    Request::SubmitJob(cmdline.to_owned())
}

/// Reads the answer to a submission: the id of the new job is told.
pub fn handle_submit(response: Response) -> (reading: Reading)
    ensures
        reading@ == submit_reading(response@),
{
    match response {
        Response::SubmitJob(id) => Reading::Told(
            line("Submitted as job #", decimal_string(id).as_str()),
        ),
        Response::Error(reason) => Reading::Refused(line("Could not submit job: ", reason.as_str())),
        _ => Reading::Unexpected,
    }
}

/// Reads the answer to a removal: the job that was removed is handed on.
pub fn handle_remove(response: Response) -> (reading: Reading)
    ensures
        reading@ == remove_reading(response@),
{
    match response {
        Response::GetJob(job) => Reading::OneJob(job),
        Response::Error(reason) => Reading::Refused(line("Could not remove job: ", reason.as_str())),
        _ => Reading::Unexpected,
    }
}

/// Reads the answer to a kill request.
pub fn handle_kill(response: Response) -> (reading: Reading)
    ensures
        reading@ == kill_reading(response@),
{
    match response {
        Response::Done => Reading::Quiet,
        Response::Error(reason) => Reading::Refused(line("Could not kill job: ", reason.as_str())),
        _ => Reading::Unexpected,
    }
}

/// The name of a state of the queue.
pub fn name_of(state: QueueState) -> (name: &'static str)
    ensures
        name@ == state_name(state),
{
    match state {
        QueueState::Running => "Running",
        QueueState::Stopping => "Stopping",
        QueueState::Stopped => "Stopped",
    }
}

/// Reads the answer to a request that sets the state of the queue: the
/// state is told.
pub fn handle_set_queue_status(response: Response) -> (reading: Reading)
    ensures
        reading@ == state_reading(response@),
{
    match response {
        Response::QueueState(state) => Reading::Told(line("Current queue status: ", name_of(state))),
        Response::Error(reason) => Reading::Refused(
            line("Could not get queue status: ", reason.as_str()),
        ),
        _ => Reading::Unexpected,
    }
}

/// The requests that a status command sends, in their order: for the state
/// of the queue, for the queued jobs and for the finished jobs.
pub open spec fn status_requests_of() -> Seq<RequestView> {
    seq![RequestView::GetQueueState, RequestView::GetQueuedJobs, RequestView::GetFinishedJobs]
}

/// The views of `requests`, one for one.
pub open spec fn request_views(requests: Seq<Request>) -> Seq<RequestView> {
    Seq::new(requests.len(), |i: int| requests[i]@)
}

/// The requests that a status command sends, in their order.
pub fn status_requests() -> (requests: Vec<Request>)
    ensures
        request_views(requests@) == status_requests_of(),
{
    let mut requests: Vec<Request> = Vec::new();
    requests.push(Request::GetQueueState);
    requests.push(Request::GetQueuedJobs);
    requests.push(Request::GetFinishedJobs);
    assert(request_views(requests@) =~= status_requests_of());
    requests
}

/// What is made of the answer to the request at the place `round` among
/// those of a status command.
pub open spec fn status_reading(round: int, response: ResponseView) -> ReadingView {
    if round == 0 {
        state_reading(response)
    } else if round == 1 {
        list_reading(response, "QUEUED JOBS"@, "queued jobs"@)
    } else {
        list_reading(response, "FINISHED JOBS"@, "finished jobs"@)
    }
}

/// Reads the answer to the request at the place `round` among those of a
/// status command: the state of the queue is told, and the jobs are listed
/// under a header.
pub fn handle_queue_status(round: usize, response: Response) -> (reading: Reading)
    ensures
        reading@ == status_reading(round as int, response@),
{
    if round == 0 {
        handle_set_queue_status(response)
    } else {
        let queued = round == 1;
        match response {
            Response::GetJobs(jobs) => Reading::Listed {
                header: if queued {
                    "QUEUED JOBS".to_owned()
                } else {
                    "FINISHED JOBS".to_owned()
                },
                jobs,
            },
            Response::Error(reason) => {
                let mut text = "Could not get ".to_owned();
                text.append(if queued { "queued jobs" } else { "finished jobs" });
                text.append(": ");
                text.append(reason.as_str());
                Reading::Refused(text)
            },
            _ => Reading::Unexpected,
        }
    }
}

/// The text of the address at which the daemon on `host` listens on
/// `port`.
pub open spec fn server_text(host: Seq<char>, port: u16) -> Seq<char> {
    "http://"@ + host + ":"@ + decimal(port as nat) + "/"@
}

/// The address at which the daemon on `host` listens on `port`, if `host`
/// makes one.
pub fn server_address(host: &str, port: u16) -> (address: Option<Url>)
    ensures
        address == url_parsed(server_text(host@, port)),
{
    let mut text = "http://".to_owned();
    text.append(host);
    text.append(":");
    text.append(decimal_string(port as u64).as_str());
    text.append("/");
    notify_address(text.as_str())
}

} // verus!
