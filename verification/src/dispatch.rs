//! The request dispatcher: what each request of a client does to the queue
//! and how it is answered.

use std::time::SystemTime;
use vstd::prelude::*;

use crate::job_queue::sigterm_outcome;
use crate::job_queue::sigterm_result;
use crate::job_queue::FailReason;
use crate::job_queue::JobQueue;
use crate::job_queue::KillError;
use crate::job_queue::QueueState;
use crate::model::QueueView;
use crate::protocol::Request;
use crate::protocol::RequestView;
use crate::protocol::Response;
use crate::protocol::ResponseView;
use crate::text::split_words;
use crate::text::words;

verus! {

/// The status of an answer to a request that was carried out.
pub const STATUS_OK: u16 = 200;

/// The status of an answer to a request that could not be read.
pub const STATUS_BAD_REQUEST: u16 = 400;

/// The status of an answer to a request that the queue refuses.
pub const STATUS_REJECTED: u16 = 422;

/// The status of an answer to a request that failed inside the daemon.
pub const STATUS_INTERNAL: u16 = 500;

/// The body of an answer.
#[derive(Debug)]
pub enum Body {
    /// A response, to be sent in its wire form.
    Message(Response),
    /// Plain text.
    Text(String),
}

/// The body of an answer as the contracts see it.
pub enum BodyView {
    Message(ResponseView),
    Text(Seq<char>),
}

impl View for Body {
    type V = BodyView;

    open spec fn view(&self) -> BodyView {
        match self {
            Body::Message(response) => BodyView::Message(response@),
            Body::Text(text) => BodyView::Text(text@),
        }
    }
}

/// An answer to a client: a status and a body.
#[derive(Debug)]
pub struct Reply {
    pub status: u16,
    pub body: Body,
}

/// An answer as the contracts see it.
pub struct ReplyView {
    pub status: u16,
    pub body: BodyView,
}

impl View for Reply {
    type V = ReplyView;

    open spec fn view(&self) -> ReplyView {
        ReplyView { status: self.status, body: self.body@ }
    }
}

/// What follows from a request: the answer, whether the queue is to be
/// saved before the answer is sent, and whether the runner is to be woken.
#[derive(Debug)]
pub struct Outcome {
    pub reply: Reply,
    pub save: bool,
    pub wake: bool,
}

/// The consequences of a request as the contracts see them.
pub struct OutcomeView {
    pub reply: ReplyView,
    pub save: bool,
    pub wake: bool,
}

impl View for Outcome {
    type V = OutcomeView;

    open spec fn view(&self) -> OutcomeView {
        OutcomeView { reply: self.reply@, save: self.save, wake: self.wake }
    }
}

/// What the dispatcher asks for after it has looked at a request.
#[derive(Debug)]
pub enum Step {
    /// The request is dealt with.
    Answer(Outcome),
    /// SIGTERM is to be sent to the process; what comes of it decides the
    /// answer (see [`signal_outcome`]).
    Signal(u32),
}

/// The dispatcher's step as the contracts see it.
pub enum StepView {
    Answer(OutcomeView),
    Signal(u32),
}

impl View for Step {
    type V = StepView;

    open spec fn view(&self) -> StepView {
        match self {
            Step::Answer(outcome) => StepView::Answer(outcome@),
            Step::Signal(pid) => StepView::Signal(*pid),
        }
    }
}

/// The consequences of a request that was carried out.
pub open spec fn carried_out(response: ResponseView, save: bool, wake: bool) -> OutcomeView {
    OutcomeView {
        reply: ReplyView { status: STATUS_OK, body: BodyView::Message(response) },
        save,
        wake,
    }
}

/// The consequences of a request that the queue refuses for the reason
/// `text`: nothing is saved and nobody is woken.
pub open spec fn refused(text: Seq<char>) -> OutcomeView {
    OutcomeView {
        reply: ReplyView {
            status: STATUS_REJECTED,
            body: BodyView::Message(ResponseView::Error(text)),
        },
        save: false,
        wake: false,
    }
}

/// The consequences of a request that failed with the plain text `text`
/// under `status`.
pub open spec fn failed(status: u16, text: Seq<char>) -> OutcomeView {
    OutcomeView {
        reply: ReplyView { status, body: BodyView::Text(text) },
        save: false,
        wake: false,
    }
}

/// Why a job that is not there cannot be removed.
pub open spec fn no_such_job_text() -> Seq<char> {
    "No such job"@
}

/// Why a running job cannot be removed.
pub open spec fn running_job_text() -> Seq<char> {
    "Job is currently running and cannot be removed"@
}

/// Why a job cannot be killed.
pub open spec fn not_running_text() -> Seq<char> {
    "Job is currently not running."@
}

/// Why a client cannot stop the queue outright.
pub open spec fn stop_refused_text() -> Seq<char> {
    "The queue cannot be stopped directly, ask for it to stop after its job"@
}

/// Why a command line without an appkey is not queued.
pub open spec fn empty_appkey_text() -> Seq<char> {
    "The command line holds no appkey"@
}

/// Why no job is queued when no id is left.
pub open spec fn ids_exhausted_text() -> Seq<char> {
    "No job id is left"@
}

/// Whether the submission of `cmdline` to `q` is accepted: the command
/// line starts with an appkey and an id is left for the job.
pub open spec fn accepts_submission(q: QueueView, cmdline: Seq<char>) -> bool {
    words(cmdline).len() > 0 && q.last_id < u64::MAX
}

/// Whether a request to give the queue the state `state` is accepted: a
/// client cannot stop the queue outright.
pub open spec fn accepts_state(state: QueueState) -> bool {
    state != QueueState::Stopped
}

/// The queue after `request`, received at `now`.
pub open spec fn queue_after(q: QueueView, request: RequestView, now: SystemTime) -> QueueView {
    match request {
        RequestView::SubmitJob(cmdline) => if accepts_submission(q, cmdline) {
            q.submit(cmdline, now)
        } else {
            q
        },
        RequestView::RemoveJob(id) => q.remove(id),
        RequestView::SetQueueState(state) => if accepts_state(state) {
            q.set_state(state)
        } else {
            q
        },
        _ => q,
    }
}

/// What the dispatcher asks for after `request` to the queue `q`.
pub open spec fn step_after(q: QueueView, request: RequestView) -> StepView {
    match request {
        RequestView::SubmitJob(cmdline) => StepView::Answer(
            if words(cmdline).len() == 0 {
                refused(empty_appkey_text())
            } else if q.last_id == u64::MAX {
                failed(STATUS_INTERNAL, ids_exhausted_text())
            } else {
                carried_out(ResponseView::SubmitJob((q.last_id + 1) as u64), true, true)
            },
        ),
        RequestView::RemoveJob(id) => StepView::Answer(
            match q.remove_result(id) {
                Ok(job) => carried_out(ResponseView::GetJob(job), true, false),
                Err(FailReason::NoSuchJob) => refused(no_such_job_text()),
                Err(FailReason::WrongJobState) => refused(running_job_text()),
            },
        ),
        RequestView::KillJob(id) => match q.kill_target(id) {
            Ok(pid) => StepView::Signal(pid),
            Err(_) => StepView::Answer(refused(not_running_text())),
        },
        RequestView::GetQueuedJobs => StepView::Answer(
            carried_out(ResponseView::GetJobs(q.queue), false, false),
        ),
        RequestView::GetFinishedJobs => StepView::Answer(
            carried_out(ResponseView::GetJobs(q.finished), false, false),
        ),
        RequestView::SetQueueState(state) => StepView::Answer(
            if accepts_state(state) {
                carried_out(ResponseView::QueueState(state), true, true)
            } else {
                refused(stop_refused_text())
            },
        ),
        RequestView::GetQueueState => StepView::Answer(
            carried_out(ResponseView::QueueState(q.state), false, false),
        ),
    }
}

/// The answer to a kill request, once the kill command has ended with
/// `result`.
pub open spec fn outcome_of_signal(result: Result<(), KillError>) -> OutcomeView {
    match result {
        Ok(_) => carried_out(ResponseView::Done, false, false),
        Err(_) => refused(not_running_text()),
    }
}

/// The content type under which an answer with `status` is sent.
pub open spec fn content_type_of(status: u16) -> Seq<char> {
    if status == STATUS_OK {
        "application/json"@
    } else {
        "text/plain"@
    }
}

fn carry_out(response: Response, save: bool, wake: bool) -> (outcome: Outcome)
    ensures
        outcome@ == carried_out(response@, save, wake),
{
    Outcome { reply: Reply { status: STATUS_OK, body: Body::Message(response) }, save, wake }
}

fn refuse(text: &str) -> (outcome: Outcome)
    ensures
        outcome@ == refused(text@),
{
    Outcome {
        reply: Reply { status: STATUS_REJECTED, body: Body::Message(Response::Error(text.to_owned())) },
        save: false,
        wake: false,
    }
}

fn fail(status: u16, text: String) -> (outcome: Outcome)
    ensures
        outcome@ == failed(status, text@),
{
    Outcome { reply: Reply { status, body: Body::Text(text) }, save: false, wake: false }
}

/// Carries out `request`, received at the time `now`, on the queue and says
/// what is to follow.
pub fn dispatch_at(q: &mut JobQueue, request: Request, now: SystemTime) -> (step: Step)
    requires
        old(q).wf(),
    ensures
        final(q).wf(),
        final(q)@ == queue_after(old(q)@, request@, now),
        step@ == step_after(old(q)@, request@),
{
    match request {
        Request::SubmitJob(cmdline) => {
            let appkey_missing = split_words(cmdline.as_str()).len() == 0;
            if appkey_missing {
                Step::Answer(refuse("The command line holds no appkey"))
            } else if q.last_id() == u64::MAX {
                Step::Answer(fail(STATUS_INTERNAL, "No job id is left".to_owned()))
            } else {
                let id = q.submit_at(cmdline, now);
                Step::Answer(carry_out(Response::SubmitJob(id), true, true))
            }
        },
        Request::RemoveJob(id) => {
            match q.remove(id) {
                Ok(job) => Step::Answer(carry_out(Response::GetJob(job), true, false)),
                Err(FailReason::NoSuchJob) => Step::Answer(refuse("No such job")),
                Err(FailReason::WrongJobState) => Step::Answer(
                    refuse("Job is currently running and cannot be removed"),
                ),
            }
        },
        Request::KillJob(id) => {
            match q.sigterm_target(id) {
                Ok(pid) => Step::Signal(pid),
                Err(_) => Step::Answer(refuse("Job is currently not running.")),
            }
        },
        Request::GetQueuedJobs => {
            Step::Answer(carry_out(Response::GetJobs(q.queued_jobs()), false, false))
        },
        Request::GetFinishedJobs => {
            Step::Answer(carry_out(Response::GetJobs(q.finished_jobs()), false, false))
        },
        Request::SetQueueState(state) => {
            match state {
                QueueState::Stopped => Step::Answer(
                    refuse("The queue cannot be stopped directly, ask for it to stop after its job"),
                ),
                _ => {
                    q.set_state(state);
                    Step::Answer(carry_out(Response::QueueState(state), true, true))
                },
            }
        },
        Request::GetQueueState => {
            Step::Answer(carry_out(Response::QueueState(q.get_state()), false, false))
        },
    }
}

/// Carries out `request` on the queue, as of the time of the call, and says
/// what is to follow.
pub fn dispatch(q: &mut JobQueue, request: Request) -> (step: Step)
    requires
        old(q).wf(),
    ensures
        final(q).wf(),
        exists|t: SystemTime| final(q)@ == #[trigger] queue_after(old(q)@, request@, t),
        step@ == step_after(old(q)@, request@),
{
    let t = crate::trusted::now();
    dispatch_at(q, request, t)
}

/// Answers a kill request, once the kill command has ended with the exit
/// code `code`.
pub fn signal_outcome(code: Option<i32>) -> (outcome: Outcome)
    ensures
        outcome@ == outcome_of_signal(sigterm_outcome(code)),
{
    match sigterm_result(code) {
        Ok(_) => carry_out(Response::Done, false, false),
        Err(_) => refuse("Job is currently not running."),
    }
}

/// Answers a request whose body could not be read as a request, with the
/// parser's `message`: the fault is the daemon's own if reading failed, and
/// the client's otherwise.
pub fn parse_failure(io: bool, message: String) -> (outcome: Outcome)
    ensures
        outcome@ == failed(
            if io {
                STATUS_INTERNAL
            } else {
                STATUS_BAD_REQUEST
            },
            message@,
        ),
{
    if io {
        fail(STATUS_INTERNAL, message)
    } else {
        fail(STATUS_BAD_REQUEST, message)
    }
}

/// Answers a request after which the queue could not be saved, with the
/// `message` of the failure.
pub fn save_failure(message: String) -> (reply: Reply)
    ensures
        reply@ == failed(STATUS_INTERNAL, message@).reply,
{
    Reply { status: STATUS_INTERNAL, body: Body::Text(message) }
}

/// The content type under which an answer with `status` is sent: JSON for
/// a request that was carried out, plain text for any other.
pub fn content_type(status: u16) -> (res: &'static str)
    ensures
        res@ == content_type_of(status),
{
    if status == STATUS_OK {
        "application/json"
    } else {
        "text/plain"
    }
}

} // verus!
