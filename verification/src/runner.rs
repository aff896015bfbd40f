//! The runner: which job is launched next and as what command, what the end
//! of its process makes of the queue, and whom to tell.

use reqwest::Url;
use std::time::SystemTime;
use vstd::hash_map::StringHashMap;
use vstd::prelude::*;
use vstd::utf8::decode_utf8;
use vstd::utf8::valid_utf8;

use crate::job_queue::Job;
use crate::job_queue::JobQueue;
use crate::job_queue::JobState;
use crate::model::JobStateView;
use crate::model::QueueView;
use crate::text::decimal;
use crate::text::decimal_string;
use crate::text::join_words;
use crate::text::joined;
use crate::text::split_words;
use crate::text::views;
use crate::text::words;
use crate::trusted::decode_lossy;
use crate::trusted::now;
use crate::trusted::url_parse;
use crate::trusted::url_parsed;
use crate::trusted::url_set_query;
use crate::trusted::url_string;
use crate::trusted::url_text;
use crate::trusted::url_with_query;
use crate::trusted::utf8_lossy;

verus! {

/// The executables that jobs may run, each under its appkey.
pub struct AppKeys {
    paths: StringHashMap<String>,
}

impl View for AppKeys {
    type V = Map<Seq<char>, Seq<char>>;

    closed spec fn view(&self) -> Map<Seq<char>, Seq<char>> {
        self.paths@.map_values(|path: String| path@)
    }
}

impl AppKeys {
    /// No appkey at all.
    pub fn new() -> (res: AppKeys)
        ensures
            res@ == Map::<Seq<char>, Seq<char>>::empty(),
    {
        let res = AppKeys { paths: StringHashMap::new() };
        assert(res@ =~= Map::<Seq<char>, Seq<char>>::empty());
        res
    }

    /// Puts the executable `path` under `key`, in place of what was there.
    pub fn insert(&mut self, key: String, path: String)
        ensures
            final(self)@ == old(self)@.insert(key@, path@),
    {
        self.paths.insert(key, path);
        assert(self@ =~= old(self)@.insert(key@, path@));
    }

    /// The executable under `key`, if there is one.
    pub fn get(&self, key: &str) -> (res: Option<&String>)
        ensures
            match res {
                Some(path) => self@.contains_key(key@) && path@ == self@[key@],
                None => !self@.contains_key(key@),
            },
    {
        self.paths.get(key)
    }
}

/// Appkeys with their executables as the contracts see them.
pub open spec fn entries_of(entries: Seq<(String, String)>) -> Seq<(Seq<char>, Seq<char>)> {
    Seq::new(entries.len(), |i: int| (entries[i].0@, entries[i].1@))
}

/// The map `keys` after the entries `entries` were put into it, one after
/// the other.
pub open spec fn with_entries(
    keys: Map<Seq<char>, Seq<char>>,
    entries: Seq<(Seq<char>, Seq<char>)>,
) -> Map<Seq<char>, Seq<char>>
    decreases entries.len(),
{
    if entries.len() == 0 {
        keys
    } else {
        with_entries(keys, entries.drop_last()).insert(entries.last().0, entries.last().1)
    }
}

impl AppKeys {
    /// Puts each executable of `entries` under its key, one after the
    /// other, so that of two entries with one key the later stays.
    pub fn extend(&mut self, entries: &Vec<(String, String)>)
        ensures
            final(self)@ == with_entries(old(self)@, entries_of(entries@)),
    {
        let ghost all = entries_of(entries@);
        let mut i: usize = 0;
        while i < entries.len()
            invariant
                i <= entries.len(),
                all == entries_of(entries@),
                self@ == with_entries(old(self)@, all.take(i as int)),
            decreases entries.len() - i,
        {
            proof {
                assert(all.take(i + 1).drop_last() =~= all.take(i as int));
                assert(all.take(i + 1).last() == all[i as int]);
            }
            self.insert(entries[i].0.clone(), entries[i].1.clone());
            i += 1;
        }
        proof {
            assert(all.take(all.len() as int) =~= all);
        }
    }
}

/// How a job is launched: a program with its arguments, in a directory.
#[derive(Debug)]
pub struct Launch {
    pub program: String,
    pub args: Vec<String>,
    pub directory: String,
    /// Whether the command line of the job starts with a known appkey.
    pub appkey_known: bool,
}

/// Whether `cmdline` starts with an appkey that `appkeys` knows.
pub open spec fn appkey_known(cmdline: Seq<char>, appkeys: Map<Seq<char>, Seq<char>>) -> bool {
    words(cmdline).len() > 0 && appkeys.contains_key(words(cmdline)[0])
}

/// The command that the shell runs for `cmdline`: the executable of its
/// appkey takes the place of the shell, with the words behind the appkey as
/// its arguments. Without a known appkey it is a command that fails.
pub open spec fn script_of(cmdline: Seq<char>, appkeys: Map<Seq<char>, Seq<char>>) -> Seq<char> {
    let path = if appkey_known(cmdline, appkeys) {
        appkeys[words(cmdline)[0]]
    } else {
        "invalid-appkey"@
    };
    "exec "@ + path + " "@ + joined(words(cmdline), 1)
}

/// Says how the job with the command line `cmdline` is launched: by a shell
/// in the root directory, which hands over to the executable of the appkey.
pub fn launch_for(cmdline: &str, appkeys: &AppKeys) -> (launch: Launch)
    ensures
        launches(launch, cmdline@, appkeys@),
{
    let ws = split_words(cmdline);
    let rest = join_words(&ws, 1);
    let mut script = "exec ".to_owned();
    let mut known = false;
    if ws.len() > 0 {
        assert(views(ws@)[0] == ws@[0]@);
        if let Some(path) = appkeys.get(ws[0].as_str()) {
            script.append(path.as_str());
            known = true;
        }
    }
    if !known {
        script.append("invalid-appkey");
    }
    script.append(" ");
    script.append(rest.as_str());
    let mut args: Vec<String> = Vec::new();
    args.push("-c".to_owned());
    args.push(script);
    assert(views(args@) =~= seq!["-c"@, script_of(cmdline@, appkeys@)]);
    Launch { program: "sh".to_owned(), args, directory: "/".to_owned(), appkey_known: known }
}

/// How a process has ended.
#[derive(Debug, PartialEq, Eq, Clone, Copy, Structural)]
pub enum Exit {
    /// By itself, with the given exit code.
    Code(i32),
    /// Killed by the given signal.
    Signal(i32),
}

/// What came of the launch of a job.
#[derive(Debug)]
pub enum Ended {
    /// The process ran and has ended, and this is what it wrote.
    Ran { exit: Exit, stdout: Vec<u8>, stderr: Vec<u8> },
    /// The process could not be started, for the reason given.
    NotLaunched(String),
}

/// The state of a job whose process has ended with `exit`.
pub open spec fn state_after(exit: Exit) -> JobStateView {
    match exit {
        Exit::Signal(signal) => JobStateView::Killed(signal),
        Exit::Code(code) => JobStateView::Terminated(code),
    }
}

/// The state in which `ended` leaves the job.
pub open spec fn end_state(ended: Ended) -> JobStateView {
    match ended {
        Ended::Ran { exit, .. } => state_after(exit),
        Ended::NotLaunched(reason) => JobStateView::Failed(reason@),
    }
}

/// The standard output that is recorded for a job that `ended`.
pub open spec fn end_stdout(ended: Ended) -> Seq<char> {
    match ended {
        Ended::Ran { stdout, .. } => utf8_lossy(stdout@),
        Ended::NotLaunched(_) => Seq::empty(),
    }
}

/// The standard error that is recorded for a job that `ended`.
pub open spec fn end_stderr(ended: Ended) -> Seq<char> {
    match ended {
        Ended::Ran { stderr, .. } => utf8_lossy(stderr@),
        Ended::NotLaunched(_) => Seq::empty(),
    }
}

/// Records at the time `now` that the running job has ended: a process
/// that a signal killed leaves it killed, one that ended by itself leaves
/// it terminated, with what it wrote decoded as text, and one that could
/// not be started leaves it failed.
pub fn record_end_at(q: &mut JobQueue, ended: Ended, now: SystemTime) -> (job: Option<Job>)
    requires
        old(q).wf(),
        old(q)@.queue.len() > 0 ==> old(q)@.head_running(),
    ensures
        final(q).wf(),
        final(q)@ == old(q)@.finish(end_state(ended), end_stdout(ended), end_stderr(ended), now),
        job is Some <==> old(q)@.queue.len() > 0,
        job matches Some(j) ==> j@ == final(q)@.finished.last(),
        ended matches Ended::Ran { stdout, .. } ==> (valid_utf8(stdout@) ==> end_stdout(ended)
            == decode_utf8(stdout@)),
        ended matches Ended::Ran { stderr, .. } ==> (valid_utf8(stderr@) ==> end_stderr(ended)
            == decode_utf8(stderr@)),
{
    match ended {
        Ended::Ran { exit, stdout, stderr } => {
            let out = decode_lossy(&stdout);
            let err = decode_lossy(&stderr);
            let state = match exit {
                Exit::Signal(signal) => JobState::Killed(signal),
                Exit::Code(code) => JobState::Terminated(code),
            };
            q.finish_at(state, out, err, now)
        },
        Ended::NotLaunched(reason) => {
            q.finish_at(JobState::Failed(reason), String::new(), String::new(), now)
        },
    }
}

/// Records that the running job has ended, as of the time of the call.
pub fn record_end(q: &mut JobQueue, ended: Ended) -> (job: Option<Job>)
    requires
        old(q).wf(),
        old(q)@.queue.len() > 0 ==> old(q)@.head_running(),
    ensures
        final(q).wf(),
        exists|t: SystemTime| final(q)@ == #[trigger] old(q)@.finish(
            end_state(ended),
            end_stdout(ended),
            end_stderr(ended),
            t,
        ),
        job is Some <==> old(q)@.queue.len() > 0,
        job matches Some(j) ==> j@ == final(q)@.finished.last(),
{
    let t = now();
    record_end_at(q, ended, t)
}

/// The query that tells the notified party which job has ended.
pub open spec fn notify_query(id: u64) -> Seq<char> {
    "jobid="@ + decimal(id as nat)
}

/// Whether the query `query` can be put on an address whose text has
/// `len` characters.
pub open spec fn query_fits(len: nat, query: Seq<char>) -> bool {
    len <= 0x1000_0000 && query.len() <= 0x100_0000
}

/// The address that is called when the job `id` has ended: `url` with the
/// job's id as its query.
pub fn notify_target(url: &Url, id: u64) -> (target: Url)
    requires
        query_fits(url_text(*url).len(), notify_query(id)),
    ensures
        target == url_with_query(*url, notify_query(id)),
{
    let mut query = "jobid=".to_owned();
    query.append(decimal_string(id).as_str());
    url_set_query(url, query.as_str())
}

/// The address that is called when the job `id` has ended, unless `url` is
/// too long to take a query.
pub fn try_notify_target(url: &Url, id: u64) -> (target: Option<Url>)
    ensures
        match target {
            Some(t) => query_fits(url_text(*url).len(), notify_query(id)) && t == url_with_query(
                *url,
                notify_query(id),
            ),
            None => !query_fits(url_text(*url).len(), notify_query(id)),
        },
{
    let len = url_string(url).as_str().unicode_len();
    let mut query = "jobid=".to_owned();
    query.append(decimal_string(id).as_str());
    if len <= 0x1000_0000 && query.as_str().unicode_len() <= 0x100_0000 {
        Some(notify_target(url, id))
    } else {
        None
    }
}

/// Reads `text` as an address, such as the one that is to be notified.
pub fn notify_address(text: &str) -> (res: Option<Url>)
    ensures
        res == url_parsed(text@),
{
    url_parse(text)
}

/// What the runner is told.
#[derive(Debug)]
pub enum Event {
    /// The runner starts, was woken, or is done with a job.
    Wake,
    /// The job `id` was launched, as the process `pid`.
    Started { id: u64, pid: u32 },
    /// The launch of the running job has come to its end.
    Ended(Ended),
}

/// What the runner is to do next.
#[derive(Debug)]
pub enum Action {
    /// Wait until the queue changes; then comes [`Event::Wake`].
    Sleep,
    /// Launch `job` as `launch` says; then comes [`Event::Started`], or
    /// [`Event::Ended`] if no process could be started.
    Launch { job: Job, launch: Launch },
    /// Wait for the process to end; then comes [`Event::Ended`].
    Await,
    /// Save the queue, call the address `notify` if there is one, and go
    /// on with [`Event::Wake`]. `ended` is the job that has ended.
    Settle { ended: Option<Job>, notify: Option<Url> },
}

/// The runner's part of the daemon: the appkeys and the address that is
/// told of every job that has ended.
pub struct Runner {
    pub appkeys: AppKeys,
    pub notify_url: Option<Url>,
}

/// The queue after the runner was told of `event` at `now`.
pub open spec fn queue_after_event(q: QueueView, event: Event, now: SystemTime) -> QueueView {
    match event {
        Event::Wake => q.schedule(now),
        Event::Started { id, pid } => q.assign_pid(id, pid),
        Event::Ended(ended) => q.finish(
            end_state(ended),
            end_stdout(ended),
            end_stderr(ended),
            now,
        ),
    }
}

/// The address that is told that the job `id` has ended, where `url` is
/// the configured one.
pub open spec fn notified(url: Option<Url>, id: u64) -> Option<Url> {
    match url {
        Some(u) => if query_fits(url_text(u).len(), notify_query(id)) {
            Some(url_with_query(u, notify_query(id)))
        } else {
            None
        },
        None => None,
    }
}

/// Whether `launch` is how the job with the command line `cmdline` is
/// launched: by a shell in the root directory that runs the command of
/// [`script_of`].
pub open spec fn launches(
    launch: Launch,
    cmdline: Seq<char>,
    appkeys: Map<Seq<char>, Seq<char>>,
) -> bool {
    &&& launch.program@ == "sh"@
    &&& views(launch.args@) == seq!["-c"@, script_of(cmdline, appkeys)]
    &&& launch.directory@ == "/"@
    &&& launch.appkey_known == appkey_known(cmdline, appkeys)
}

impl Runner {
    /// Whether `action` is what the runner asks for when it is told of
    /// `event` with the queue `before`, which is `after` once it was told.
    pub open spec fn asks(
        self,
        before: QueueView,
        after: QueueView,
        event: Event,
        action: Action,
    ) -> bool {
        match event {
            Event::Wake => if before.can_dispatch() {
                &&& action matches Action::Launch { job, launch }
                &&& job@ == after.queue[0]
                &&& launches(launch, job@.cmdline, self.appkeys@)
            } else {
                action is Sleep
            },
            Event::Started { .. } => action is Await,
            Event::Ended(_) => {
                &&& action matches Action::Settle { ended, notify }
                &&& ended is Some <==> before.queue.len() > 0
                &&& ended matches Some(j) ==> j@ == after.finished.last() && notify == notified(
                    self.notify_url,
                    j.id,
                )
                &&& ended is None ==> notify is None
            },
        }
    }

    /// Tells the runner of `event` at the time `now`. It changes the queue
    /// accordingly and says what is to be done next: on a wake-up the head
    /// of the queue is launched if the queue dispatches it, and else the
    /// runner sleeps; a started process is noted and awaited; the end of a
    /// process ends the running job, which is then to be saved and
    /// notified.
    pub fn step_at(&self, q: &mut JobQueue, event: Event, now: SystemTime) -> (action: Action)
        requires
            old(q).wf(),
            event is Ended ==> (old(q)@.queue.len() > 0 ==> old(q)@.head_running()),
        ensures
            final(q).wf(),
            final(q)@ == queue_after_event(old(q)@, event, now),
            self.asks(old(q)@, final(q)@, event, action),
    {
        match event {
            Event::Wake => match q.schedule_at(now) {
                Some(job) => {
                    let launch = launch_for(job.cmdline.as_str(), &self.appkeys);
                    Action::Launch { job, launch }
                },
                None => Action::Sleep,
            },
            Event::Started { id, pid } => {
                q.assign_pid(id, pid);
                Action::Await
            },
            Event::Ended(ended) => {
                let job = record_end_at(q, ended, now);
                let notify = match (&job, &self.notify_url) {
                    (Some(j), Some(url)) => try_notify_target(url, j.id),
                    _ => None,
                };
                Action::Settle { ended: job, notify }
            },
        }
    }

    /// Tells the runner of `event`, as of the time of the call.
    pub fn step(&self, q: &mut JobQueue, event: Event) -> (action: Action)
        requires
            old(q).wf(),
            event is Ended ==> (old(q)@.queue.len() > 0 ==> old(q)@.head_running()),
        ensures
            final(q).wf(),
            exists|t: SystemTime| final(q)@ == #[trigger] queue_after_event(old(q)@, event, t),
            self.asks(old(q)@, final(q)@, event, action),
    {
        let t = now();
        self.step_at(q, event, t)
    }
}

} // verus!
