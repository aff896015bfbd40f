use std::time::{Duration, SystemTime};

use qmanager::job_queue::{JobQueue, JobState};
use qmanager::runner::{
    launch_for, notify_address, notify_target, record_end, record_end_at, try_notify_target,
    Action, AppKeys, Ended, Event, Exit, Runner,
};

fn appkeys() -> AppKeys {
    let mut keys = AppKeys::new();
    keys.insert("sleep".to_string(), "/bin/sleep".to_string());
    keys.insert("echo".to_string(), "/bin/echo".to_string());
    keys
}

#[test]
fn a_known_appkey_is_replaced_by_its_executable() {
    let launch = launch_for("echo hello world", &appkeys());
    assert_eq!(launch.program, "sh");
    assert_eq!(launch.args, vec!["-c", "exec /bin/echo hello world"]);
    assert_eq!(launch.directory, "/");
    assert!(launch.appkey_known);
    let launch = launch_for("  sleep \t 60\n", &appkeys());
    assert_eq!(launch.args, vec!["-c", "exec /bin/sleep 60"]);
    let launch = launch_for("echo", &appkeys());
    assert_eq!(launch.args, vec!["-c", "exec /bin/echo "]);
}

#[test]
fn an_unknown_appkey_gives_a_command_that_fails() {
    let launch = launch_for("nosuchappkey foo", &appkeys());
    assert_eq!(launch.args, vec!["-c", "exec invalid-appkey foo"]);
    assert!(!launch.appkey_known);
    let launch = launch_for("", &appkeys());
    assert_eq!(launch.args, vec!["-c", "exec invalid-appkey "]);
    assert!(!launch.appkey_known);
    let mut keys = appkeys();
    keys.insert(String::new(), "/bin/true".to_string());
    let launch = launch_for("   ", &keys);
    assert_eq!(launch.args, vec!["-c", "exec invalid-appkey "]);
}

#[test]
fn appkeys_are_looked_up_by_their_key() {
    let mut keys = appkeys();
    assert_eq!(keys.get("echo").map(|s| s.as_str()), Some("/bin/echo"));
    assert!(keys.get("ech").is_none());
    keys.insert("echo".to_string(), "/usr/bin/echo".to_string());
    assert_eq!(keys.get("echo").map(|s| s.as_str()), Some("/usr/bin/echo"));
    keys.extend(&vec![
        ("a".to_string(), "/1".to_string()),
        ("b".to_string(), "/2".to_string()),
        ("a".to_string(), "/3".to_string()),
    ]);
    assert_eq!(keys.get("a").map(|s| s.as_str()), Some("/3"));
    assert_eq!(keys.get("b").map(|s| s.as_str()), Some("/2"));
    assert_eq!(keys.get("sleep").map(|s| s.as_str()), Some("/bin/sleep"));
}

fn running_queue() -> JobQueue {
    let mut q = JobQueue::new(0);
    q.submit("echo hello world".to_string());
    q.schedule();
    q.assign_pid(1, 10);
    q
}

#[test]
fn a_process_that_exits_leaves_its_job_terminated() {
    let mut q = running_queue();
    let now = SystemTime::UNIX_EPOCH + Duration::from_secs(30);
    let job = record_end_at(
        &mut q,
        Ended::Ran { exit: Exit::Code(0), stdout: b"hello world\n".to_vec(), stderr: Vec::new() },
        now,
    )
    .unwrap();
    assert_eq!(job.id, 1);
    assert_eq!(job.state, JobState::Terminated(0));
    assert_eq!(job.stdout, "hello world\n");
    assert_eq!(job.stderr, "");
    assert_eq!(job.finished, Some(now));
    assert_eq!(q.iter_queued().count(), 0);
    assert_eq!(q.iter_finished().next().unwrap().stdout, "hello world\n");
}

#[test]
fn output_that_is_not_utf8_is_decoded_with_losses() {
    let mut q = running_queue();
    let job = record_end(
        &mut q,
        Ended::Ran {
            exit: Exit::Code(127),
            stdout: vec![b'a', 0xff, b'b'],
            stderr: "sh: not found: \u{e9}".as_bytes().to_vec(),
        },
    )
    .unwrap();
    assert_eq!(job.state, JobState::Terminated(127));
    assert_eq!(job.stdout, "a\u{fffd}b");
    assert_eq!(job.stderr, "sh: not found: \u{e9}");
}

#[test]
fn a_process_killed_by_a_signal_leaves_its_job_killed() {
    let mut q = running_queue();
    let job = record_end(
        &mut q,
        Ended::Ran { exit: Exit::Signal(15), stdout: Vec::new(), stderr: Vec::new() },
    )
    .unwrap();
    assert_eq!(job.state, JobState::Killed(15));
}

#[test]
fn a_process_that_could_not_start_leaves_its_job_failed() {
    let mut q = running_queue();
    let job = record_end(&mut q, Ended::NotLaunched("No such file or directory".to_string())).unwrap();
    assert_eq!(job.state, JobState::Failed("No such file or directory".to_string()));
    assert_eq!(job.stdout, "");
    assert_eq!(job.stderr, "");
    let mut empty = JobQueue::new(0);
    assert!(record_end(&mut empty, Ended::NotLaunched("x".to_string())).is_none());
}

#[test]
fn the_notified_address_carries_the_job_id() {
    let url = notify_address("http://example.com/notify").unwrap();
    assert_eq!(notify_target(&url, 7).as_str(), "http://example.com/notify?jobid=7");
    assert_eq!(
        notify_target(&url, u64::MAX).as_str(),
        "http://example.com/notify?jobid=18446744073709551615"
    );
    let url = notify_address("https://example.com/n?old=1&x=y#frag").unwrap();
    assert_eq!(
        try_notify_target(&url, 12).unwrap().as_str(),
        "https://example.com/n?jobid=12#frag"
    );
    assert_eq!(url.as_str(), "https://example.com/n?old=1&x=y#frag");
}

#[test]
fn what_is_no_address_is_not_read_as_one() {
    assert!(notify_address("not an address").is_none());
    assert!(notify_address("").is_none());
    assert_eq!(
        notify_address("HTTP://Example.COM").unwrap().as_str(),
        "http://example.com/"
    );
}

#[test]
fn the_runner_goes_from_wake_up_to_settlement() {
    let runner = Runner {
        appkeys: appkeys(),
        notify_url: notify_address("http://localhost:8080/done"),
    };
    let mut q = JobQueue::new(0);
    assert!(matches!(runner.step(&mut q, Event::Wake), Action::Sleep));
    q.submit("echo hello world".to_string());
    q.submit("nosuchappkey foo".to_string());
    let id = match runner.step(&mut q, Event::Wake) {
        Action::Launch { job, launch } => {
            assert_eq!(job.id, 1);
            assert_eq!(job.state, JobState::Running);
            assert_eq!(launch.args, vec!["-c", "exec /bin/echo hello world"]);
            job.id
        }
        other => panic!("unexpected action {:?}", other),
    };
    assert!(matches!(runner.step(&mut q, Event::Started { id, pid: 99 }), Action::Await));
    assert_eq!(q.iter_queued().next().unwrap().pid, Some(99));
    let ended = Ended::Ran { exit: Exit::Code(0), stdout: b"hello world\n".to_vec(), stderr: Vec::new() };
    match runner.step(&mut q, Event::Ended(ended)) {
        Action::Settle { ended, notify } => {
            let job = ended.unwrap();
            assert_eq!(job.id, 1);
            assert_eq!(job.state, JobState::Terminated(0));
            assert_eq!(job.stdout, "hello world\n");
            assert_eq!(notify.unwrap().as_str(), "http://localhost:8080/done?jobid=1");
        }
        other => panic!("unexpected action {:?}", other),
    }
    match runner.step(&mut q, Event::Wake) {
        Action::Launch { job, launch } => {
            assert_eq!(job.id, 2);
            assert!(!launch.appkey_known);
            assert_eq!(launch.args, vec!["-c", "exec invalid-appkey foo"]);
        }
        other => panic!("unexpected action {:?}", other),
    }
    match runner.step(&mut q, Event::Ended(Ended::NotLaunched("no shell".to_string()))) {
        Action::Settle { ended, notify } => {
            assert_eq!(ended.unwrap().state, JobState::Failed("no shell".to_string()));
            assert!(notify.is_some());
        }
        other => panic!("unexpected action {:?}", other),
    }
    assert_eq!(q.iter_queued().count(), 0);
    assert_eq!(q.iter_finished().count(), 2);
    assert!(matches!(runner.step(&mut q, Event::Wake), Action::Sleep));
}

#[test]
fn a_runner_without_an_address_notifies_nobody() {
    let runner = Runner { appkeys: appkeys(), notify_url: None };
    let mut q = running_queue();
    let ended = Ended::Ran { exit: Exit::Signal(9), stdout: Vec::new(), stderr: Vec::new() };
    match runner.step(&mut q, Event::Ended(ended)) {
        Action::Settle { ended, notify } => {
            assert_eq!(ended.unwrap().state, JobState::Killed(9));
            assert!(notify.is_none());
        }
        other => panic!("unexpected action {:?}", other),
    }
    let mut empty = JobQueue::new(0);
    match runner.step(&mut empty, Event::Ended(Ended::NotLaunched("x".to_string()))) {
        Action::Settle { ended, notify } => {
            assert!(ended.is_none());
            assert!(notify.is_none());
        }
        other => panic!("unexpected action {:?}", other),
    }
}
