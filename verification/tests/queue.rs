use std::time::{Duration, SystemTime};

use qmanager::job_queue::{
    interrupted_message, sigterm_command, sigterm_result, FailReason, Job, JobQueue, JobState,
    KillError, QueueState,
};

fn at(secs: u64) -> SystemTime {
    SystemTime::UNIX_EPOCH + Duration::from_secs(secs)
}

fn ids(q: &JobQueue) -> (Vec<u64>, Vec<u64>) {
    (
        q.iter_queued().map(|j| j.id).collect(),
        q.iter_finished().map(|j| j.id).collect(),
    )
}

fn check_invariant(q: &JobQueue) {
    let queued: Vec<&Job> = q.iter_queued().collect();
    let finished: Vec<&Job> = q.iter_finished().collect();
    let mut last: Option<u64> = None;
    for j in finished.iter().chain(queued.iter()) {
        if let Some(prev) = last {
            assert!(prev < j.id);
        }
        assert!(j.id <= q.last_id());
        last = Some(j.id);
    }
    for (i, j) in queued.iter().enumerate() {
        match j.state {
            JobState::Queued => {
                assert!(j.started.is_none() && j.finished.is_none() && j.pid.is_none());
            }
            JobState::Running => {
                assert_eq!(i, 0);
                assert!(j.started.is_some() && j.finished.is_none());
            }
            _ => panic!("a terminal job in the queue"),
        }
    }
    for j in finished.iter() {
        assert!(matches!(
            j.state,
            JobState::Terminated(_) | JobState::Killed(_) | JobState::Failed(_)
        ));
        assert!(j.started.is_some() && j.finished.is_some());
    }
    if q.get_state() == QueueState::Stopped {
        assert!(queued.iter().all(|j| j.state != JobState::Running));
    }
}

#[test]
fn new_queue_is_running_and_empty() {
    let q = JobQueue::new(7);
    assert_eq!(q.get_state(), QueueState::Running);
    assert_eq!(q.last_id(), 7);
    assert_eq!(q.iter_queued().count(), 0);
    assert_eq!(q.iter_finished().count(), 0);
    check_invariant(&q);
}

#[test]
fn submit_assigns_the_next_id() {
    let mut q = JobQueue::new(0);
    assert_eq!(q.submit("echo a".to_string()), 1);
    assert_eq!(q.submit("echo b".to_string()), 2);
    assert_eq!(q.last_id(), 2);
    let mut q = JobQueue::new(41);
    assert_eq!(q.submit_at("echo c".to_string(), at(5)), 42);
    let job = q.iter_queued().next().unwrap();
    assert_eq!(job.id, 42);
    assert_eq!(job.cmdline, "echo c");
    assert_eq!(job.scheduled, at(5));
    assert_eq!(job.state, JobState::Queued);
    assert!(job.started.is_none() && job.finished.is_none() && job.pid.is_none());
    assert_eq!(job.stdout, "");
    assert_eq!(job.stderr, "");
    check_invariant(&q);
}

#[test]
fn submitted_ids_grow_strictly() {
    let mut q = JobQueue::new(0);
    let mut seen = Vec::new();
    for round in 0..20u64 {
        seen.push(q.submit(format!("echo {}", round)));
        if round % 3 == 0 {
            if q.schedule().is_some() {
                q.finish(JobState::Terminated(0), String::new(), String::new());
            }
        }
        if round % 4 == 1 {
            let _ = q.remove(round);
        }
        check_invariant(&q);
    }
    for pair in seen.windows(2) {
        assert!(pair[0] < pair[1]);
    }
}

#[test]
fn jobs_keep_the_order_of_their_submission() {
    let mut q = JobQueue::new(0);
    for c in ["a", "b", "c", "d"] {
        q.submit(c.to_string());
    }
    assert_eq!(ids(&q), (vec![1, 2, 3, 4], vec![]));
    assert!(q.remove(3).is_ok());
    assert_eq!(ids(&q), (vec![1, 2, 4], vec![]));
    q.schedule();
    q.finish(JobState::Terminated(0), String::new(), String::new());
    q.schedule();
    q.finish(JobState::Killed(9), String::new(), String::new());
    assert_eq!(ids(&q), (vec![4], vec![1, 2]));
    check_invariant(&q);
}

#[test]
fn schedule_dispatches_the_waiting_head_of_a_running_queue() {
    let mut q = JobQueue::new(0);
    assert!(q.schedule().is_none());
    q.submit("echo a".to_string());
    q.submit("echo b".to_string());
    let job = q.schedule_at(at(9)).unwrap();
    assert_eq!(job.id, 1);
    assert_eq!(job.state, JobState::Running);
    assert_eq!(job.started, Some(at(9)));
    assert!(job.pid.is_none());
    let head = q.iter_queued().next().unwrap();
    assert_eq!(head.state, JobState::Running);
    assert_eq!(head.started, Some(at(9)));
    assert!(q.schedule_at(at(10)).is_none());
    assert_eq!(q.iter_queued().next().unwrap().started, Some(at(9)));
    assert_eq!(q.iter_queued().filter(|j| j.state == JobState::Running).count(), 1);
    check_invariant(&q);
}

#[test]
fn schedule_does_nothing_unless_the_queue_runs() {
    let mut q = JobQueue::new(0);
    q.submit("echo a".to_string());
    q.set_state(QueueState::Stopping);
    assert_eq!(q.get_state(), QueueState::Stopping);
    assert!(q.schedule().is_none());
    assert_eq!(q.iter_queued().next().unwrap().state, JobState::Queued);
    q.set_state(QueueState::Running);
    assert!(q.schedule().is_some());
    check_invariant(&q);
}

#[test]
fn assign_pid_marks_the_running_job_only() {
    let mut q = JobQueue::new(0);
    q.submit("sleep 1".to_string());
    q.submit("sleep 2".to_string());
    q.assign_pid(1, 100);
    assert!(q.iter_queued().all(|j| j.pid.is_none()));
    q.schedule();
    q.assign_pid(2, 200);
    assert!(q.iter_queued().all(|j| j.pid.is_none()));
    q.assign_pid(1, 300);
    let pids: Vec<Option<u32>> = q.iter_queued().map(|j| j.pid).collect();
    assert_eq!(pids, vec![Some(300), None]);
    check_invariant(&q);
}

#[test]
fn finish_moves_the_running_job_to_the_finished_jobs() {
    let mut q = JobQueue::new(0);
    assert!(q.finish(JobState::Terminated(0), String::new(), String::new()).is_none());
    q.submit("echo a".to_string());
    q.submit("echo b".to_string());
    q.schedule_at(at(1));
    q.assign_pid(1, 55);
    let done = q
        .finish_at(JobState::Terminated(3), "out".to_string(), "err".to_string(), at(2))
        .unwrap();
    assert_eq!(done.id, 1);
    assert_eq!(done.state, JobState::Terminated(3));
    assert_eq!(done.stdout, "out");
    assert_eq!(done.stderr, "err");
    assert_eq!(done.started, Some(at(1)));
    assert_eq!(done.finished, Some(at(2)));
    assert_eq!(done.pid, Some(55));
    assert_eq!(ids(&q), (vec![2], vec![1]));
    let kept = q.iter_finished().next().unwrap();
    assert_eq!(kept.state, JobState::Terminated(3));
    assert_eq!(kept.stdout, "out");
    assert_eq!(q.get_state(), QueueState::Running);
    check_invariant(&q);
}

#[test]
fn finish_stops_a_queue_that_was_stopping() {
    let mut q = JobQueue::new(0);
    q.submit("sleep 2".to_string());
    q.submit("echo x".to_string());
    q.schedule();
    q.set_state(QueueState::Stopping);
    assert_eq!(q.get_state(), QueueState::Stopping);
    q.finish(JobState::Terminated(0), String::new(), String::new());
    assert_eq!(q.get_state(), QueueState::Stopped);
    assert!(q.schedule().is_none());
    assert_eq!(q.iter_queued().next().unwrap().state, JobState::Queued);
    q.set_state(QueueState::Running);
    assert_eq!(q.schedule().unwrap().id, 2);
    check_invariant(&q);
}

#[test]
fn set_state_stops_an_empty_queue_at_once() {
    let mut q = JobQueue::new(0);
    q.set_state(QueueState::Stopping);
    assert_eq!(q.get_state(), QueueState::Stopped);
    q.set_state(QueueState::Running);
    assert_eq!(q.get_state(), QueueState::Running);
    q.submit("echo a".to_string());
    q.set_state(QueueState::Stopping);
    assert_eq!(q.get_state(), QueueState::Stopping);
    check_invariant(&q);
}

#[test]
fn remove_takes_finished_and_waiting_jobs() {
    let mut q = JobQueue::new(0);
    q.submit("a".to_string());
    q.submit("b".to_string());
    q.submit("c".to_string());
    q.schedule();
    q.finish(JobState::Terminated(0), String::new(), String::new());
    q.schedule();
    assert_eq!(q.remove(2).err(), Some(FailReason::WrongJobState));
    assert_eq!(q.remove(999).err(), Some(FailReason::NoSuchJob));
    assert_eq!(ids(&q), (vec![2, 3], vec![1]));
    let gone = q.remove(1).unwrap();
    assert_eq!(gone.id, 1);
    assert_eq!(gone.state, JobState::Terminated(0));
    let gone = q.remove(3).unwrap();
    assert_eq!(gone.id, 3);
    assert_eq!(gone.state, JobState::Queued);
    assert_eq!(ids(&q), (vec![2], vec![]));
    assert_eq!(q.remove(1).err(), Some(FailReason::NoSuchJob));
    assert_eq!(q.last_id(), 3);
    assert_eq!(q.submit("d".to_string()), 4);
    check_invariant(&q);
}

#[test]
fn reset_first_job_puts_a_running_head_back_to_wait() {
    let mut q = JobQueue::new(0);
    q.reset_first_job(JobState::Queued);
    q.submit("a".to_string());
    q.schedule();
    q.assign_pid(1, 5);
    q.reset_first_job_at(JobState::Queued, at(3));
    let head = q.iter_queued().next().unwrap();
    assert_eq!(head.state, JobState::Queued);
    assert!(head.started.is_none() && head.pid.is_none() && head.finished.is_none());
    assert_eq!(ids(&q), (vec![1], vec![]));
    check_invariant(&q);
}

#[test]
fn reset_first_job_fails_a_running_head() {
    let mut q = JobQueue::new(0);
    q.submit("a".to_string());
    q.submit("b".to_string());
    q.reset_first_job(JobState::Failed("no".to_string()));
    assert_eq!(ids(&q), (vec![1, 2], vec![]));
    q.schedule();
    q.reset_first_job_at(JobState::Failed("broken".to_string()), at(8));
    assert_eq!(ids(&q), (vec![2], vec![1]));
    let failed = q.iter_finished().next().unwrap();
    assert_eq!(failed.state, JobState::Failed("broken".to_string()));
    assert_eq!(failed.finished, Some(at(8)));
    assert_eq!(failed.stdout, "");
    check_invariant(&q);
}

#[test]
fn recovery_of_a_running_queue_fails_the_interrupted_job() {
    let mut q = JobQueue::new(0);
    q.submit("sleep 60".to_string());
    q.submit("echo x".to_string());
    q.schedule();
    q.assign_pid(1, 4242);
    q.recover();
    assert_eq!(ids(&q), (vec![2], vec![1]));
    assert_eq!(
        q.iter_finished().next().unwrap().state,
        JobState::Failed(
            "Interrupted by system failure, please re-submit or ask for assistance".to_string()
        )
    );
    assert_eq!(q.iter_queued().next().unwrap().state, JobState::Queued);
    assert_eq!(q.get_state(), QueueState::Running);
    check_invariant(&q);
    q.recover();
    assert_eq!(ids(&q), (vec![2], vec![1]));
    assert_eq!(
        interrupted_message(),
        "Interrupted by system failure, please re-submit or ask for assistance"
    );
}

#[test]
fn recovery_of_a_stopping_queue_requeues_the_interrupted_job() {
    let mut q = JobQueue::new(0);
    q.submit("sleep 60".to_string());
    q.submit("echo x".to_string());
    q.schedule();
    q.assign_pid(1, 4242);
    q.set_state(QueueState::Stopping);
    q.recover_at(at(4));
    assert_eq!(ids(&q), (vec![1, 2], vec![]));
    let head = q.iter_queued().next().unwrap();
    assert_eq!(head.state, JobState::Queued);
    assert!(head.started.is_none() && head.pid.is_none());
    assert_eq!(q.get_state(), QueueState::Stopping);
    check_invariant(&q);
}

#[test]
fn recovery_leaves_a_stopped_queue_alone() {
    let mut q = JobQueue::new(0);
    q.submit("a".to_string());
    q.schedule();
    q.set_state(QueueState::Stopping);
    q.finish(JobState::Terminated(0), String::new(), String::new());
    q.submit("b".to_string());
    assert_eq!(q.get_state(), QueueState::Stopped);
    q.recover();
    assert_eq!(ids(&q), (vec![2], vec![1]));
    assert_eq!(q.get_state(), QueueState::Stopped);
    check_invariant(&q);
}

fn job(id: u64, state: JobState) -> Job {
    let started = match state {
        JobState::Queued => None,
        _ => Some(at(1)),
    };
    let finished = match state {
        JobState::Queued | JobState::Running => None,
        _ => Some(at(2)),
    };
    Job {
        id,
        cmdline: "echo".to_string(),
        scheduled: at(0),
        started,
        finished,
        stderr: String::new(),
        stdout: String::new(),
        state,
        pid: None,
    }
}

#[test]
fn from_parts_takes_a_well_formed_queue() {
    let q = JobQueue::from_parts(
        9,
        QueueState::Stopping,
        vec![job(4, JobState::Running), job(6, JobState::Queued)],
        vec![job(1, JobState::Terminated(0)), job(3, JobState::Failed("x".to_string()))],
    )
    .unwrap();
    assert_eq!(ids(&q), (vec![4, 6], vec![1, 3]));
    assert_eq!(q.last_id(), 9);
    assert_eq!(q.get_state(), QueueState::Stopping);
    check_invariant(&q);
    assert!(JobQueue::from_parts(0, QueueState::Stopped, vec![], vec![]).is_some());
}

#[test]
fn from_parts_refuses_what_breaks_the_invariant() {
    let none = |last, state, queue, finished| JobQueue::from_parts(last, state, queue, finished).is_none();
    // an id above the last id
    assert!(none(3, QueueState::Running, vec![job(4, JobState::Queued)], vec![]));
    // an id twice
    assert!(none(9, QueueState::Running, vec![job(4, JobState::Queued), job(4, JobState::Queued)], vec![]));
    // ids out of order
    assert!(none(9, QueueState::Running, vec![job(5, JobState::Queued), job(4, JobState::Queued)], vec![]));
    // a finished job behind a queued one
    assert!(none(9, QueueState::Running, vec![job(2, JobState::Queued)], vec![job(3, JobState::Killed(9))]));
    // a running job behind the head
    assert!(none(9, QueueState::Running, vec![job(1, JobState::Queued), job(2, JobState::Running)], vec![]));
    // a terminal job in the queue
    assert!(none(9, QueueState::Running, vec![job(1, JobState::Terminated(0))], vec![]));
    // a job among the finished that is not done
    assert!(none(9, QueueState::Running, vec![], vec![job(1, JobState::Running)]));
    // a running job in a stopped queue
    assert!(none(9, QueueState::Stopped, vec![job(1, JobState::Running)], vec![]));
    // a waiting job with a process
    let mut odd = job(1, JobState::Queued);
    odd.pid = Some(3);
    assert!(none(9, QueueState::Running, vec![odd], vec![]));
}

#[test]
fn sigterm_goes_to_the_process_of_the_running_job() {
    let mut q = JobQueue::new(0);
    assert_eq!(q.sigterm_target(1), Err(KillError::NotRunning));
    q.submit("sleep 60".to_string());
    assert_eq!(q.sigterm_target(1), Err(KillError::NotRunning));
    q.schedule();
    assert_eq!(q.sigterm_target(1), Err(KillError::NoProcess));
    q.assign_pid(1, 321);
    assert_eq!(q.sigterm_target(1), Ok(321));
    assert_eq!(q.sigterm_target(2), Err(KillError::NotRunning));
    assert_eq!(sigterm_command(321), vec!["/bin/kill", "-SIGTERM", "321"]);
}

#[test]
fn the_exit_code_of_kill_decides() {
    assert_eq!(sigterm_result(Some(0)), Ok(()));
    assert_eq!(sigterm_result(Some(1)), Err(KillError::Refused(1)));
    assert_eq!(sigterm_result(Some(-3)), Err(KillError::Refused(-3)));
    assert_eq!(sigterm_result(None), Err(KillError::NoExitCode));
}

#[test]
fn copies_of_the_jobs_are_what_the_queue_holds() {
    let mut q = JobQueue::new(0);
    q.submit("a".to_string());
    q.submit("b".to_string());
    q.schedule();
    q.finish(JobState::Terminated(0), "o".to_string(), "e".to_string());
    let queued = q.queued_jobs();
    let finished = q.finished_jobs();
    assert_eq!(queued.len(), 1);
    assert_eq!(queued[0].id, 2);
    assert_eq!(finished.len(), 1);
    assert_eq!(finished[0].id, 1);
    assert_eq!(finished[0].stdout, "o");
    let copy = finished[0].clone();
    assert_eq!(copy.stderr, "e");
    assert_eq!(copy.state.clone(), JobState::Terminated(0));
}

#[test]
fn a_copy_of_the_queue_goes_its_own_way() {
    let mut q = JobQueue::new(0);
    q.submit("a".to_string());
    q.submit("b".to_string());
    q.schedule();
    let mut copy = q.clone();
    assert_eq!(ids(&copy), ids(&q));
    assert_eq!(copy.last_id(), 2);
    assert_eq!(copy.get_state(), q.get_state());
    copy.finish(JobState::Terminated(0), String::new(), String::new());
    assert_eq!(ids(&copy), (vec![2], vec![1]));
    assert_eq!(ids(&q), (vec![1, 2], vec![]));
    check_invariant(&copy);
}

#[test]
fn the_invariant_holds_after_every_operation_of_a_long_run() {
    let mut q = JobQueue::new(0);
    let mut seed: u64 = 0x2545_f491_4f6c_dd1d;
    let mut issued: Vec<u64> = Vec::new();
    for round in 0..2000u32 {
        seed = seed.wrapping_mul(6364136223846793005).wrapping_add(1442695040888963407);
        let pick = (seed >> 33) % 9;
        let arg = (seed >> 12) % (q.last_id() + 2);
        let head_runs = q.iter_queued().next().map_or(false, |j| j.state == JobState::Running);
        match pick {
            0 | 1 => issued.push(q.submit(format!("echo {}", round))),
            2 => {
                let before = q.iter_queued().next().map(|j| (j.id, j.state.clone()));
                let job = q.schedule();
                let due = q.get_state() == QueueState::Running
                    && matches!(before, Some((_, JobState::Queued)));
                assert_eq!(job.is_some(), due);
                if let Some(j) = job {
                    assert_eq!(Some(j.id), before.map(|b| b.0));
                }
            }
            3 => q.assign_pid(arg, round),
            4 => {
                if head_runs {
                    let state = match arg % 3 {
                        0 => JobState::Terminated(arg as i32),
                        1 => JobState::Killed(15),
                        _ => JobState::Failed("spawn".to_string()),
                    };
                    assert!(q.finish(state, "out".to_string(), String::new()).is_some());
                }
            }
            5 => {
                let known = q.iter_queued().chain(q.iter_finished()).any(|j| j.id == arg);
                let runs = head_runs && q.iter_queued().next().map(|j| j.id) == Some(arg);
                match q.remove(arg) {
                    Ok(job) => assert!(job.id == arg && known && !runs),
                    Err(FailReason::WrongJobState) => assert!(runs),
                    Err(FailReason::NoSuchJob) => assert!(!known),
                }
            }
            6 => q.set_state(QueueState::Stopping),
            7 => q.set_state(QueueState::Running),
            _ => {
                if arg % 2 == 0 {
                    q.reset_first_job(JobState::Queued);
                } else {
                    q.recover();
                }
            }
        }
        check_invariant(&q);
        assert!(q.iter_queued().filter(|j| j.state == JobState::Running).count() <= 1);
        assert_eq!(q.last_id(), issued.last().copied().unwrap_or(0));
    }
    assert!(issued.len() > 100);
    assert!(issued.windows(2).all(|w| w[0] < w[1]));
}
