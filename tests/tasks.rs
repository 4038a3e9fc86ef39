use pve_tool::error::PveError;
use pve_tool::task::{task_step, TaskProgress, TaskStatus};

fn st(status: &str, exit: Option<&str>) -> TaskStatus {
    TaskStatus { status: status.to_string(), exitstatus: exit.map(|e| e.to_string()) }
}

fn run(polls: &[TaskStatus]) -> Result<usize, PveError> {
    for (i, p) in polls.iter().enumerate() {
        match task_step(p)? {
            TaskProgress::Running => continue,
            TaskProgress::Completed => return Ok(i),
        }
    }
    panic!("polling did not reach a terminal status")
}

#[test]
fn failed_task_carries_exit_text() {
    let polls = vec![st("running", None), st("running", None), st("stopped", Some("job errored"))];
    match run(&polls) {
        Err(PveError::TaskFailed(Some(e))) => assert_eq!(e, "job errored"),
        other => panic!("unexpected {:?}", other),
    }
}

#[test]
fn ok_exit_status_is_success() {
    let polls = vec![st("running", None), st("stopped", Some("OK"))];
    assert_eq!(run(&polls).unwrap(), 1);
}

#[test]
fn missing_exit_status_is_failure() {
    assert!(matches!(task_step(&st("stopped", None)), Err(PveError::TaskFailed(None))));
    assert!(matches!(task_step(&st("stopped", Some("ok"))), Err(PveError::TaskFailed(Some(_)))));
}

#[test]
fn unknown_status_is_protocol_error() {
    match task_step(&st("queued", None)) {
        Err(PveError::UnknownTaskStatus(s)) => assert_eq!(s, "queued"),
        other => panic!("unexpected {:?}", other),
    }
}

#[test]
fn running_asks_for_another_poll() {
    assert!(matches!(task_step(&st("running", Some("OK"))), Ok(TaskProgress::Running)));
}
