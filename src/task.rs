//! Interpreting the status of an asynchronous task while it is polled.
use vstd::prelude::*;

use crate::error::PveError;
use crate::text::{copy_opt_string, str_eq};

verus! {

/// A task's status as one poll reports it.
pub struct TaskStatus {
    pub status: String,
    pub exitstatus: Option<String>,
}

/// What a poll says when it reports no failure.
#[derive(Debug, PartialEq, Eq, Structural)]
pub enum TaskProgress {
    /// Still running: poll again after the interval.
    Running,
    /// Stopped with exit status `OK`.
    Completed,
}

/// Whether an exit status reads `OK`.
pub open spec fn exit_ok(e: Option<String>) -> bool {
    match e {
        Some(s) => s@ == "OK"@,
        None => false,
    }
}

/// What one poll of a task means: `running` asks for another poll; `stopped`
/// with exit status `OK` is success; `stopped` with any other exit status, or
/// none, is a failure carrying that exit status; any other status is a
/// protocol failure carrying the status text.
pub fn task_step(status: &TaskStatus) -> (r: Result<TaskProgress, PveError>)
    ensures
        match r {
            Ok(TaskProgress::Running) => status.status@ == "running"@,
            Ok(TaskProgress::Completed) => status.status@ == "stopped"@ && exit_ok(
                status.exitstatus,
            ),
            Err(PveError::TaskFailed(e)) => status.status@ == "stopped"@ && !exit_ok(
                status.exitstatus,
            ) && e == status.exitstatus,
            Err(PveError::UnknownTaskStatus(s)) => status.status@ != "running"@
                && status.status@ != "stopped"@ && s@ == status.status@,
            Err(_) => false,
        },
{
    if str_eq(status.status.as_str(), "stopped") {
        let ok = match &status.exitstatus {
            Some(e) => str_eq(e.as_str(), "OK"),
            None => false,
        };
        if ok {
            Ok(TaskProgress::Completed)
        } else {
            Err(PveError::TaskFailed(copy_opt_string(&status.exitstatus)))
        }
    } else if str_eq(status.status.as_str(), "running") {
        Ok(TaskProgress::Running)
    } else {
        Err(PveError::UnknownTaskStatus(status.status.clone()))
    }
}

} // verus!
