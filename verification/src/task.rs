//! Status and result of automation tasks, and their scheduling priority.

use vstd::prelude::*;

use crate::error::RpaError;
use crate::value::Value;

verus! {

/// Result of a completed task.
#[derive(Debug)]
pub struct TaskResult {
    /// Value returned by the workflow, if any.
    pub output: Option<Value>,
    /// Total execution time in milliseconds.
    pub duration_ms: u64,
    /// Number of instructions completed.
    pub steps_executed: u32,
}

/// Status of an automation task.
#[derive(Debug)]
pub enum TaskStatus {
    /// Waiting to be executed.
    Pending,
    /// Running; the progress (0.0 to 1.0) is the bit pattern of an IEEE 754
    /// double.
    Running { progress: Option<u64> },
    /// Completed successfully.
    Completed(TaskResult),
    /// Failed with an error message.
    Failed(String),
    /// Cancelled by the user.
    Cancelled,
}

/// Priority of a task in the scheduler.
#[derive(Debug, Clone, Copy, PartialEq, Eq, PartialOrd, Ord, Hash, Structural)]
pub enum TaskPriority {
    Low,
    Normal,
    High,
    Critical,
}

impl Default for TaskPriority {
    fn default() -> (r: Self)
        ensures
            r == TaskPriority::Normal,
    {
        TaskPriority::Normal
    }
}

/// The result of a run from the outcome of its instructions: the returned
/// value (if any) with the run's duration and instruction count, or the
/// error that ended it.
pub fn task_result(
    outcome: Result<Option<Value>, RpaError>,
    duration_ms: u64,
    steps_executed: u32,
) -> (r: Result<TaskResult, RpaError>)
    ensures
        match outcome {
            Ok(output) => r matches Ok(t) && t.output == output && t.duration_ms == duration_ms
                && t.steps_executed == steps_executed,
            Err(e) => r == Err::<TaskResult, RpaError>(e),
        },
{
    match outcome {
        Ok(output) => Ok(TaskResult { output, duration_ms, steps_executed }),
        Err(e) => Err(e),
    }
}

} // verus!
