//! The `lay3r:avs/types` interface and the `task-queue` world's export.
use vstd::prelude::*;

verus! {

/// The input of a task: when it was created and its request, serialized JSON
/// on which the task queue contract and the component agree.
#[derive(Clone, Debug)]
pub struct TaskQueueInput {
    pub timestamp: u64,
    pub request: Vec<u8>,
}

/// What a task gives back: serialized JSON, or an error message.
pub type Output = Result<Vec<u8>, String>;

/// The function a component exports: it runs one task.
pub trait Guest {
    /// Runs the task given by `request`.
    fn run_task(request: TaskQueueInput) -> Output;
}

} // verus!
