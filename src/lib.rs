//! A task record service: the task model and its partial-update rule, the
//! canonical JSON encoding of a task, the persist-then-notify update pipeline,
//! and the mapping of outcomes to HTTP status codes.
pub mod json;
pub mod pipeline;
pub mod status;
pub mod task;

pub use json::{decimal_text, encode_task, frame_task, TASK_TOPIC};
pub use pipeline::{Action, Event, Phase, UpdatePipeline};
pub use status::{status_of_create, status_of_get, status_of_list, status_of_update};
pub use task::{merge_update, new_task, Task, TaskError, TaskPatch};
