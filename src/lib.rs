//! Supervision logic for a background `cargo check` (or compatible command):
//! the argument list, the scan of the tool's output lines, the event stream of
//! one run, and the control loop that restarts runs and turns their events into
//! task requests for an editor.
pub mod message;
pub mod options;
pub mod runner;
pub mod supervisor;
pub mod worker;

pub use message::{is_forwarded, RawMessage};
pub use options::{cargo_args, CheckOptions};
pub use runner::{CargoError, ExitOutcome, LineScan};
pub use supervisor::{
    event_to_tasks, CheckCommand, Control, Progress, Reaction, Step, Supervisor, SupervisorInput,
    TaskRequest,
};
pub use worker::{plan_worker, CheckEvent, RunPhase, WorkerPlan, WorkerRun};
