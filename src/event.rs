//! What the agent reports to the coordinator.
use vstd::prelude::*;

verus! {

/// How a worker process ended.
#[derive(Clone, Copy, Debug, PartialEq, Eq, Structural)]
pub struct ExitStatus {
    pub code: Option<i32>,
    pub signal: Option<i32>,
    pub success: bool,
}

/// A lifecycle event of one task's worker.
#[derive(Clone, Debug, PartialEq, Eq)]
pub enum WorkerEvent {
    Running { task_id: u128 },
    Done { task_id: u128, exit_status: ExitStatus, stdout: String, stderr: String },
}

/// A change of the node's scheduler state.
#[derive(Clone, Debug, PartialEq, Eq)]
pub enum StateUpdateEvent {
    Free,
    SettingUp { tasks: Vec<u128> },
    PendingReboot,
    Ready,
    Busy,
    Done { error: Option<String>, script_output: Option<String> },
}

/// Anything the coordinator hears of.
#[derive(Clone, Debug, PartialEq, Eq)]
pub enum NodeEvent {
    StateUpdate(StateUpdateEvent),
    WorkerEvent(WorkerEvent),
}

/// The state last reported to the coordinator; `Init` before any report.
#[derive(Clone, Copy, Debug, PartialEq, Eq, Structural)]
pub enum NodeState {
    Init,
    Free,
    SettingUp,
    PendingReboot,
    Ready,
    Busy,
    Done,
}

} // verus!
