//! The scheduler's states and the decisions that move between them.
use vstd::prelude::*;
use crate::event::{ExitStatus, NodeEvent, NodeState, StateUpdateEvent, WorkerEvent};
use crate::work::{task_ids, Message, WorkSet};

verus! {

/// The node's phase of work; the active variant holds what that phase needs.
#[derive(Debug)]
pub enum Scheduler {
    Free,
    SettingUp { work_set: WorkSet, receipt: Option<String> },
    PendingReboot { work_set: WorkSet, receipt: Option<String> },
    Ready { work_set: WorkSet, receipt: Option<String> },
    /// `running_reported` is set once the tasks' `Running` events went out.
    Busy { work_set: WorkSet, receipt: Option<String>, running_reported: bool },
    /// `receipt` is the handle of the claimed message, until it is
    /// acknowledged.
    Done { error: Option<String>, script_output: Option<String>, receipt: Option<String> },
}

/// How one task's worker ended, with what it printed.
#[derive(Clone, Debug, PartialEq, Eq)]
pub struct TaskExit {
    pub exit_status: ExitStatus,
    pub stdout: String,
    pub stderr: String,
}

/// What the worker runner hands back once every task of a work set exited:
/// one exit per work unit, in the order of the units.
#[derive(Clone, Debug, PartialEq, Eq)]
pub struct WorkerOutput {
    pub exits: Vec<TaskExit>,
    pub script_output: Option<String>,
}

/// A failure outside the scheduler's own transitions (a collaborator that
/// could not be reached, or one that broke its interface).
#[derive(Clone, Debug, PartialEq, Eq)]
pub struct AgentError {
    pub message: String,
}

pub open spec fn state_of(s: Scheduler) -> NodeState {
    match s {
        Scheduler::Free => NodeState::Free,
        Scheduler::SettingUp { .. } => NodeState::SettingUp,
        Scheduler::PendingReboot { .. } => NodeState::PendingReboot,
        Scheduler::Ready { .. } => NodeState::Ready,
        Scheduler::Busy { .. } => NodeState::Busy,
        Scheduler::Done { .. } => NodeState::Done,
    }
}

/// `e` is the state update that reports `s`.
pub open spec fn reports(e: StateUpdateEvent, s: Scheduler) -> bool {
    match s {
        Scheduler::Free => e == StateUpdateEvent::Free,
        Scheduler::SettingUp { work_set, .. } => match e {
            StateUpdateEvent::SettingUp { tasks } => tasks@ == task_ids(work_set),
            _ => false,
        },
        Scheduler::PendingReboot { .. } => e == StateUpdateEvent::PendingReboot,
        Scheduler::Ready { .. } => e == StateUpdateEvent::Ready,
        Scheduler::Busy { .. } => e == StateUpdateEvent::Busy,
        Scheduler::Done { error, script_output, .. } => e == (StateUpdateEvent::Done {
            error,
            script_output,
        }),
    }
}

/// One `Running` event per task of the work set, in order.
pub open spec fn running_events(ws: WorkSet) -> Seq<NodeEvent> {
    Seq::new(
        task_ids(ws).len(),
        |i: int| NodeEvent::WorkerEvent(WorkerEvent::Running { task_id: task_ids(ws)[i] }),
    )
}

/// One `Done` event per task of the work set, with that task's exit.
pub open spec fn exit_events(ws: WorkSet, exits: Seq<TaskExit>) -> Seq<NodeEvent> {
    Seq::new(
        task_ids(ws).len(),
        |i: int|
            NodeEvent::WorkerEvent(
                WorkerEvent::Done {
                    task_id: task_ids(ws)[i],
                    exit_status: exits[i].exit_status,
                    stdout: exits[i].stdout,
                    stderr: exits[i].stderr,
                },
            ),
    )
}

/// The state that follows a successful setup or a failed one.
pub open spec fn after_setup_spec(
    ws: WorkSet,
    receipt: Option<String>,
    outcome: Result<bool, String>,
) -> Scheduler {
    match outcome {
        Ok(reboot_required) => if ws.reboot || reboot_required {
            Scheduler::PendingReboot { work_set: ws, receipt }
        } else {
            Scheduler::Ready { work_set: ws, receipt }
        },
        Err(msg) => Scheduler::Done { error: Some(msg), script_output: None, receipt },
    }
}

/// The state once every task's worker exited.
pub open spec fn after_work_spec(
    ws: WorkSet,
    receipt: Option<String>,
    output: WorkerOutput,
) -> Scheduler {
    Scheduler::Done {
        error: None,
        receipt,
        script_output: if ws.script {
            output.script_output
        } else {
            None
        },
    }
}

fn clone_text(s: &Option<String>) -> (r: Option<String>)
    ensures
        r == *s,
{
    match s {
        Some(t) => Some(t.clone()),
        None => None,
    }
}

impl Scheduler {
    /// A fresh scheduler: ready to run the work set that was being prepared
    /// before a reboot, or free to claim work. A resumed work set has no
    /// message left to acknowledge.
    pub fn new(resumed: Option<WorkSet>) -> (r: Scheduler)
        ensures
            r == (match resumed {
                Some(ws) => Scheduler::Ready { work_set: ws, receipt: None },
                None => Scheduler::Free,
            }),
    {
        match resumed {
            Some(ws) => Scheduler::Ready { work_set: ws, receipt: None },
            None => Scheduler::Free,
        }
    }

    /// The scheduler to start with: a machine whose done marker is present
    /// already finished its work and claims none.
    pub fn on_startup(resumed: Option<WorkSet>, already_done: bool) -> (r: Scheduler)
        ensures
            already_done ==> r == (Scheduler::Done { error: None, script_output: None, receipt: None }),
            !already_done ==> r == Scheduler::new_spec(resumed),
    {
        if already_done {
            Scheduler::Done { error: None, script_output: None, receipt: None }
        } else {
            Scheduler::new(resumed)
        }
    }

    pub open spec fn new_spec(resumed: Option<WorkSet>) -> Scheduler {
        match resumed {
            Some(ws) => Scheduler::Ready { work_set: ws, receipt: None },
            None => Scheduler::Free,
        }
    }

    pub fn state(&self) -> (r: NodeState)
        ensures
            r == state_of(*self),
    {
        match self {
            Scheduler::Free => NodeState::Free,
            Scheduler::SettingUp { .. } => NodeState::SettingUp,
            Scheduler::PendingReboot { .. } => NodeState::PendingReboot,
            Scheduler::Ready { .. } => NodeState::Ready,
            Scheduler::Busy { .. } => NodeState::Busy,
            Scheduler::Done { .. } => NodeState::Done,
        }
    }

    /// The state update that reports this state.
    pub fn state_event(&self) -> (r: StateUpdateEvent)
        ensures
            reports(r, *self),
    {
        match self {
            Scheduler::Free => StateUpdateEvent::Free,
            Scheduler::SettingUp { work_set, .. } => StateUpdateEvent::SettingUp {
                tasks: work_set.task_ids(),
            },
            Scheduler::PendingReboot { .. } => StateUpdateEvent::PendingReboot,
            Scheduler::Ready { .. } => StateUpdateEvent::Ready,
            Scheduler::Busy { .. } => StateUpdateEvent::Busy,
            Scheduler::Done { error, script_output, .. } => StateUpdateEvent::Done {
                error: clone_text(error),
                script_output: clone_text(script_output),
            },
        }
    }

    /// A free node that claimed a message sets up its work set; one that
    /// found none stays free.
    pub fn after_poll(claimed: Option<Message>) -> (r: Scheduler)
        ensures
            r == (match claimed {
                Some(m) => Scheduler::SettingUp { work_set: m.work_set, receipt: m.queue_message },
                None => Scheduler::Free,
            }),
    {
        match claimed {
            Some(m) => Scheduler::SettingUp { work_set: m.work_set, receipt: m.queue_message },
            None => Scheduler::Free,
        }
    }

    /// Setup failure ends the work set at once; success leads to a reboot
    /// when either the work set or the setup asks for one, else to `Ready`.
    pub fn after_setup(
        work_set: WorkSet,
        receipt: Option<String>,
        outcome: Result<bool, String>,
    ) -> (r: Scheduler)
        ensures
            r == after_setup_spec(work_set, receipt, outcome),
    {
        match outcome {
            Ok(reboot_required) => if work_set.reboot || reboot_required {
                Scheduler::PendingReboot { work_set, receipt }
            } else {
                Scheduler::Ready { work_set, receipt }
            },
            Err(msg) => Scheduler::Done { error: Some(msg), script_output: None, receipt },
        }
    }

    /// The `Running` event of each task, in the order of the work units.
    pub fn running_events(work_set: &WorkSet) -> (r: Vec<NodeEvent>)
        ensures
            r@ == running_events(*work_set),
    {
        let mut r: Vec<NodeEvent> = Vec::new();
        let mut i: usize = 0;
        while i < work_set.work_units.len()
            invariant
                i <= work_set.work_units@.len(),
                r@ == running_events(*work_set).take(i as int),
            decreases work_set.work_units@.len() - i,
        {
            r.push(NodeEvent::WorkerEvent(WorkerEvent::Running {
                task_id: work_set.work_units[i].task_id,
            }));
            i = i + 1;
            assert(r@ =~= running_events(*work_set).take(i as int));
        }
        assert(r@ =~= running_events(*work_set));
        r
    }

    /// The events and the state that follow the exit of every worker. An
    /// output with not exactly one exit per work unit breaks the runner's
    /// interface and is refused.
    pub fn after_work(work_set: WorkSet, receipt: Option<String>, output: WorkerOutput) -> (r: Result<
        (Vec<NodeEvent>, Scheduler),
        AgentError,
    >)
        ensures
            output.exits@.len() == work_set.work_units@.len() <==> r is Ok,
            r matches Ok((events, next)) ==> events@ == exit_events(work_set, output.exits@)
                && next == after_work_spec(work_set, receipt, output),
    {
        if output.exits.len() != work_set.work_units.len() {
            return Err(AgentError { message: "worker output does not match the work set".to_owned() });
        }
        let mut events: Vec<NodeEvent> = Vec::new();
        let mut i: usize = 0;
        while i < work_set.work_units.len()
            invariant
                i <= work_set.work_units@.len(),
                output.exits@.len() == work_set.work_units@.len(),
                events@ == exit_events(work_set, output.exits@).take(i as int),
            decreases work_set.work_units@.len() - i,
        {
            let exit = &output.exits[i];
            events.push(NodeEvent::WorkerEvent(WorkerEvent::Done {
                task_id: work_set.work_units[i].task_id,
                exit_status: exit.exit_status,
                stdout: exit.stdout.clone(),
                stderr: exit.stderr.clone(),
            }));
            i = i + 1;
            assert(events@ =~= exit_events(work_set, output.exits@).take(i as int));
        }
        assert(events@ =~= exit_events(work_set, output.exits@));
        let script_output = if work_set.script {
            output.script_output
        } else {
            None
        };
        Ok((events, Scheduler::Done { error: None, script_output, receipt }))
    }
}

} // verus!
