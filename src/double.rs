//! In-memory collaborators: they record what the agent asked of them and
//! answer from what they were given.
use vstd::prelude::*;
use crate::collab::{Coordinator, DoneMarker, RebootClient, SetupRunner, WorkQueue, WorkerRunner};
use crate::event::{ExitStatus, NodeEvent};
use crate::scheduler::{AgentError, TaskExit, WorkerOutput};
use crate::work::{Message, WorkSet};

verus! {

/// Keeps every event it receives.
#[derive(Debug)]
pub struct CoordinatorDouble {
    pub events: Vec<NodeEvent>,
}

impl CoordinatorDouble {
    pub fn new() -> (r: CoordinatorDouble)
        ensures
            r.events@ == Seq::<NodeEvent>::empty(),
    {
        CoordinatorDouble { events: Vec::new() }
    }
}

impl Coordinator for CoordinatorDouble {
    open spec fn responsive(&self) -> bool {
        true
    }

    open spec fn events(&self) -> Seq<NodeEvent> {
        self.events@
    }

    fn emit_event(&mut self, event: NodeEvent) -> (r: Result<(), AgentError>) {
        self.events.push(event);
        Ok(())
    }
}

/// Hands out the last of `available`, keeps a copy of each claim and
/// the receipt of each acknowledgment.
pub struct WorkQueueDouble {
    pub available: Vec<Message>,
    pub claimed: Vec<Message>,
    pub acked: Vec<String>,
    /// The claimed messages themselves, of which `claimed` holds copies.
    pub claim_log: Ghost<Seq<Message>>,
}

impl WorkQueueDouble {
    pub fn new() -> (r: WorkQueueDouble)
        ensures
            r.available@.len() == 0,
            r.claimed@.len() == 0,
            r.acked@.len() == 0,
            r.claim_log@.len() == 0,
    {
        WorkQueueDouble {
            available: Vec::new(),
            claimed: Vec::new(),
            acked: Vec::new(),
            claim_log: Ghost(Seq::empty()),
        }
    }
}

impl WorkQueue for WorkQueueDouble {
    open spec fn responsive(&self) -> bool {
        true
    }

    open spec fn available(&self) -> Seq<Message> {
        self.available@
    }

    open spec fn claimed(&self) -> Seq<Message> {
        self.claim_log@
    }

    open spec fn acked(&self) -> Seq<String> {
        self.acked@
    }

    fn poll(&mut self) -> (r: Result<Option<Message>, AgentError>) {
        Ok(self.available.pop())
    }

    fn claim(&mut self, message: &Message) -> (r: Result<(), AgentError>) {
        self.claimed.push(message.clone());
        self.claim_log = Ghost(self.claim_log@.push(*message));
        Ok(())
    }

    fn ack(&mut self, receipt: String) -> (r: Result<(), AgentError>) {
        self.acked.push(receipt);
        Ok(())
    }
}

/// Fails with `error_message` when one is set, else succeeds.
#[derive(Debug)]
pub struct SetupRunnerDouble {
    pub error_message: Option<String>,
    pub reboot_required: bool,
}

impl Default for SetupRunnerDouble {
    fn default() -> (r: SetupRunnerDouble)
        ensures
            r.error_message is None,
            !r.reboot_required,
    {
        SetupRunnerDouble { error_message: None, reboot_required: false }
    }
}

impl SetupRunner for SetupRunnerDouble {
    open spec fn outcome(&self, work_set: WorkSet) -> Result<bool, String> {
        match self.error_message {
            Some(e) => Err(e),
            None => Ok(self.reboot_required),
        }
    }

    fn run(&mut self, work_set: &WorkSet) -> (r: Result<bool, String>) {
        match &self.error_message {
            Some(e) => Err(e.clone()),
            None => Ok(self.reboot_required),
        }
    }
}

/// A worker process that has exited once `exit_status` is set.
#[derive(Debug)]
pub struct ChildDouble {
    pub exit_status: Option<ExitStatus>,
    pub stdout: String,
    pub stderr: String,
}

impl Default for ChildDouble {
    fn default() -> (r: ChildDouble)
        ensures
            r.exit_status is None,
            r.stdout@.len() == 0,
            r.stderr@.len() == 0,
    {
        ChildDouble { exit_status: None, stdout: String::new(), stderr: String::new() }
    }
}

/// Runs every task as `child`.
pub struct WorkerRunnerDouble {
    pub child: ChildDouble,
    /// The work sets started so far.
    pub started: Ghost<Seq<WorkSet>>,
}

impl Default for WorkerRunnerDouble {
    fn default() -> (r: WorkerRunnerDouble)
        ensures
            r.child.exit_status is None,
            r.child.stdout@.len() == 0,
            r.child.stderr@.len() == 0,
            r.started@.len() == 0,
    {
        WorkerRunnerDouble { child: ChildDouble::default(), started: Ghost(Seq::empty()) }
    }
}

/// The exit that `child` gives every task.
pub open spec fn child_exit(child: ChildDouble) -> TaskExit {
    TaskExit { exit_status: child.exit_status->Some_0, stdout: child.stdout, stderr: child.stderr }
}

impl WorkerRunner for WorkerRunnerDouble {
    open spec fn responsive(&self) -> bool {
        true
    }

    open spec fn started(&self) -> Seq<WorkSet> {
        self.started@
    }

    open spec fn finished(&self, work_set: WorkSet) -> bool {
        self.child.exit_status is Some
    }

    open spec fn gives(&self, work_set: WorkSet, output: WorkerOutput) -> bool {
        &&& output.exits@.len() == work_set.work_units@.len()
        &&& output.script_output is None
        &&& forall|i: int|
            0 <= i < output.exits@.len() ==> output.exits@[i] == child_exit(self.child)
    }

    fn start(&mut self, work_set: &WorkSet) -> (r: Result<(), AgentError>) {
        self.started = Ghost(self.started@.push(*work_set));
        Ok(())
    }

    fn try_wait(&mut self, work_set: &WorkSet) -> (r: Result<Option<WorkerOutput>, AgentError>) {
        match self.child.exit_status {
            None => Ok(None),
            Some(exit_status) => {
                let mut exits: Vec<TaskExit> = Vec::new();
                let mut i: usize = 0;
                while i < work_set.work_units.len()
                    invariant
                        i <= work_set.work_units@.len(),
                        exits@.len() == i,
                        self.child.exit_status == Some(exit_status),
                        forall|j: int| 0 <= j < i ==> exits@[j] == child_exit(self.child),
                    decreases work_set.work_units@.len() - i,
                {
                    exits.push(
                        TaskExit {
                            exit_status,
                            stdout: self.child.stdout.clone(),
                            stderr: self.child.stderr.clone(),
                        },
                    );
                    i = i + 1;
                }
                Ok(Some(WorkerOutput { exits, script_output: None }))
            },
        }
    }
}

/// Records the work sets it was asked to keep and whether it rebooted.
pub struct RebootDouble {
    pub saved: Vec<WorkSet>,
    pub invoked: bool,
    /// The kept work sets themselves, of which `saved` holds copies.
    pub saved_log: Ghost<Seq<WorkSet>>,
}

impl RebootDouble {
    pub fn new() -> (r: RebootDouble)
        ensures
            r.saved@.len() == 0,
            r.saved_log@.len() == 0,
            !r.invoked,
    {
        RebootDouble { saved: Vec::new(), invoked: false, saved_log: Ghost(Seq::empty()) }
    }
}

impl RebootClient for RebootDouble {
    open spec fn responsive(&self) -> bool {
        true
    }

    open spec fn saved(&self) -> Seq<WorkSet> {
        self.saved_log@
    }

    open spec fn invoked(&self) -> bool {
        self.invoked
    }

    fn save_context(&mut self, work_set: &WorkSet) -> (r: Result<(), AgentError>) {
        self.saved.push(work_set.clone());
        self.saved_log = Ghost(self.saved_log@.push(*work_set));
        Ok(())
    }

    fn invoke(&mut self) -> (r: Result<(), AgentError>) {
        self.invoked = true;
        Ok(())
    }
}

/// Keeps the machine ids marked as done.
#[derive(Debug)]
pub struct DoneMarkerDouble {
    pub marked: Vec<u128>,
}

impl DoneMarkerDouble {
    pub fn new() -> (r: DoneMarkerDouble)
        ensures
            r.marked@.len() == 0,
    {
        DoneMarkerDouble { marked: Vec::new() }
    }
}

impl DoneMarker for DoneMarkerDouble {
    open spec fn responsive(&self) -> bool {
        true
    }

    open spec fn is_marked(&self, machine_id: u128) -> bool {
        self.marked@.contains(machine_id)
    }

    fn set_done(&mut self, machine_id: u128) -> (r: Result<(), AgentError>) {
        self.marked.push(machine_id);
        assert(self.marked@.last() == machine_id);
        Ok(())
    }
}

} // verus!
