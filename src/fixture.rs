//! A ready-made agent over the in-memory collaborators, and one small
//! assignment to give it.
use vstd::prelude::*;
use crate::agent::{Agent, DEFAULT_SLEEP_SECONDS};
use crate::done::new_v4;
use crate::double::{
    CoordinatorDouble, DoneMarkerDouble, RebootDouble, SetupRunnerDouble, WorkQueueDouble,
    WorkerRunnerDouble,
};
use crate::event::NodeState;
use crate::scheduler::Scheduler;
use crate::work::{BlobContainerUrl, Message, WorkSet, WorkUnit};

verus! {

/// An agent whose collaborators all live in memory.
pub type AgentDouble = Agent<
    CoordinatorDouble,
    RebootDouble,
    SetupRunnerDouble,
    WorkQueueDouble,
    WorkerRunnerDouble,
    DoneMarkerDouble,
>;

/// 83267e88-efdd-4b1d-92c0-6b80d01887f8
pub const FIXTURE_JOB_ID: u128 = 0x83267e88_efdd_4b1d_92c0_6b80d01887f8;

/// eb8ee6b8-6f2d-43b1-aec2-022e9813e86b
pub const FIXTURE_TASK_ID: u128 = 0xeb8ee6b8_6f2d_43b1_aec2_022e9813e86b;

pub open spec fn setup_url_text() -> Seq<char> {
    "https://contoso.com/my-setup-container"@
}

pub open spec fn config_text() -> Seq<char> {
    "{ \"hello\": \"world\", \"task_id\" : \"ed1eeec9-2f39-442d-9e70-563454b866c0\", \"instance_id\": \"5220ff9b-2ab2-4cf8-b9ad-b948c3b94f08\"  }"@
}

pub open spec fn is_fixture_work_unit(u: WorkUnit) -> bool {
    &&& u.job_id == FIXTURE_JOB_ID
    &&& u.task_id == FIXTURE_TASK_ID
    &&& u.config@ == config_text()
    &&& u.env@ == Map::<String, String>::empty()
}

pub open spec fn is_fixture_work_set(ws: WorkSet) -> bool {
    &&& !ws.reboot
    &&& ws.setup_url.url@ == setup_url_text()
    &&& ws.extra_setup_url is None
    &&& !ws.script
    &&& ws.work_units@.len() == 1
    &&& is_fixture_work_unit(ws.work_units@[0])
}

pub struct Fixture;

impl Fixture {
    /// A free agent over fresh in-memory collaborators, with a random
    /// machine id.
    pub fn agent(&self) -> (r: AgentDouble)
        ensures
            r.scheduler == Scheduler::Free,
            r.last_state == NodeState::Init,
            r.coordinator.events@.len() == 0,
            r.work_queue.available@.len() == 0,
            r.work_queue.claimed@.len() == 0,
            r.setup_runner.error_message is None,
            r.worker_runner.child.exit_status is None,
            r.done_marker.marked@.len() == 0,
            r.managed,
            !r.idle,
            r.sleep_duration == DEFAULT_SLEEP_SECONDS,
            r.machine_id & 0xf000_0000_0000_0000_0000u128 == 0x4000_0000_0000_0000_0000u128,
            r.machine_id & 0xc000_0000_0000_0000u128 == 0x8000_0000_0000_0000u128,
            r.work_queue.acked@.len() == 0,
            r.work_queue.claim_log@.len() == 0,
            r.reboot.saved@.len() == 0,
            r.reboot.saved_log@.len() == 0,
            !r.reboot.invoked,
            !r.setup_runner.reboot_required,
            r.worker_runner.child.stdout@.len() == 0,
            r.worker_runner.child.stderr@.len() == 0,
            r.worker_runner.started@.len() == 0,
    {
        Agent::new(
            CoordinatorDouble::new(),
            RebootDouble::new(),
            Scheduler::new(None),
            SetupRunnerDouble::default(),
            WorkQueueDouble::new(),
            WorkerRunnerDouble::default(),
            DoneMarkerDouble::new(),
            None,
            true,
            new_v4(),
        )
    }

    pub fn job_id(&self) -> (r: u128)
        ensures
            r == FIXTURE_JOB_ID,
    {
        FIXTURE_JOB_ID
    }

    pub fn task_id(&self) -> (r: u128)
        ensures
            r == FIXTURE_TASK_ID,
    {
        FIXTURE_TASK_ID
    }

    pub fn message(&self) -> (r: Message)
        ensures
            is_fixture_work_set(r.work_set),
            r.queue_message is None,
    {
        let work_set = self.work_set();
        Message { work_set, queue_message: None }
    }

    pub fn work_set(&self) -> (r: WorkSet)
        ensures
            is_fixture_work_set(r),
    {
        WorkSet {
            reboot: false,
            setup_url: self.setup_url(),
            extra_setup_url: None,
            script: false,
            work_units: vec![self.work_unit()],
        }
    }

    pub fn setup_url(&self) -> (r: BlobContainerUrl)
        ensures
            r.url@ == setup_url_text(),
    {
        BlobContainerUrl::new("https://contoso.com/my-setup-container")
    }

    pub fn work_unit(&self) -> (r: WorkUnit)
        ensures
            is_fixture_work_unit(r),
    {
        let config = r#"{ "hello": "world", "task_id" : "ed1eeec9-2f39-442d-9e70-563454b866c0", "instance_id": "5220ff9b-2ab2-4cf8-b9ad-b948c3b94f08"  }"#.to_owned();
        WorkUnit {
            job_id: self.job_id(),
            task_id: self.task_id(),
            config,
            env: std::collections::HashMap::new(),
        }
    }
}

} // verus!
