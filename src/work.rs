//! What a claimed assignment holds.
use vstd::prelude::*;

verus! {

/// Locator of a blob container, kept as the URL text.
#[derive(Clone, Debug, PartialEq, Eq)]
pub struct BlobContainerUrl {
    pub url: String,
}

impl BlobContainerUrl {
    pub fn new(url: &str) -> (r: BlobContainerUrl)
        ensures
            r.url@ == url@,
    {
        BlobContainerUrl { url: url.to_owned() }
    }
}

/// One fuzzing task: its identity, its configuration and its environment.
#[derive(Clone, Debug, PartialEq, Eq)]
pub struct WorkUnit {
    pub job_id: u128,
    pub task_id: u128,
    /// Task configuration, handed to the worker untouched.
    pub config: String,
    pub env: std::collections::HashMap<String, String>,
}

/// Tasks that share one setup and run together on the node.
#[derive(Clone, Debug, PartialEq, Eq)]
pub struct WorkSet {
    pub reboot: bool,
    pub setup_url: BlobContainerUrl,
    pub extra_setup_url: Option<BlobContainerUrl>,
    pub script: bool,
    pub work_units: Vec<WorkUnit>,
}

/// A claimed work set with the handle that acknowledges it.
#[derive(Clone, Debug, PartialEq, Eq)]
pub struct Message {
    pub work_set: WorkSet,
    pub queue_message: Option<String>,
}

/// The task ids of a work set, in the order of its units.
pub open spec fn task_ids(ws: WorkSet) -> Seq<u128> {
    ws.work_units@.map_values(|u: WorkUnit| u.task_id)
}

impl WorkSet {
    pub fn task_ids(&self) -> (r: Vec<u128>)
        ensures
            r@ == task_ids(*self),
    {
        let mut r: Vec<u128> = Vec::new();
        let mut i: usize = 0;
        while i < self.work_units.len()
            invariant
                i <= self.work_units@.len(),
                r@ == task_ids(*self).take(i as int),
            decreases self.work_units@.len() - i,
        {
            r.push(self.work_units[i].task_id);
            i = i + 1;
            assert(r@ =~= task_ids(*self).take(i as int));
        }
        assert(r@ =~= task_ids(*self));
        r
    }
}

} // verus!
