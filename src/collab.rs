//! The collaborators the agent drives: each one is an interface that a
//! deployment implements over the network, processes and disk. Each is
//! described by a model: whether it answers at all (`responsive`), what it
//! holds, and what it was handed so far.
use vstd::prelude::*;
use crate::event::NodeEvent;
use crate::scheduler::{AgentError, WorkerOutput};
use crate::work::{Message, WorkSet};

verus! {

/// Receives every event the agent reports, in order.
pub trait Coordinator {
    spec fn responsive(&self) -> bool;

    /// The events received so far.
    spec fn events(&self) -> Seq<NodeEvent>;

    fn emit_event(&mut self, event: NodeEvent) -> (r: Result<(), AgentError>)
        ensures
            r is Ok <==> old(self).responsive(),
            final(self).responsive() == old(self).responsive(),
            r is Ok ==> final(self).events() == old(self).events().push(event),
            r is Err ==> final(self).events() == old(self).events(),
    ;
}

/// The shared queue of work assignments.
pub trait WorkQueue {
    spec fn responsive(&self) -> bool;

    /// The messages waiting; `poll` hands out the last one.
    spec fn available(&self) -> Seq<Message>;

    /// The messages claimed so far, in order.
    spec fn claimed(&self) -> Seq<Message>;

    /// The receipts of the messages acknowledged so far, in order.
    spec fn acked(&self) -> Seq<String>;

    /// Takes the next waiting message, if any, without claiming it.
    fn poll(&mut self) -> (r: Result<Option<Message>, AgentError>)
        ensures
            r is Ok <==> old(self).responsive(),
            final(self).responsive() == old(self).responsive(),
            final(self).claimed() == old(self).claimed(),
            final(self).acked() == old(self).acked(),
            r is Err ==> final(self).available() == old(self).available(),
            r is Ok && old(self).available().len() == 0 ==> r == Ok::<Option<Message>, AgentError>(
                None,
            ) && final(self).available() == old(self).available(),
            r is Ok && old(self).available().len() > 0 ==> r == Ok::<
                Option<Message>,
                AgentError,
            >(Some(old(self).available().last())) && final(self).available() == old(
                self,
            ).available().drop_last(),
    ;

    /// Takes the message for this agent alone.
    fn claim(&mut self, message: &Message) -> (r: Result<(), AgentError>)
        ensures
            r is Ok <==> old(self).responsive(),
            final(self).responsive() == old(self).responsive(),
            final(self).available() == old(self).available(),
            final(self).acked() == old(self).acked(),
            r is Ok ==> final(self).claimed() == old(self).claimed().push(*message),
            r is Err ==> final(self).claimed() == old(self).claimed(),
    ;

    /// Acknowledges a claimed message once its outcome is known.
    fn ack(&mut self, receipt: String) -> (r: Result<(), AgentError>)
        ensures
            r is Ok <==> old(self).responsive(),
            final(self).responsive() == old(self).responsive(),
            final(self).available() == old(self).available(),
            final(self).claimed() == old(self).claimed(),
            r is Ok ==> final(self).acked() == old(self).acked().push(receipt),
            r is Err ==> final(self).acked() == old(self).acked(),
    ;
}

/// Prepares the node for a work set.
pub trait SetupRunner {
    /// What a run on `work_set` gives: `Ok(reboot_required)` on success,
    /// else a readable failure message.
    spec fn outcome(&self, work_set: WorkSet) -> Result<bool, String>;

    fn run(&mut self, work_set: &WorkSet) -> (r: Result<bool, String>)
        ensures
            r == old(self).outcome(*work_set),
    ;
}

/// Spawns and supervises the worker processes of a work set.
pub trait WorkerRunner {
    spec fn responsive(&self) -> bool;

    /// The work sets started so far, in order.
    spec fn started(&self) -> Seq<WorkSet>;

    /// Whether every worker of `work_set` exited.
    spec fn finished(&self, work_set: WorkSet) -> bool;

    /// `output` is what the exited workers of `work_set` give back.
    spec fn gives(&self, work_set: WorkSet, output: WorkerOutput) -> bool;

    fn start(&mut self, work_set: &WorkSet) -> (r: Result<(), AgentError>)
        ensures
            r is Ok <==> old(self).responsive(),
            final(self).responsive() == old(self).responsive(),
            r is Ok ==> final(self).started() == old(self).started().push(*work_set),
            r is Err ==> final(self).started() == old(self).started(),
    ;

    /// `None` while a worker still runs; else one exit per work unit.
    fn try_wait(&mut self, work_set: &WorkSet) -> (r: Result<Option<WorkerOutput>, AgentError>)
        ensures
            r is Ok <==> old(self).responsive(),
            final(self).responsive() == old(self).responsive(),
            final(self).started() == old(self).started(),
            r matches Ok(o) ==> (o is Some <==> old(self).finished(*work_set)),
            r matches Ok(Some(out)) ==> old(self).gives(*work_set, out)
                && out.exits@.len() == work_set.work_units@.len(),
    ;
}

/// Keeps what a reboot must not lose, and reboots the machine.
pub trait RebootClient {
    spec fn responsive(&self) -> bool;

    /// The work sets kept for after a reboot, in order.
    spec fn saved(&self) -> Seq<WorkSet>;

    /// Whether a reboot was asked for.
    spec fn invoked(&self) -> bool;

    fn save_context(&mut self, work_set: &WorkSet) -> (r: Result<(), AgentError>)
        ensures
            r is Ok <==> old(self).responsive(),
            final(self).responsive() == old(self).responsive(),
            final(self).invoked() == old(self).invoked(),
            r is Ok ==> final(self).saved() == old(self).saved().push(*work_set),
            r is Err ==> final(self).saved() == old(self).saved(),
    ;

    fn invoke(&mut self) -> (r: Result<(), AgentError>)
        ensures
            r is Ok <==> old(self).responsive(),
            final(self).responsive() == old(self).responsive(),
            final(self).saved() == old(self).saved(),
            r is Ok ==> final(self).invoked(),
            r is Err ==> final(self).invoked() == old(self).invoked(),
    ;
}

/// The flag recording that a machine finished its work.
pub trait DoneMarker {
    spec fn responsive(&self) -> bool;

    spec fn is_marked(&self, machine_id: u128) -> bool;

    fn set_done(&mut self, machine_id: u128) -> (r: Result<(), AgentError>)
        ensures
            r is Ok <==> old(self).responsive(),
            final(self).responsive() == old(self).responsive(),
            r is Ok ==> final(self).is_marked(machine_id),
    ;
}

} // verus!
