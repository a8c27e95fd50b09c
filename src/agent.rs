//! The agent: owns the collaborators and the scheduler and advances one step
//! per `update`.
use vstd::prelude::*;
use crate::collab::{Coordinator, DoneMarker, RebootClient, SetupRunner, WorkQueue, WorkerRunner};
use crate::event::{NodeEvent, NodeState, StateUpdateEvent};
use crate::scheduler::{
    after_setup_spec, after_work_spec, exit_events, reports, running_events, state_of, AgentError,
    Scheduler, WorkerOutput,
};
use crate::work::Message;

verus! {

pub struct Agent<C, R, S, Q, W, D> {
    pub coordinator: C,
    pub reboot: R,
    pub scheduler: Scheduler,
    pub setup_runner: S,
    pub work_queue: Q,
    pub worker_runner: W,
    pub done_marker: D,
    /// Seconds to wait after a poll of the queue found nothing.
    pub sleep_duration: u64,
    /// Whether the node reports itself while it is free.
    pub managed: bool,
    pub machine_id: u128,
    /// The state last reported to the coordinator.
    pub last_state: NodeState,
    /// Set by a step that found a free node and no work: the caller waits
    /// `sleep_duration` before the next step.
    pub idle: bool,
}

/// Wait between two empty polls of the queue when none is configured.
pub const DEFAULT_SLEEP_SECONDS: u64 = 30;

impl<C, R, S, Q, W, D> Agent<C, R, S, Q, W, D> where
    C: Coordinator,
    R: RebootClient,
    S: SetupRunner,
    Q: WorkQueue,
    W: WorkerRunner,
    D: DoneMarker,
 {
    pub fn new(
        coordinator: C,
        reboot: R,
        scheduler: Scheduler,
        setup_runner: S,
        work_queue: Q,
        worker_runner: W,
        done_marker: D,
        sleep_duration: Option<u64>,
        managed: bool,
        machine_id: u128,
    ) -> (r: Self)
        ensures
            r.coordinator == coordinator,
            r.reboot == reboot,
            r.scheduler == scheduler,
            r.setup_runner == setup_runner,
            r.work_queue == work_queue,
            r.worker_runner == worker_runner,
            r.done_marker == done_marker,
            r.sleep_duration == (match sleep_duration {
                Some(d) => d,
                None => DEFAULT_SLEEP_SECONDS,
            }),
            r.managed == managed,
            r.machine_id == machine_id,
            r.last_state == NodeState::Init,
            !r.idle,
    {
        let sleep_duration = match sleep_duration {
            Some(d) => d,
            None => DEFAULT_SLEEP_SECONDS,
        };
        Agent {
            coordinator,
            reboot,
            scheduler,
            setup_runner,
            work_queue,
            worker_runner,
            done_marker,
            sleep_duration,
            managed,
            machine_id,
            last_state: NodeState::Init,
            idle: false,
        }
    }

    /// Everything but the coordinator and the last reported state is as before.
    pub open spec fn same_but_reports(self, other: Self) -> bool {
        &&& other.reboot == self.reboot
        &&& other.scheduler == self.scheduler
        &&& other.setup_runner == self.setup_runner
        &&& other.work_queue == self.work_queue
        &&& other.worker_runner == self.worker_runner
        &&& other.done_marker == self.done_marker
        &&& other.sleep_duration == self.sleep_duration
        &&& other.managed == self.managed
        &&& other.machine_id == self.machine_id
        &&& other.idle == self.idle
    }

    /// Reports `state` unless it is the state last reported.
    fn emit_state_update_if_changed(&mut self, state: &Scheduler) -> (r: Result<(), AgentError>)
        ensures
            old(self).same_but_reports(*final(self)),
            final(self).coordinator.responsive() == old(self).coordinator.responsive(),
            r is Ok <==> (old(self).last_state == state_of(*state)
                || old(self).coordinator.responsive()),
            r is Ok ==> {
                &&& final(self).last_state == state_of(*state)
                &&& if old(self).last_state == state_of(*state) {
                    final(self).coordinator.events() == old(self).coordinator.events()
                } else {
                    let now = final(self).coordinator.events();
                    &&& now.len() == old(self).coordinator.events().len() + 1
                    &&& now.drop_last() == old(self).coordinator.events()
                    &&& now.last() matches NodeEvent::StateUpdate(e) && reports(e, *state)
                }
            },
    {
        let current = state.state();
        if current == self.last_state {
            return Ok(());
        }
        let event = state.state_event();
        let ghost before = self.coordinator.events();
        self.coordinator.emit_event(NodeEvent::StateUpdate(event))?;
        assert(self.coordinator.events().drop_last() =~= before);
        self.last_state = current;
        Ok(())
    }

    /// Sends `events` to the coordinator, in order.
    fn forward(&mut self, events: Vec<NodeEvent>) -> (r: Result<(), AgentError>)
        ensures
            old(self).same_but_reports(*final(self)),
            final(self).last_state == old(self).last_state,
            final(self).coordinator.responsive() == old(self).coordinator.responsive(),
            r is Ok <==> (events@.len() == 0 || old(self).coordinator.responsive()),
            r is Ok ==> final(self).coordinator.events() == old(self).coordinator.events()
                + events@,
    {
        let mut rest = events;
        let ghost start = self.coordinator.events();
        let ghost k: int = 0;
        while rest.len() > 0
            invariant
                old(self).same_but_reports(*self),
                self.last_state == old(self).last_state,
                self.coordinator.responsive() == old(self).coordinator.responsive(),
                k > 0 ==> old(self).coordinator.responsive(),
                start == old(self).coordinator.events(),
                0 <= k <= events@.len(),
                rest@ == events@.skip(k),
                self.coordinator.events() == start + events@.take(k),
            decreases rest@.len(),
        {
            let event = rest.remove(0);
            self.coordinator.emit_event(event)?;
            proof {
                k = k + 1;
                assert(events@.take(k) =~= events@.take(k - 1).push(event));
                assert(rest@ =~= events@.skip(k));
            }
        }
        assert(events@.take(k) =~= events@);
        Ok(())
    }

    /// Whether this step's state update goes out.
    pub open spec fn reports_state(self) -> bool {
        self.last_state != state_of(self.scheduler)
    }

    /// Whether this step hands worker events to the coordinator.
    pub open spec fn forwards_events(self) -> bool {
        match self.scheduler {
            Scheduler::Busy { work_set, running_reported, .. } => work_set.work_units@.len() > 0
                && (!running_reported || self.worker_runner.finished(work_set)),
            _ => false,
        }
    }

    /// Every collaborator this step calls is responsive: exactly then the
    /// step succeeds.
    pub open spec fn can_step(self) -> bool {
        &&& (self.reports_state() || self.forwards_events()) ==> self.coordinator.responsive()
        &&& match self.scheduler {
            Scheduler::Free => self.work_queue.responsive(),
            Scheduler::SettingUp { .. } => true,
            Scheduler::Ready { .. } => self.worker_runner.responsive(),
            Scheduler::Busy { running_reported, .. } => running_reported
                ==> self.worker_runner.responsive(),
            Scheduler::PendingReboot { .. } => self.reboot.responsive(),
            Scheduler::Done { receipt, .. } => self.done_marker.responsive() && (receipt is Some
                ==> self.work_queue.responsive()),
        }
    }

    /// What one step from `self` to `after` did, given the events that
    /// followed the state update: the scheduler's transition table.
    pub open spec fn advanced(self, after: Self, done: bool, later: Seq<NodeEvent>) -> bool {
        &&& done <==> self.scheduler is Done
        &&& (after.idle ==> after.scheduler == Scheduler::Free)
        &&& (!(self.scheduler is Free) ==> !after.idle)
        &&& (!(self.scheduler is Free) && !(self.scheduler is Done) ==> after.work_queue
            == self.work_queue)
        &&& (!(self.scheduler is Ready) && !(self.scheduler is Busy) ==> after.worker_runner
            == self.worker_runner)
        &&& (!(self.scheduler is PendingReboot) ==> after.reboot == self.reboot)
        &&& (!(self.scheduler is Done) ==> after.done_marker == self.done_marker)
        &&& match self.scheduler {
            Scheduler::Free => {
                let waiting = self.work_queue.available();
                &&& later.len() == 0
                &&& after.work_queue.acked() == self.work_queue.acked()
                &&& if waiting.len() == 0 {
                    &&& after.scheduler == Scheduler::Free
                    &&& after.idle
                    &&& after.work_queue.claimed() == self.work_queue.claimed()
                    &&& after.work_queue.available() == waiting
                } else {
                    let m = waiting.last();
                    &&& after.scheduler == (Scheduler::SettingUp {
                        work_set: m.work_set,
                        receipt: m.queue_message,
                    })
                    &&& !after.idle
                    &&& after.work_queue.claimed() == self.work_queue.claimed().push(m)
                    &&& after.work_queue.available() == waiting.drop_last()
                }
            },
            Scheduler::SettingUp { work_set, receipt } => {
                &&& later.len() == 0
                &&& after.scheduler == after_setup_spec(
                    work_set,
                    receipt,
                    self.setup_runner.outcome(work_set),
                )
            },
            Scheduler::Ready { work_set, receipt } => {
                &&& later.len() == 0
                &&& after.worker_runner.started() == self.worker_runner.started().push(work_set)
                &&& after.scheduler == (Scheduler::Busy {
                    work_set,
                    receipt,
                    running_reported: false,
                })
            },
            Scheduler::Busy { work_set, receipt, running_reported } => if !running_reported {
                &&& later == running_events(work_set)
                &&& after.worker_runner == self.worker_runner
                &&& after.scheduler == (Scheduler::Busy {
                    work_set,
                    receipt,
                    running_reported: true,
                })
            } else if !self.worker_runner.finished(work_set) {
                &&& later.len() == 0
                &&& after.scheduler == self.scheduler
            } else {
                exists|out: WorkerOutput|
                    #[trigger] self.worker_runner.gives(work_set, out) && later == exit_events(
                        work_set,
                        out.exits@,
                    ) && after.scheduler == after_work_spec(work_set, receipt, out)
            },
            Scheduler::PendingReboot { work_set, .. } => {
                &&& later.len() == 0
                &&& after.scheduler == self.scheduler
                &&& after.reboot.saved() == self.reboot.saved().push(work_set)
                &&& after.reboot.invoked()
            },
            Scheduler::Done { error, script_output, receipt } => {
                &&& later.len() == 0
                &&& after.scheduler == (Scheduler::Done { error, script_output, receipt: None })
                &&& after.done_marker.is_marked(self.machine_id)
                &&& after.work_queue.claimed() == self.work_queue.claimed()
                &&& match receipt {
                    Some(rc) => after.work_queue.acked() == self.work_queue.acked().push(rc),
                    None => after.work_queue == self.work_queue,
                }
            },
        }
    }

    /// One step of `update` from `self` to `after`: the current state is
    /// reported if it changed, then the scheduler advances.
    pub open spec fn stepped(self, after: Self, done: bool) -> bool {
        let before = self.coordinator.events();
        let n: int = before.len() as int;
        let now = after.coordinator.events();
        let k: int = if self.reports_state() {
            1
        } else {
            0
        };
        &&& after.machine_id == self.machine_id
        &&& after.sleep_duration == self.sleep_duration
        &&& after.managed == self.managed
        &&& after.setup_runner == self.setup_runner || self.scheduler is SettingUp
        &&& after.last_state == state_of(self.scheduler)
        &&& now.len() >= before.len() + k
        &&& now.take(n) == before
        &&& (k == 1 ==> (now[n] matches NodeEvent::StateUpdate(e) && reports(
            e,
            self.scheduler,
        )))
        &&& self.advanced(after, done, now.skip(n + k))
    }

    /// Performs exactly one scheduler step and forwards what it emitted.
    /// Returns the agent and whether its work is finished. The step
    /// succeeds exactly when every collaborator it calls is responsive; a
    /// collaborator failure comes back as `Err` and is never folded into a
    /// state.
    pub fn update(self) -> (r: Result<(Self, bool), AgentError>)
        ensures
            r is Ok <==> self.can_step(),
            r matches Ok((after, done)) ==> self.stepped(after, done),
    {
        let mut a = self;
        let mut prev = Scheduler::Free;
        std::mem::swap(&mut prev, &mut a.scheduler);
        a.idle = false;
        a.emit_state_update_if_changed(&prev)?;
        let ghost reported = a.coordinator.events();
        let ghost mut later: Seq<NodeEvent> = Seq::empty();
        let mut done = false;
        let next = match prev {
            Scheduler::Free => {
                match a.work_queue.poll()? {
                    None => {
                        a.idle = true;
                        Scheduler::Free
                    },
                    Some(message) => {
                        a.work_queue.claim(&message)?;
                        Scheduler::after_poll(Some(message))
                    },
                }
            },
            Scheduler::SettingUp { work_set, receipt } => {
                let ghost ws = work_set;
                let ghost rc = receipt;
                let outcome = a.setup_runner.run(&work_set);
                let next = Scheduler::after_setup(work_set, receipt, outcome);
                assert(next == after_setup_spec(ws, rc, outcome));
                next
            },
            Scheduler::Ready { work_set, receipt } => {
                a.worker_runner.start(&work_set)?;
                Scheduler::Busy { work_set, receipt, running_reported: false }
            },
            Scheduler::Busy { work_set, receipt, running_reported } => {
                if !running_reported {
                    let events = Scheduler::running_events(&work_set);
                    proof {
                        later = events@;
                    }
                    a.forward(events)?;
                    Scheduler::Busy { work_set, receipt, running_reported: true }
                } else {
                    match a.worker_runner.try_wait(&work_set)? {
                        None => Scheduler::Busy { work_set, receipt, running_reported: true },
                        Some(output) => {
                            let ghost ws = work_set;
                            let ghost rc = receipt;
                            let ghost out = output;
                            let (events, next) = Scheduler::after_work(work_set, receipt, output)?;
                            proof {
                                later = events@;
                                assert(next == after_work_spec(ws, rc, out));
                            }
                            a.forward(events)?;
                            next
                        },
                    }
                }
            },
            Scheduler::PendingReboot { work_set, receipt } => {
                a.reboot.save_context(&work_set)?;
                a.reboot.invoke()?;
                Scheduler::PendingReboot { work_set, receipt }
            },
            Scheduler::Done { error, script_output, receipt } => {
                if let Some(rc) = receipt {
                    a.work_queue.ack(rc)?;
                }
                a.done_marker.set_done(a.machine_id)?;
                done = true;
                Scheduler::Done { error, script_output, receipt: None }
            },
        };
        a.scheduler = next;
        proof {
            let before = self.coordinator.events();
            let n = before.len() as int;
            let k: int = if self.reports_state() {
                1
            } else {
                0
            };
            assert(a.coordinator.events() =~= reported + later);
            assert(reported.len() == n + k);
            assert(a.coordinator.events().take(n) =~= before);
            assert(a.coordinator.events().skip(n + k) =~= later);
            if k == 1 {
                assert(a.coordinator.events()[n] == reported.last());
            }
        }
        Ok((a, done))
    }
}

/// A free agent that finds no message waiting stays free, is not
/// finished, claims nothing and reports nothing but, if it changed, the
/// free state; with a responsive queue and coordinator the step succeeds.
pub proof fn lemma_idle_step<C, R, S, Q, W, D>(
    before: Agent<C, R, S, Q, W, D>,
    after: Agent<C, R, S, Q, W, D>,
    done: bool,
) where
    C: Coordinator,
    R: RebootClient,
    S: SetupRunner,
    Q: WorkQueue,
    W: WorkerRunner,
    D: DoneMarker,

    requires
        before.scheduler == Scheduler::Free,
        before.work_queue.available().len() == 0,
        before.stepped(after, done),
    ensures
        !done,
        after.idle,
        after.scheduler == Scheduler::Free,
        after.work_queue.claimed() == before.work_queue.claimed(),
        after.work_queue.available() == before.work_queue.available(),
        after.coordinator.events().len() <= before.coordinator.events().len() + 1,
        after.coordinator.events().len() == before.coordinator.events().len() + 1
            ==> after.coordinator.events().last() == NodeEvent::StateUpdate(
            StateUpdateEvent::Free,
        ),
{
    let n = before.coordinator.events().len();
    if after.coordinator.events().len() == n + 1 {
        assert(after.coordinator.events().skip(n as int + 1).len() == 0);
    }
}

/// A free agent with messages waiting claims exactly one, the last, and
/// moves to setting up its work set, keeping its receipt for the
/// acknowledgment; the other messages stay waiting.
pub proof fn lemma_claim_step<C, R, S, Q, W, D>(
    before: Agent<C, R, S, Q, W, D>,
    after: Agent<C, R, S, Q, W, D>,
    done: bool,
) where
    C: Coordinator,
    R: RebootClient,
    S: SetupRunner,
    Q: WorkQueue,
    W: WorkerRunner,
    D: DoneMarker,

    requires
        before.scheduler == Scheduler::Free,
        before.work_queue.available().len() > 0,
        before.stepped(after, done),
    ensures
        !done,
        !after.idle,
        after.scheduler == (Scheduler::SettingUp {
            work_set: before.work_queue.available().last().work_set,
            receipt: before.work_queue.available().last().queue_message,
        }),
        after.work_queue.claimed() == before.work_queue.claimed().push(
            before.work_queue.available().last(),
        ),
        after.work_queue.available().len() == before.work_queue.available().len() - 1,
{
}

/// Each step claims one message when it moves a free agent to setting up,
/// and none otherwise.
pub proof fn lemma_one_claim_per_transition<C, R, S, Q, W, D>(
    before: Agent<C, R, S, Q, W, D>,
    after: Agent<C, R, S, Q, W, D>,
    done: bool,
) where
    C: Coordinator,
    R: RebootClient,
    S: SetupRunner,
    Q: WorkQueue,
    W: WorkerRunner,
    D: DoneMarker,

    requires
        before.stepped(after, done),
    ensures
        before.scheduler is Free && after.scheduler is SettingUp ==> exists|m: Message|
            after.work_queue.claimed() == #[trigger] before.work_queue.claimed().push(m),
        !(before.scheduler is Free && after.scheduler is SettingUp) ==> after.work_queue.claimed()
            == before.work_queue.claimed(),
{
    if before.scheduler is Free && after.scheduler is SettingUp {
        let m = before.work_queue.available().last();
        assert(after.work_queue.claimed() == before.work_queue.claimed().push(m));
    }
}

/// Done is final: a step from it stays done, reports the run finished and
/// acknowledges the claimed message once; a later step acknowledges nothing.
pub proof fn lemma_done_is_final<C, R, S, Q, W, D>(
    before: Agent<C, R, S, Q, W, D>,
    after: Agent<C, R, S, Q, W, D>,
    done: bool,
) where
    C: Coordinator,
    R: RebootClient,
    S: SetupRunner,
    Q: WorkQueue,
    W: WorkerRunner,
    D: DoneMarker,

    requires
        before.scheduler is Done,
        before.stepped(after, done),
    ensures
        done,
        after.scheduler matches Scheduler::Done { receipt: None, .. },
        after.done_marker.is_marked(before.machine_id),
        after.work_queue.acked().len() <= before.work_queue.acked().len() + 1,
        before.scheduler matches Scheduler::Done { receipt: None, .. } ==> after.work_queue
            == before.work_queue,
{
}

} // verus!
