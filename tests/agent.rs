use onefuzz_agent::agent::DEFAULT_SLEEP_SECONDS;
use onefuzz_agent::double::{ChildDouble, SetupRunnerDouble, WorkerRunnerDouble};
use onefuzz_agent::event::{ExitStatus, NodeEvent, NodeState, StateUpdateEvent, WorkerEvent};
use onefuzz_agent::fixture::{AgentDouble, Fixture};
use onefuzz_agent::scheduler::Scheduler;
use onefuzz_agent::work::WorkSet;

fn run(mut agent: AgentDouble, steps: usize) -> (AgentDouble, bool) {
    let mut done = false;
    for _i in 0..steps {
        (agent, done) = agent.update().unwrap();
        if done {
            break;
        }
    }
    (agent, done)
}

fn claimed(agent: &AgentDouble) -> Vec<WorkSet> {
    agent
        .work_queue
        .claimed
        .iter()
        .map(|cl| cl.work_set.clone())
        .collect::<Vec<WorkSet>>()
}

fn success() -> ExitStatus {
    ExitStatus {
        code: Some(0),
        signal: None,
        success: true,
    }
}

#[test]
fn test_update_free_no_work() {
    let mut agent = Fixture.agent();
    agent.sleep_duration = 5;

    let (agent, done) = agent.update().unwrap();
    assert!(!done);

    assert!(matches!(agent.scheduler, Scheduler::Free));

    let claimed_worksets = claimed(&agent);
    assert_eq!(claimed_worksets, &[]);
}

#[test]
fn test_update_free_has_work() {
    let mut agent = Fixture.agent();
    agent.work_queue.available.push(Fixture.message());

    let (agent, done) = agent.update().unwrap();
    assert!(!done);
    assert!(matches!(agent.scheduler, Scheduler::SettingUp { .. }));

    let claimed_worksets = claimed(&agent);
    assert_eq!(claimed_worksets, &[Fixture.work_set()]);
}

#[test]
fn test_emitted_state() {
    let mut agent = AgentDouble {
        worker_runner: WorkerRunnerDouble {
            child: ChildDouble {
                exit_status: Some(success()),
                ..ChildDouble::default()
            },
            ..WorkerRunnerDouble::default()
        },
        ..Fixture.agent()
    };
    agent.work_queue.available.push(Fixture.message());

    let (agent, _done) = run(agent, 10);

    let expected_events: Vec<NodeEvent> = vec![
        NodeEvent::StateUpdate(StateUpdateEvent::Free),
        NodeEvent::StateUpdate(StateUpdateEvent::SettingUp {
            tasks: vec![Fixture.task_id()],
        }),
        NodeEvent::StateUpdate(StateUpdateEvent::Ready),
        NodeEvent::StateUpdate(StateUpdateEvent::Busy),
        NodeEvent::WorkerEvent(WorkerEvent::Running {
            task_id: Fixture.task_id(),
        }),
        NodeEvent::WorkerEvent(WorkerEvent::Done {
            task_id: Fixture.task_id(),
            exit_status: success(),
            stderr: String::default(),
            stdout: String::default(),
        }),
        NodeEvent::StateUpdate(StateUpdateEvent::Done {
            error: None,
            script_output: None,
        }),
    ];
    assert_eq!(&agent.coordinator.events, &expected_events);
}

#[test]
fn test_emitted_state_failed_setup() {
    let error_message = "Failed setup";
    let mut agent = AgentDouble {
        setup_runner: SetupRunnerDouble {
            error_message: Some(String::from(error_message)),
            ..SetupRunnerDouble::default()
        },
        ..Fixture.agent()
    };
    agent.work_queue.available.push(Fixture.message());

    let (agent, _done) = run(agent, 10);

    let expected_events: Vec<NodeEvent> = vec![
        NodeEvent::StateUpdate(StateUpdateEvent::Free),
        NodeEvent::StateUpdate(StateUpdateEvent::SettingUp {
            tasks: vec![Fixture.task_id()],
        }),
        NodeEvent::StateUpdate(StateUpdateEvent::Done {
            error: Some(String::from(error_message)),
            script_output: None,
        }),
    ];
    assert_eq!(&agent.coordinator.events, &expected_events);
}

#[test]
fn idle_agent_reports_free_once_and_waits() {
    let agent = Fixture.agent();
    assert_eq!(agent.sleep_duration, DEFAULT_SLEEP_SECONDS);
    let (agent, done) = agent.update().unwrap();
    assert!(!done);
    assert!(agent.idle);
    let (agent, done) = agent.update().unwrap();
    assert!(!done);
    assert!(agent.idle);
    assert!(matches!(agent.scheduler, Scheduler::Free));
    assert_eq!(
        agent.coordinator.events,
        vec![NodeEvent::StateUpdate(StateUpdateEvent::Free)]
    );
    assert!(agent.work_queue.claimed.is_empty());
}

#[test]
fn one_claim_per_free_step_with_many_messages() {
    let mut agent = Fixture.agent();
    for _i in 0..3 {
        agent.work_queue.available.push(Fixture.message());
    }
    let (agent, done) = agent.update().unwrap();
    assert!(!done);
    assert!(!agent.idle);
    assert_eq!(agent.work_queue.claimed.len(), 1);
    assert_eq!(agent.work_queue.available.len(), 2);
    // Later steps work on the claimed set and claim nothing more.
    let (agent, _done) = run(agent, 3);
    assert_eq!(agent.work_queue.claimed.len(), 1);
    assert_eq!(agent.work_queue.available.len(), 2);
}

#[test]
fn finished_run_marks_the_machine_done() {
    let mut agent = AgentDouble {
        worker_runner: WorkerRunnerDouble {
            child: ChildDouble {
                exit_status: Some(success()),
                ..ChildDouble::default()
            },
            ..WorkerRunnerDouble::default()
        },
        ..Fixture.agent()
    };
    agent.work_queue.available.push(Fixture.message());
    let (agent, done) = run(agent, 10);
    assert!(done);
    assert!(matches!(
        agent.scheduler,
        Scheduler::Done {
            error: None,
            script_output: None,
            receipt: None
        }
    ));
    assert_eq!(agent.done_marker.marked, vec![agent.machine_id]);
}

#[test]
fn claimed_message_acknowledged_once_after_done() {
    let mut agent = Fixture.agent();
    let mut message = Fixture.message();
    message.queue_message = Some("receipt-1".to_string());
    agent.work_queue.available.push(message);
    agent.setup_runner.error_message = Some("no setup".to_string());
    let (agent, done) = agent.update().unwrap();
    assert!(!done);
    assert!(agent.work_queue.acked.is_empty());
    let (agent, done) = agent.update().unwrap();
    assert!(!done);
    assert!(agent.work_queue.acked.is_empty());
    let (agent, done) = agent.update().unwrap();
    assert!(done);
    assert_eq!(agent.work_queue.acked, vec!["receipt-1".to_string()]);
    let (agent, done) = agent.update().unwrap();
    assert!(done);
    assert_eq!(agent.work_queue.acked, vec!["receipt-1".to_string()]);
    assert_eq!(agent.coordinator.events.len(), 3);
}

#[test]
fn reboot_flag_leads_to_pending_reboot() {
    let mut agent = Fixture.agent();
    let mut message = Fixture.message();
    message.work_set.reboot = true;
    agent.work_queue.available.push(message);
    let (agent, done) = run(agent, 5);
    assert!(!done);
    assert!(matches!(agent.scheduler, Scheduler::PendingReboot { .. }));
    assert!(agent.reboot.invoked);
    let mut saved = Fixture.work_set();
    saved.reboot = true;
    assert_eq!(agent.reboot.saved[0], saved);
    assert_eq!(
        agent.coordinator.events,
        vec![
            NodeEvent::StateUpdate(StateUpdateEvent::Free),
            NodeEvent::StateUpdate(StateUpdateEvent::SettingUp {
                tasks: vec![Fixture.task_id()],
            }),
            NodeEvent::StateUpdate(StateUpdateEvent::PendingReboot),
        ]
    );
    assert!(agent.done_marker.marked.is_empty());
}

#[test]
fn setup_asking_for_reboot_leads_to_pending_reboot() {
    let mut agent = AgentDouble {
        setup_runner: SetupRunnerDouble {
            reboot_required: true,
            ..SetupRunnerDouble::default()
        },
        ..Fixture.agent()
    };
    agent.work_queue.available.push(Fixture.message());
    let (agent, _done) = run(agent, 2);
    assert!(matches!(agent.scheduler, Scheduler::PendingReboot { .. }));
}

#[test]
fn running_worker_keeps_agent_busy() {
    let mut agent = Fixture.agent();
    agent.work_queue.available.push(Fixture.message());
    let (agent, done) = run(agent, 8);
    assert!(!done);
    assert!(matches!(
        agent.scheduler,
        Scheduler::Busy {
            running_reported: true,
            ..
        }
    ));
    assert_eq!(agent.last_state, NodeState::Busy);
    assert_eq!(agent.coordinator.events.len(), 5);
    assert_eq!(
        agent.coordinator.events[4],
        NodeEvent::WorkerEvent(WorkerEvent::Running {
            task_id: Fixture.task_id()
        })
    );
}

#[test]
fn worker_events_follow_unit_order() {
    let mut work_set = Fixture.work_set();
    let mut second = Fixture.work_unit();
    second.task_id = 7;
    work_set.work_units.push(second);
    let mut agent = AgentDouble {
        worker_runner: WorkerRunnerDouble {
            child: ChildDouble {
                exit_status: Some(ExitStatus {
                    code: None,
                    signal: Some(9),
                    success: false,
                }),
                stdout: "out".to_string(),
                stderr: "err".to_string(),
            },
            ..WorkerRunnerDouble::default()
        },
        ..Fixture.agent()
    };
    agent.work_queue.available.push(onefuzz_agent::work::Message {
        work_set,
        queue_message: None,
    });
    let (agent, done) = run(agent, 10);
    assert!(done);
    let events = &agent.coordinator.events;
    assert_eq!(
        events[1],
        NodeEvent::StateUpdate(StateUpdateEvent::SettingUp {
            tasks: vec![Fixture.task_id(), 7],
        })
    );
    assert_eq!(
        events[4],
        NodeEvent::WorkerEvent(WorkerEvent::Running {
            task_id: Fixture.task_id()
        })
    );
    assert_eq!(events[5], NodeEvent::WorkerEvent(WorkerEvent::Running { task_id: 7 }));
    assert_eq!(
        events[7],
        NodeEvent::WorkerEvent(WorkerEvent::Done {
            task_id: 7,
            exit_status: ExitStatus {
                code: None,
                signal: Some(9),
                success: false,
            },
            stdout: "out".to_string(),
            stderr: "err".to_string(),
        })
    );
    assert_eq!(events.len(), 9);
}

#[test]
fn resumed_agent_starts_ready() {
    let mut agent = AgentDouble {
        scheduler: Scheduler::new(Some(Fixture.work_set())),
        ..Fixture.agent()
    };
    agent.worker_runner.child.exit_status = Some(success());
    let (agent, done) = run(agent, 10);
    assert!(done);
    assert_eq!(
        agent.coordinator.events[0],
        NodeEvent::StateUpdate(StateUpdateEvent::Ready)
    );
    assert!(agent.work_queue.claimed.is_empty());
}

#[test]
fn done_marker_at_startup_claims_nothing() {
    let mut agent = AgentDouble {
        scheduler: Scheduler::on_startup(None, true),
        ..Fixture.agent()
    };
    agent.work_queue.available.push(Fixture.message());
    let (agent, done) = agent.update().unwrap();
    assert!(done);
    assert!(agent.work_queue.claimed.is_empty());
    assert!(matches!(Scheduler::on_startup(None, false), Scheduler::Free));
    assert!(matches!(
        Scheduler::on_startup(Some(Fixture.work_set()), false),
        Scheduler::Ready { .. }
    ));
}
