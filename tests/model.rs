use onefuzz_agent::done::done_file_name;
use onefuzz_agent::event::{ExitStatus, NodeEvent, WorkerEvent};
use onefuzz_agent::fixture::Fixture;
use onefuzz_agent::scheduler::{Scheduler, TaskExit, WorkerOutput};

fn exit() -> TaskExit {
    TaskExit {
        exit_status: ExitStatus {
            code: Some(1),
            signal: None,
            success: false,
        },
        stdout: "o".to_string(),
        stderr: "e".to_string(),
    }
}

#[test]
fn fixture_ids_match_their_text() {
    let job = uuid::Uuid::parse_str("83267e88-efdd-4b1d-92c0-6b80d01887f8").unwrap();
    let task = uuid::Uuid::parse_str("eb8ee6b8-6f2d-43b1-aec2-022e9813e86b").unwrap();
    assert_eq!(job.as_u128(), Fixture.job_id());
    assert_eq!(task.as_u128(), Fixture.task_id());
}

#[test]
fn fixture_work_set_shape() {
    let ws = Fixture.work_set();
    assert!(!ws.reboot);
    assert!(!ws.script);
    assert_eq!(ws.setup_url.url, "https://contoso.com/my-setup-container");
    assert_eq!(ws.work_units, vec![Fixture.work_unit()]);
    assert_eq!(ws.task_ids(), vec![Fixture.task_id()]);
    assert_eq!(Fixture.message().work_set, ws);
    assert!(Fixture.message().queue_message.is_none());
    assert!(Fixture.work_unit().env.is_empty());
    assert!(Fixture.work_unit().config.contains("\"hello\": \"world\""));
}

#[test]
fn machine_ids_are_random_version_four() {
    let a = Fixture.agent();
    let b = Fixture.agent();
    assert_ne!(a.machine_id, b.machine_id);
    assert_eq!((a.machine_id >> 76) & 0xf, 4);
}

#[test]
fn done_file_name_holds_hyphenated_id() {
    assert_eq!(
        done_file_name(Fixture.job_id()),
        "done-83267e88-efdd-4b1d-92c0-6b80d01887f8"
    );
}

#[test]
fn script_output_kept_only_for_scripts() {
    let mut ws = Fixture.work_set();
    let output = WorkerOutput {
        exits: vec![exit()],
        script_output: Some("log".to_string()),
    };
    let (_, next) = Scheduler::after_work(ws.clone(), None, output.clone()).unwrap();
    assert!(matches!(next, Scheduler::Done { error: None, script_output: None, receipt: None }));
    ws.script = true;
    let (events, next) = Scheduler::after_work(ws, Some("r".to_string()), output).unwrap();
    match next {
        Scheduler::Done {
            error,
            script_output,
            receipt,
        } => {
            assert_eq!(error, None);
            assert_eq!(script_output, Some("log".to_string()));
            assert_eq!(receipt, Some("r".to_string()));
        }
        _ => panic!("expected done"),
    }
    assert_eq!(
        events,
        vec![NodeEvent::WorkerEvent(WorkerEvent::Done {
            task_id: Fixture.task_id(),
            exit_status: exit().exit_status,
            stdout: "o".to_string(),
            stderr: "e".to_string(),
        })]
    );
}

#[test]
fn worker_output_of_wrong_length_is_refused() {
    let output = WorkerOutput {
        exits: vec![exit(), exit()],
        script_output: None,
    };
    assert!(Scheduler::after_work(Fixture.work_set(), None, output).is_err());
    let empty = WorkerOutput {
        exits: vec![],
        script_output: None,
    };
    assert!(Scheduler::after_work(Fixture.work_set(), None, empty).is_err());
}

#[test]
fn setup_outcomes() {
    let ws = Fixture.work_set();
    assert!(matches!(
        Scheduler::after_setup(ws.clone(), None, Ok(false)),
        Scheduler::Ready { .. }
    ));
    assert!(matches!(
        Scheduler::after_setup(ws.clone(), None, Ok(true)),
        Scheduler::PendingReboot { .. }
    ));
    let mut rebooting = ws.clone();
    rebooting.reboot = true;
    assert!(matches!(
        Scheduler::after_setup(rebooting, None, Ok(false)),
        Scheduler::PendingReboot { .. }
    ));
    match Scheduler::after_setup(ws, Some("r".to_string()), Err("bad".to_string())) {
        Scheduler::Done {
            error,
            script_output,
            receipt,
        } => {
            assert_eq!(receipt, Some("r".to_string()));
            assert_eq!(error, Some("bad".to_string()));
            assert_eq!(script_output, None);
        }
        _ => panic!("expected done"),
    }
    assert!(matches!(Scheduler::after_poll(None), Scheduler::Free));
    let mut message = Fixture.message();
    message.queue_message = Some("r".to_string());
    match Scheduler::after_poll(Some(message)) {
        Scheduler::SettingUp { work_set, receipt } => {
            assert_eq!(work_set, Fixture.work_set());
            assert_eq!(receipt, Some("r".to_string()));
        }
        _ => panic!("expected setting up"),
    }
}
