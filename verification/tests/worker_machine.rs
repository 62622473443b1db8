use freemdu_gui::actions::{ActionInfo, ActionParamsInfo, DeviceInfo};
use freemdu_gui::messages::{WorkerCommand, WorkerResponse};
use freemdu_gui::types::{DeviceKind, PropertyData, PropertyKind, PropertyValue};
use freemdu_gui::worker::{
    HandshakeOutcome, PropertyInfo, QueryOutcome, TriggerOutcome, Worker, WorkerAction,
    WorkerEvent, WorkerStep, COMMAND_WAIT_MS, HANDSHAKE_TIMEOUT_MS, QUERY_TIMEOUT_MS,
    TRIGGER_TIMEOUT_MS,
};

fn property(kind: PropertyKind, name: &str, unit: Option<&str>) -> PropertyInfo {
    PropertyInfo { kind, name: name.to_string(), unit: unit.map(String::from) }
}

fn action(id: &str, name: &str) -> ActionInfo {
    ActionInfo { id: id.to_string(), name: name.to_string(), params: None }
}

fn sample_properties() -> Vec<PropertyInfo> {
    vec![
        property(PropertyKind::General, "Model", None),
        property(PropertyKind::Io, "Water level", Some("mm")),
        property(PropertyKind::Operation, "Phase", None),
        property(PropertyKind::Io, "Door", None),
        property(PropertyKind::Io, "Temperature", Some("°C")),
    ]
}

fn accepted(worker: Worker, event: WorkerEvent) -> (Worker, WorkerStep) {
    let (worker, step) = worker.step(event);
    (worker, step.expect("the event is accepted in this phase"))
}

fn connected(properties: Vec<PropertyInfo>, actions: Vec<ActionInfo>) -> Worker {
    let (worker, _) = Worker::start();
    let (worker, _) = accepted(worker, WorkerEvent::PortOpened);
    let info = DeviceInfo { software_id: 629, kind: DeviceKind::WashingMachine, actions };
    let (worker, _) =
        accepted(worker, WorkerEvent::Handshake(HandshakeOutcome::Connected(info, properties)));
    worker
}

fn names(data: &[PropertyData]) -> Vec<String> {
    data.iter().map(|d| d.name.clone()).collect()
}

#[test]
fn port_failure_ends_the_worker_with_an_error() {
    let (worker, first) = Worker::start();
    assert!(matches!(first, WorkerAction::OpenPort));
    let (worker, step) = accepted(worker, WorkerEvent::PortFailed("no such device".to_string()));
    match step.emit {
        Some(WorkerResponse::Error(message)) => {
            assert_eq!(message, "Failed to open port: no such device")
        }
        other => panic!("unexpected response: {:?}", other),
    }
    assert!(matches!(step.next, WorkerAction::Stop));
    assert!(worker.is_stopped());
    let (worker, refused) = worker.step(WorkerEvent::Command(WorkerCommand::Disconnect));
    assert!(refused.is_none());
    assert!(worker.is_stopped());
}

#[test]
fn runtime_failure_is_reported() {
    let (worker, _) = Worker::start();
    let (worker, step) = accepted(worker, WorkerEvent::RuntimeFailed("out of threads".to_string()));
    match step.emit {
        Some(WorkerResponse::Error(message)) => {
            assert_eq!(message, "Failed to create runtime: out of threads")
        }
        other => panic!("unexpected response: {:?}", other),
    }
    assert!(matches!(step.next, WorkerAction::Stop));
    assert!(worker.is_stopped());
}

#[test]
fn an_open_port_leads_to_the_handshake() {
    let (worker, _) = Worker::start();
    let (worker, step) = accepted(worker, WorkerEvent::PortOpened);
    assert!(step.emit.is_none());
    match step.next {
        WorkerAction::Handshake { timeout_ms } => {
            assert_eq!(timeout_ms, 5000);
            assert_eq!(timeout_ms, HANDSHAKE_TIMEOUT_MS);
        }
        other => panic!("unexpected action: {:?}", other),
    }
    assert!(!worker.is_stopped());
}

#[test]
fn handshake_error_and_timeout_end_the_worker() {
    let (worker, _) = Worker::start();
    let (worker, _) = accepted(worker, WorkerEvent::PortOpened);
    let (worker, step) = accepted(
        worker,
        WorkerEvent::Handshake(HandshakeOutcome::Failed("unknown software ID: 7".to_string())),
    );
    match step.emit {
        Some(WorkerResponse::Error(message)) => {
            assert_eq!(message, "Failed to connect: unknown software ID: 7")
        }
        other => panic!("unexpected response: {:?}", other),
    }
    assert!(matches!(step.next, WorkerAction::Stop));
    assert!(worker.is_stopped());

    let (worker, _) = Worker::start();
    let (worker, _) = accepted(worker, WorkerEvent::PortOpened);
    let (worker, step) = accepted(worker, WorkerEvent::Handshake(HandshakeOutcome::TimedOut));
    match step.emit {
        Some(WorkerResponse::Error(message)) => assert_eq!(message, "Connection timeout"),
        other => panic!("unexpected response: {:?}", other),
    }
    assert!(matches!(step.next, WorkerAction::Stop));
    assert!(worker.is_stopped());
}

#[test]
fn handshake_success_reports_the_device_once() {
    let (worker, _) = Worker::start();
    let (worker, _) = accepted(worker, WorkerEvent::PortOpened);
    let info = DeviceInfo { software_id: 42, kind: DeviceKind::Dishwasher, actions: Vec::new() };
    let (worker, step) = accepted(
        worker,
        WorkerEvent::Handshake(HandshakeOutcome::Connected(info, sample_properties())),
    );
    match step.emit {
        Some(WorkerResponse::Connected(info)) => {
            assert_eq!(info.software_id, 42);
            assert_eq!(info.kind, DeviceKind::Dishwasher);
            assert!(info.actions.is_empty());
        }
        other => panic!("unexpected response: {:?}", other),
    }
    match step.next {
        WorkerAction::AwaitCommand { timeout_ms } => {
            assert_eq!(timeout_ms, 50);
            assert_eq!(timeout_ms, COMMAND_WAIT_MS);
        }
        other => panic!("unexpected action: {:?}", other),
    }
    assert_eq!(worker.property_count(), 5);
    assert_eq!(worker.action_count(), 0);
    let (_, step) = accepted(worker, WorkerEvent::Idle);
    assert!(step.emit.is_none());
    assert!(matches!(step.next, WorkerAction::AwaitCommand { timeout_ms: 50 }));
}

#[test]
fn a_query_reads_the_group_in_order_and_sends_one_batch() {
    let worker = connected(sample_properties(), Vec::new());
    let (worker, step) =
        accepted(worker, WorkerEvent::Command(WorkerCommand::QueryProperties(PropertyKind::Io)));
    assert!(step.emit.is_none());
    match step.next {
        WorkerAction::Query { index, timeout_ms } => {
            assert_eq!(index, 1);
            assert_eq!(timeout_ms, 1000);
            assert_eq!(timeout_ms, QUERY_TIMEOUT_MS);
        }
        other => panic!("unexpected action: {:?}", other),
    }
    let (worker, step) =
        accepted(worker, WorkerEvent::QueryDone(QueryOutcome::Value(PropertyValue::Number(120))));
    assert!(step.emit.is_none());
    assert!(matches!(step.next, WorkerAction::Query { index: 3, timeout_ms: 1000 }));
    let (worker, step) =
        accepted(worker, WorkerEvent::QueryDone(QueryOutcome::Value(PropertyValue::Bool(true))));
    assert!(step.emit.is_none());
    assert!(matches!(step.next, WorkerAction::Query { index: 4, timeout_ms: 1000 }));
    let (worker, step) = accepted(
        worker,
        WorkerEvent::QueryDone(QueryOutcome::Value(PropertyValue::Sensor(40, 60))),
    );
    match step.emit {
        Some(WorkerResponse::Properties(kind, data)) => {
            assert_eq!(kind, PropertyKind::Io);
            assert_eq!(names(&data), vec!["Water level", "Door", "Temperature"]);
            assert_eq!(data[0].unit.as_deref(), Some("mm"));
            assert_eq!(data[1].unit, None);
            assert_eq!(data[2].unit.as_deref(), Some("°C"));
            assert!(matches!(data[0].value, PropertyValue::Number(120)));
            assert!(matches!(data[1].value, PropertyValue::Bool(true)));
            assert!(matches!(data[2].value, PropertyValue::Sensor(40, 60)));
        }
        other => panic!("unexpected response: {:?}", other),
    }
    assert!(matches!(step.next, WorkerAction::AwaitCommand { timeout_ms: 50 }));
    assert!(!worker.is_stopped());
}

#[test]
fn a_failed_property_is_left_out_of_the_batch() {
    let worker = connected(sample_properties(), Vec::new());
    let (worker, _) =
        accepted(worker, WorkerEvent::Command(WorkerCommand::QueryProperties(PropertyKind::Io)));
    let (worker, _) =
        accepted(worker, WorkerEvent::QueryDone(QueryOutcome::Value(PropertyValue::Number(7))));
    let (worker, step) = accepted(worker, WorkerEvent::QueryDone(QueryOutcome::Failed));
    assert!(step.emit.is_none());
    assert!(matches!(step.next, WorkerAction::Query { index: 4, .. }));
    let (_, step) = accepted(
        worker,
        WorkerEvent::QueryDone(QueryOutcome::Value(PropertyValue::String("warm".to_string()))),
    );
    match step.emit {
        Some(WorkerResponse::Properties(kind, data)) => {
            assert_eq!(kind, PropertyKind::Io);
            assert_eq!(names(&data), vec!["Water level", "Temperature"]);
            assert!(matches!(data[0].value, PropertyValue::Number(7)));
            match &data[1].value {
                PropertyValue::String(s) => assert_eq!(s, "warm"),
                other => panic!("unexpected value: {:?}", other),
            }
        }
        other => panic!("unexpected response: {:?}", other),
    }
}

#[test]
fn a_timed_out_property_is_left_out_of_the_batch() {
    let worker = connected(sample_properties(), Vec::new());
    let (worker, _) =
        accepted(worker, WorkerEvent::Command(WorkerCommand::QueryProperties(PropertyKind::Io)));
    let (worker, _) = accepted(worker, WorkerEvent::QueryDone(QueryOutcome::TimedOut));
    let (worker, _) = accepted(worker, WorkerEvent::QueryDone(QueryOutcome::TimedOut));
    let (worker, step) = accepted(worker, WorkerEvent::QueryDone(QueryOutcome::TimedOut));
    match step.emit {
        Some(WorkerResponse::Properties(kind, data)) => {
            assert_eq!(kind, PropertyKind::Io);
            assert!(data.is_empty());
        }
        other => panic!("unexpected response: {:?}", other),
    }
    assert!(!worker.is_stopped());
}

#[test]
fn a_group_without_properties_gives_an_empty_batch_at_once() {
    let worker = connected(sample_properties(), Vec::new());
    let (_, step) = accepted(
        worker,
        WorkerEvent::Command(WorkerCommand::QueryProperties(PropertyKind::Failure)),
    );
    match step.emit {
        Some(WorkerResponse::Properties(kind, data)) => {
            assert_eq!(kind, PropertyKind::Failure);
            assert!(data.is_empty());
        }
        other => panic!("unexpected response: {:?}", other),
    }
    assert!(matches!(step.next, WorkerAction::AwaitCommand { timeout_ms: 50 }));
}

#[test]
fn a_second_batch_does_not_hold_the_first() {
    let worker = connected(sample_properties(), Vec::new());
    let (worker, _) = accepted(
        worker,
        WorkerEvent::Command(WorkerCommand::QueryProperties(PropertyKind::General)),
    );
    let (worker, step) =
        accepted(worker, WorkerEvent::QueryDone(QueryOutcome::Value(PropertyValue::Number(1))));
    match step.emit {
        Some(WorkerResponse::Properties(_, data)) => assert_eq!(names(&data), vec!["Model"]),
        other => panic!("unexpected response: {:?}", other),
    }
    let (worker, _) = accepted(
        worker,
        WorkerEvent::Command(WorkerCommand::QueryProperties(PropertyKind::Operation)),
    );
    let (_, step) =
        accepted(worker, WorkerEvent::QueryDone(QueryOutcome::Value(PropertyValue::Number(2))));
    match step.emit {
        Some(WorkerResponse::Properties(kind, data)) => {
            assert_eq!(kind, PropertyKind::Operation);
            assert_eq!(names(&data), vec!["Phase"]);
        }
        other => panic!("unexpected response: {:?}", other),
    }
}

#[test]
fn triggering_reset_reports_success_once() {
    let worker = connected(Vec::new(), vec![action("start", "Start"), action("reset", "Reset")]);
    let (worker, step) = accepted(
        worker,
        WorkerEvent::Command(WorkerCommand::TriggerAction("reset".to_string(), None)),
    );
    assert!(step.emit.is_none());
    match step.next {
        WorkerAction::Trigger { index, param, timeout_ms } => {
            assert_eq!(index, 1);
            assert_eq!(param, None);
            assert_eq!(timeout_ms, 2000);
            assert_eq!(timeout_ms, TRIGGER_TIMEOUT_MS);
        }
        other => panic!("unexpected action: {:?}", other),
    }
    let (worker, step) = accepted(worker, WorkerEvent::TriggerDone(TriggerOutcome::Done));
    match step.emit {
        Some(WorkerResponse::ActionResult(name, success, message)) => {
            assert_eq!(name, "Reset");
            assert!(success);
            assert_eq!(message, "Success");
        }
        other => panic!("unexpected response: {:?}", other),
    }
    assert!(matches!(step.next, WorkerAction::AwaitCommand { timeout_ms: 50 }));
    let (_, step) = accepted(worker, WorkerEvent::Idle);
    assert!(step.emit.is_none());
}

#[test]
fn a_staged_parameter_is_handed_to_the_action() {
    let worker = connected(
        Vec::new(),
        vec![ActionInfo {
            id: "program".to_string(),
            name: "Set program".to_string(),
            params: Some(ActionParamsInfo::Enumeration(vec![
                "Cotton".to_string(),
                "Wool".to_string(),
            ])),
        }],
    );
    let (_, step) = accepted(
        worker,
        WorkerEvent::Command(WorkerCommand::TriggerAction(
            "program".to_string(),
            Some("Wool".to_string()),
        )),
    );
    match step.next {
        WorkerAction::Trigger { index, param, .. } => {
            assert_eq!(index, 0);
            assert_eq!(param.as_deref(), Some("Wool"));
        }
        other => panic!("unexpected action: {:?}", other),
    }
}

#[test]
fn a_refused_action_reports_the_reason() {
    let worker = connected(Vec::new(), vec![action("reset", "Reset")]);
    let (worker, _) = accepted(
        worker,
        WorkerEvent::Command(WorkerCommand::TriggerAction("reset".to_string(), None)),
    );
    let (_, step) = accepted(
        worker,
        WorkerEvent::TriggerDone(TriggerOutcome::Failed("invalid state".to_string())),
    );
    match step.emit {
        Some(WorkerResponse::ActionResult(name, success, message)) => {
            assert_eq!(name, "Reset");
            assert!(!success);
            assert_eq!(message, "invalid state");
        }
        other => panic!("unexpected response: {:?}", other),
    }
}

#[test]
fn an_action_that_times_out_reports_timeout() {
    let worker = connected(Vec::new(), vec![action("reset", "Reset")]);
    let (worker, _) = accepted(
        worker,
        WorkerEvent::Command(WorkerCommand::TriggerAction("reset".to_string(), None)),
    );
    let (worker, step) = accepted(worker, WorkerEvent::TriggerDone(TriggerOutcome::TimedOut));
    match step.emit {
        Some(WorkerResponse::ActionResult(name, success, message)) => {
            assert_eq!(name, "Reset");
            assert!(!success);
            assert_eq!(message, "Timeout");
        }
        other => panic!("unexpected response: {:?}", other),
    }
    assert!(!worker.is_stopped());
}

#[test]
fn an_unknown_action_is_passed_over_in_silence() {
    let worker = connected(Vec::new(), vec![action("reset", "Reset")]);
    let (worker, step) = accepted(
        worker,
        WorkerEvent::Command(WorkerCommand::TriggerAction("explode".to_string(), None)),
    );
    assert!(step.emit.is_none());
    assert!(matches!(step.next, WorkerAction::AwaitCommand { timeout_ms: 50 }));
    assert!(!worker.is_stopped());
}

#[test]
fn the_first_action_with_the_id_is_taken() {
    let worker = connected(Vec::new(), vec![action("a", "First"), action("a", "Second")]);
    let (worker, step) =
        accepted(worker, WorkerEvent::Command(WorkerCommand::TriggerAction("a".to_string(), None)));
    assert!(matches!(step.next, WorkerAction::Trigger { index: 0, .. }));
    let (_, step) = accepted(worker, WorkerEvent::TriggerDone(TriggerOutcome::Done));
    match step.emit {
        Some(WorkerResponse::ActionResult(name, _, _)) => assert_eq!(name, "First"),
        other => panic!("unexpected response: {:?}", other),
    }
}

#[test]
fn disconnect_is_answered_and_ends_the_worker() {
    let worker = connected(sample_properties(), Vec::new());
    let (worker, step) = accepted(worker, WorkerEvent::Command(WorkerCommand::Disconnect));
    assert!(matches!(step.emit, Some(WorkerResponse::Disconnected)));
    assert!(matches!(step.next, WorkerAction::Stop));
    assert!(worker.is_stopped());
}

#[test]
fn a_closed_command_queue_ends_the_worker_without_a_word() {
    let worker = connected(sample_properties(), Vec::new());
    let (worker, step) = accepted(worker, WorkerEvent::ChannelClosed);
    assert!(step.emit.is_none());
    assert!(matches!(step.next, WorkerAction::Stop));
    assert!(worker.is_stopped());
}

#[test]
fn events_out_of_turn_are_refused() {
    let (worker, _) = Worker::start();
    let (worker, refused) = worker.step(WorkerEvent::Idle);
    assert!(refused.is_none());
    let (worker, refused) = worker.step(WorkerEvent::QueryDone(QueryOutcome::Failed));
    assert!(refused.is_none());
    assert!(!worker.is_stopped());
    let (worker, step) = worker.step(WorkerEvent::PortOpened);
    assert!(step.is_some());
    let (_, refused) = worker.step(WorkerEvent::PortOpened);
    assert!(refused.is_none());

    let worker = connected(sample_properties(), vec![action("reset", "Reset")]);
    let (worker, refused) = worker.step(WorkerEvent::TriggerDone(TriggerOutcome::Done));
    assert!(refused.is_none());
    let (worker, _) =
        accepted(worker, WorkerEvent::Command(WorkerCommand::QueryProperties(PropertyKind::Io)));
    let (worker, refused) = worker.step(WorkerEvent::Command(WorkerCommand::Disconnect));
    assert!(refused.is_none());
    let (worker, refused) = worker.step(WorkerEvent::Idle);
    assert!(refused.is_none());
    let (_, step) = worker.step(WorkerEvent::QueryDone(QueryOutcome::Failed));
    assert!(matches!(step.unwrap().next, WorkerAction::Query { index: 3, .. }));
}

#[test]
fn commands_are_answered_in_the_order_in_which_they_came() {
    let mut worker = connected(sample_properties(), vec![action("reset", "Reset")]);
    let mut sent: Vec<WorkerResponse> = Vec::new();
    let script = vec![
        WorkerEvent::Command(WorkerCommand::QueryProperties(PropertyKind::General)),
        WorkerEvent::QueryDone(QueryOutcome::Value(PropertyValue::Number(5))),
        WorkerEvent::Command(WorkerCommand::TriggerAction("reset".to_string(), None)),
        WorkerEvent::TriggerDone(TriggerOutcome::Done),
        WorkerEvent::Idle,
        WorkerEvent::Command(WorkerCommand::QueryProperties(PropertyKind::Operation)),
        WorkerEvent::QueryDone(QueryOutcome::TimedOut),
        WorkerEvent::Command(WorkerCommand::Disconnect),
        WorkerEvent::Command(WorkerCommand::QueryProperties(PropertyKind::Io)),
    ];
    let mut device_operations = 0;
    for event in script {
        let (next, step) = worker.step(event);
        worker = next;
        if let Some(step) = step {
            if matches!(step.next, WorkerAction::Query { .. } | WorkerAction::Trigger { .. }) {
                device_operations += 1;
            }
            if let Some(response) = step.emit {
                sent.push(response);
            }
        }
    }
    assert_eq!(device_operations, 3);
    assert_eq!(sent.len(), 4);
    assert!(matches!(sent[0], WorkerResponse::Properties(PropertyKind::General, _)));
    assert!(matches!(sent[1], WorkerResponse::ActionResult(_, true, _)));
    match &sent[2] {
        WorkerResponse::Properties(kind, data) => {
            assert_eq!(*kind, PropertyKind::Operation);
            assert!(data.is_empty());
        }
        other => panic!("unexpected response: {:?}", other),
    }
    assert!(matches!(sent[3], WorkerResponse::Disconnected));
    assert!(worker.is_stopped());
}
