use freemdu_gui::actions::DeviceInfo;
use freemdu_gui::consumer::{ConnectionState, FreeMduApp, STATUS_LIFETIME_MS};
use freemdu_gui::handle::WorkerHandle;
use freemdu_gui::messages::{WorkerCommand, WorkerResponse};
use freemdu_gui::scheduler::{due, elapsed, interval, next_due, THROTTLE_MS};
use freemdu_gui::storage::PropertyStorage;
use freemdu_gui::types::{DeviceKind, PropertyData, PropertyKind, PropertyValue};
use std::sync::mpsc::{channel, Receiver, Sender};

fn ports() -> Vec<String> {
    vec!["/dev/ttyUSB0".to_string(), "/dev/ttyUSB1".to_string()]
}

fn reading(name: &str, value: u32) -> PropertyData {
    PropertyData { name: name.to_string(), value: PropertyValue::Number(value), unit: None }
}

fn device() -> DeviceInfo {
    DeviceInfo { software_id: 42, kind: DeviceKind::WashingMachine, actions: Vec::new() }
}

/// An app with a handle, and the far ends of the two queues.
fn attached(now: u64) -> (FreeMduApp, Receiver<WorkerCommand>, Sender<WorkerResponse>) {
    let (command_tx, command_rx) = channel();
    let (response_tx, response_rx) = channel();
    let mut app = FreeMduApp::new(ports(), now);
    let port = app.connect(now).expect("a port is selected");
    app.attach(&port, Ok(WorkerHandle::new(command_tx, response_rx)), now);
    (app, command_rx, response_tx)
}

fn queried(commands: &Receiver<WorkerCommand>) -> Vec<PropertyKind> {
    let mut kinds = Vec::new();
    while let Ok(command) = commands.try_recv() {
        match command {
            WorkerCommand::QueryProperties(kind) => kinds.push(kind),
            other => panic!("unexpected command: {:?}", other),
        }
    }
    kinds
}

#[test]
fn a_new_app_is_disconnected_and_knows_nothing() {
    let app = FreeMduApp::new(ports(), 1000);
    assert!(matches!(app.connection_state(), ConnectionState::Disconnected));
    assert_eq!(app.available_ports(), &ports());
    assert_eq!(app.selected_port(), 0);
    assert!(app.auto_refresh());
    assert!(!app.is_busy());
    assert!(app.visible_status(1000).is_none());
    for kind in [
        PropertyKind::General,
        PropertyKind::Failure,
        PropertyKind::Operation,
        PropertyKind::Io,
    ] {
        let slot = app.properties().get(kind);
        assert!(slot.0.is_empty());
        assert_eq!(slot.1, None);
    }
}

#[test]
fn connecting_without_ports_only_sets_the_status() {
    let mut app = FreeMduApp::new(Vec::new(), 0);
    assert_eq!(app.connect(5), None);
    assert!(matches!(app.connection_state(), ConnectionState::Disconnected));
    assert_eq!(app.visible_status(5), Some(("No serial ports available".to_string(), true)));
}

#[test]
fn connecting_goes_to_the_selected_port() {
    let mut app = FreeMduApp::new(ports(), 0);
    app.select_port(1);
    assert_eq!(app.selected_port(), 1);
    app.select_port(2);
    assert_eq!(app.selected_port(), 1);
    assert_eq!(app.connect(5).as_deref(), Some("/dev/ttyUSB1"));
    assert!(matches!(app.connection_state(), ConnectionState::Connecting));
    assert!(app.is_busy());
    let (command_tx, _command_rx) = channel();
    let (_response_tx, response_rx) = channel();
    app.attach("/dev/ttyUSB1", Ok(WorkerHandle::new(command_tx, response_rx)), 6);
    assert!(matches!(app.connection_state(), ConnectionState::Connecting));
    assert_eq!(app.visible_status(6), Some(("Connecting to /dev/ttyUSB1...".to_string(), false)));
}

#[test]
fn a_worker_that_cannot_be_started_is_an_error() {
    let mut app = FreeMduApp::new(ports(), 0);
    let port = app.connect(1).unwrap();
    app.attach(&port, Err("no threads left".to_string()), 2);
    match app.connection_state() {
        ConnectionState::Error(message) => assert_eq!(message, "no threads left"),
        other => panic!("unexpected state: {:?}", other),
    }
    assert_eq!(
        app.visible_status(2),
        Some(("Failed to connect: no threads left".to_string(), true))
    );
    assert!(!app.request_property_update(PropertyKind::Io));
}

#[test]
fn refreshing_the_ports_keeps_a_selection_that_still_fits() {
    let mut app = FreeMduApp::new(ports(), 0);
    app.select_port(1);
    app.refresh_ports(vec!["a".to_string(), "b".to_string(), "c".to_string()]);
    assert_eq!(app.selected_port(), 1);
    app.refresh_ports(vec!["a".to_string()]);
    assert_eq!(app.selected_port(), 0);
    app.refresh_ports(Vec::new());
    assert_eq!(app.selected_port(), 0);
    assert!(app.available_ports().is_empty());
}

#[test]
fn connected_sets_state_and_status() {
    let (mut app, _commands, _responses) = attached(0);
    app.apply_response(WorkerResponse::Connected(device()), 100);
    match app.connection_state() {
        ConnectionState::Connected(info) => {
            assert_eq!(info.software_id, 42);
            assert_eq!(info.kind, DeviceKind::WashingMachine);
            assert!(info.actions.is_empty());
        }
        other => panic!("unexpected state: {:?}", other),
    }
    assert_eq!(
        app.visible_status(100),
        Some(("Connected to Washing Machine (ID: 42)".to_string(), false))
    );
    assert!(app.is_busy());
}

#[test]
fn a_batch_replaces_its_group_whole_and_no_other() {
    let (mut app, _commands, _responses) = attached(0);
    app.apply_response(WorkerResponse::Connected(device()), 0);
    app.apply_response(
        WorkerResponse::Properties(PropertyKind::Io, vec![reading("a", 1), reading("b", 2)]),
        10,
    );
    app.apply_response(
        WorkerResponse::Properties(PropertyKind::General, vec![reading("model", 3)]),
        20,
    );
    app.apply_response(WorkerResponse::Properties(PropertyKind::Io, vec![reading("c", 4)]), 30);
    let io = app.properties().get(PropertyKind::Io);
    assert_eq!(io.0.len(), 1);
    assert_eq!(io.0[0].name, "c");
    assert_eq!(io.1, Some(30));
    let general = app.properties().get(PropertyKind::General);
    assert_eq!(general.0.len(), 1);
    assert_eq!(general.0[0].name, "model");
    assert_eq!(general.1, Some(20));
    assert_eq!(app.properties().get(PropertyKind::Failure).1, None);
    assert_eq!(app.properties().get(PropertyKind::Operation).1, None);
    assert_eq!(
        app.visible_status(30),
        Some(("Connected to Washing Machine (ID: 42)".to_string(), false))
    );
}

#[test]
fn action_results_become_status_messages() {
    let (mut app, _commands, _responses) = attached(0);
    app.apply_response(
        WorkerResponse::ActionResult("Reset".to_string(), true, "Success".to_string()),
        50,
    );
    assert_eq!(app.visible_status(50), Some(("Action 'Reset' executed".to_string(), false)));
    app.apply_response(
        WorkerResponse::ActionResult("Reset".to_string(), false, "Timeout".to_string()),
        60,
    );
    assert_eq!(app.visible_status(60), Some(("Action 'Reset' failed: Timeout".to_string(), true)));
    assert!(matches!(app.connection_state(), ConnectionState::Connecting));
}

#[test]
fn an_error_response_becomes_the_error_state() {
    let (mut app, _commands, _responses) = attached(0);
    app.apply_response(WorkerResponse::Error("Connection timeout".to_string()), 70);
    match app.connection_state() {
        ConnectionState::Error(message) => assert_eq!(message, "Connection timeout"),
        other => panic!("unexpected state: {:?}", other),
    }
    assert_eq!(app.visible_status(70), Some(("Error: Connection timeout".to_string(), true)));
    assert!(!app.is_busy());
}

#[test]
fn disconnected_drops_the_handle() {
    let (mut app, commands, _responses) = attached(0);
    app.apply_response(WorkerResponse::Connected(device()), 0);
    app.apply_response(WorkerResponse::Disconnected, 80);
    assert!(matches!(app.connection_state(), ConnectionState::Disconnected));
    assert_eq!(app.visible_status(80), Some(("Device disconnected".to_string(), true)));
    assert!(!app.request_property_update(PropertyKind::Io));
    assert!(!app.trigger_action("reset", None));
    assert!(matches!(commands.try_recv(), Ok(WorkerCommand::Disconnect)));
    assert!(commands.try_recv().is_err());
}

#[test]
fn responses_are_applied_in_order() {
    let (mut app, _commands, _responses) = attached(0);
    app.process_worker_responses(
        vec![
            WorkerResponse::Connected(device()),
            WorkerResponse::Properties(PropertyKind::Io, vec![reading("a", 1)]),
            WorkerResponse::ActionResult("Start".to_string(), true, "Success".to_string()),
            WorkerResponse::Properties(PropertyKind::Io, vec![reading("b", 2), reading("c", 3)]),
            WorkerResponse::ActionResult("Stop".to_string(), false, "invalid state".to_string()),
        ],
        500,
    );
    assert!(matches!(app.connection_state(), ConnectionState::Connected(_)));
    let io = app.properties().get(PropertyKind::Io);
    assert_eq!(io.0.len(), 2);
    assert_eq!(io.0[0].name, "b");
    assert_eq!(io.0[1].name, "c");
    assert_eq!(io.1, Some(500));
    assert_eq!(
        app.visible_status(500),
        Some(("Action 'Stop' failed: invalid state".to_string(), true))
    );
    app.process_worker_responses(Vec::new(), 600);
    assert_eq!(app.properties().get(PropertyKind::Io).1, Some(500));
}

#[test]
fn the_user_disconnects() {
    let (mut app, commands, _responses) = attached(0);
    app.apply_response(WorkerResponse::Connected(device()), 0);
    app.apply_response(WorkerResponse::Properties(PropertyKind::Io, vec![reading("a", 1)]), 10);
    app.disconnect(20);
    assert!(matches!(app.connection_state(), ConnectionState::Disconnected));
    assert!(app.properties().get(PropertyKind::Io).0.is_empty());
    assert_eq!(app.properties().get(PropertyKind::Io).1, None);
    assert_eq!(app.visible_status(20), Some(("Disconnected".to_string(), false)));
    assert!(matches!(commands.try_recv(), Ok(WorkerCommand::Disconnect)));
}

#[test]
fn a_status_message_is_shown_for_ten_seconds() {
    let mut app = FreeMduApp::new(ports(), 0);
    app.set_status("hello", false, 1000);
    assert_eq!(STATUS_LIFETIME_MS, 10000);
    assert_eq!(app.visible_status(1000), Some(("hello".to_string(), false)));
    assert_eq!(app.visible_status(10_999), Some(("hello".to_string(), false)));
    assert_eq!(app.visible_status(11_000), None);
    assert_eq!(app.visible_status(500), Some(("hello".to_string(), false)));
}

#[test]
fn intervals_and_elapsed_time() {
    assert_eq!(THROTTLE_MS, 500);
    assert_eq!(interval(PropertyKind::Io), 500);
    assert_eq!(interval(PropertyKind::Operation), 1000);
    assert_eq!(interval(PropertyKind::Failure), 5000);
    assert_eq!(interval(PropertyKind::General), 30000);
    assert_eq!(elapsed(700, 100), 600);
    assert_eq!(elapsed(100, 100), 0);
    assert_eq!(elapsed(100, 700), 0);
}

#[test]
fn a_group_is_due_without_data_or_after_its_interval() {
    let mut storage = PropertyStorage::default();
    assert!(due(&storage, PropertyKind::Failure, 0));
    storage.store(PropertyKind::Failure, Vec::new(), 1000);
    assert!(!due(&storage, PropertyKind::Failure, 1000));
    assert!(!due(&storage, PropertyKind::Failure, 5999));
    assert!(due(&storage, PropertyKind::Failure, 6000));
    assert!(!due(&storage, PropertyKind::Failure, 0));
}

#[test]
fn io_comes_before_operation_when_both_are_due() {
    let mut storage = PropertyStorage::default();
    storage.store(PropertyKind::General, Vec::new(), 10_000);
    storage.store(PropertyKind::Failure, Vec::new(), 10_000);
    storage.store(PropertyKind::Operation, Vec::new(), 8_000);
    storage.store(PropertyKind::Io, Vec::new(), 9_400);
    assert_eq!(next_due(&storage, 10_000), Some(PropertyKind::Io));
    storage.store(PropertyKind::Io, Vec::new(), 9_600);
    assert_eq!(next_due(&storage, 10_000), Some(PropertyKind::Operation));
    storage.store(PropertyKind::Operation, Vec::new(), 9_500);
    assert_eq!(next_due(&storage, 10_000), None);
    assert_eq!(next_due(&storage, 15_000), Some(PropertyKind::Io));
    storage.store(PropertyKind::Io, Vec::new(), 15_000);
    storage.store(PropertyKind::Operation, Vec::new(), 15_000);
    assert_eq!(next_due(&storage, 15_000), Some(PropertyKind::Failure));
    storage.store(PropertyKind::Failure, Vec::new(), 15_000);
    assert_eq!(next_due(&storage, 15_000), None);
    storage.store(PropertyKind::Io, Vec::new(), 39_900);
    storage.store(PropertyKind::Operation, Vec::new(), 39_900);
    storage.store(PropertyKind::Failure, Vec::new(), 39_900);
    assert_eq!(next_due(&storage, 40_000), Some(PropertyKind::General));
}

#[test]
fn the_scheduler_asks_once_per_window() {
    let (mut app, commands, _responses) = attached(0);
    app.apply_response(WorkerResponse::Connected(device()), 0);
    assert_eq!(app.auto_refresh_properties(499), None);
    assert_eq!(app.auto_refresh_properties(500), Some(PropertyKind::Io));
    assert_eq!(app.auto_refresh_properties(500), None);
    assert_eq!(app.auto_refresh_properties(600), None);
    assert_eq!(app.auto_refresh_properties(999), None);
    assert_eq!(queried(&commands), vec![PropertyKind::Io]);
    assert_eq!(app.auto_refresh_properties(1000), Some(PropertyKind::Io));
    assert_eq!(queried(&commands), vec![PropertyKind::Io]);
}

#[test]
fn the_scheduler_walks_down_the_groups_as_answers_come() {
    let (mut app, commands, _responses) = attached(0);
    app.apply_response(WorkerResponse::Connected(device()), 0);
    assert_eq!(app.auto_refresh_properties(500), Some(PropertyKind::Io));
    app.apply_response(WorkerResponse::Properties(PropertyKind::Io, Vec::new()), 510);
    assert_eq!(app.auto_refresh_properties(1000), Some(PropertyKind::Operation));
    app.apply_response(WorkerResponse::Properties(PropertyKind::Operation, Vec::new()), 1010);
    assert_eq!(app.auto_refresh_properties(1500), Some(PropertyKind::Io));
    app.apply_response(WorkerResponse::Properties(PropertyKind::Io, Vec::new()), 1510);
    assert_eq!(app.auto_refresh_properties(2000), Some(PropertyKind::Failure));
    app.apply_response(WorkerResponse::Properties(PropertyKind::Failure, Vec::new()), 2001);
    assert_eq!(app.auto_refresh_properties(2500), Some(PropertyKind::Io));
    app.apply_response(WorkerResponse::Properties(PropertyKind::Io, Vec::new()), 2501);
    assert_eq!(app.auto_refresh_properties(3000), Some(PropertyKind::Operation));
    app.apply_response(WorkerResponse::Properties(PropertyKind::Operation, Vec::new()), 3001);
    assert_eq!(app.auto_refresh_properties(3500), Some(PropertyKind::Io));
    app.apply_response(WorkerResponse::Properties(PropertyKind::Io, Vec::new()), 3501);
    assert_eq!(app.auto_refresh_properties(3900), None);
    assert_eq!(app.auto_refresh_properties(4000), Some(PropertyKind::General));
    assert_eq!(
        queried(&commands),
        vec![
            PropertyKind::Io,
            PropertyKind::Operation,
            PropertyKind::Io,
            PropertyKind::Failure,
            PropertyKind::Io,
            PropertyKind::Operation,
            PropertyKind::Io,
            PropertyKind::General,
        ]
    );
}

#[test]
fn a_look_that_finds_nothing_due_still_starts_a_window() {
    let (mut app, commands, _responses) = attached(0);
    app.apply_response(WorkerResponse::Connected(device()), 0);
    for kind in [
        PropertyKind::General,
        PropertyKind::Failure,
        PropertyKind::Operation,
        PropertyKind::Io,
    ] {
        app.apply_response(WorkerResponse::Properties(kind, Vec::new()), 400);
    }
    assert_eq!(app.auto_refresh_properties(600), None);
    assert_eq!(app.auto_refresh_properties(900), None);
    assert_eq!(app.auto_refresh_properties(1099), None);
    assert_eq!(app.auto_refresh_properties(1100), Some(PropertyKind::Io));
    assert_eq!(queried(&commands), vec![PropertyKind::Io]);
}

#[test]
fn the_scheduler_rests_without_a_connection_or_when_switched_off() {
    let mut app = FreeMduApp::new(ports(), 0);
    assert_eq!(app.auto_refresh_properties(10_000), None);
    let (mut app, commands, _responses) = attached(0);
    assert_eq!(app.auto_refresh_properties(10_000), None);
    app.apply_response(WorkerResponse::Connected(device()), 0);
    app.set_auto_refresh(false);
    assert!(!app.auto_refresh());
    assert_eq!(app.auto_refresh_properties(10_000), None);
    app.set_auto_refresh(true);
    assert_eq!(app.auto_refresh_properties(10_000), Some(PropertyKind::Io));
    assert_eq!(queried(&commands), vec![PropertyKind::Io]);
}

#[test]
fn refresh_all_makes_every_group_due_and_keeps_the_batches() {
    let (mut app, _commands, _responses) = attached(0);
    app.apply_response(WorkerResponse::Connected(device()), 0);
    for kind in [
        PropertyKind::General,
        PropertyKind::Failure,
        PropertyKind::Operation,
        PropertyKind::Io,
    ] {
        app.apply_response(WorkerResponse::Properties(kind, vec![reading("x", 1)]), 1000);
    }
    assert_eq!(app.auto_refresh_properties(1000), None);
    app.refresh_all();
    for kind in [
        PropertyKind::General,
        PropertyKind::Failure,
        PropertyKind::Operation,
        PropertyKind::Io,
    ] {
        assert_eq!(app.properties().get(kind).0.len(), 1);
        assert_eq!(app.properties().get(kind).1, None);
    }
    assert_eq!(app.auto_refresh_properties(1100), None);
    assert_eq!(app.auto_refresh_properties(1500), Some(PropertyKind::Io));
    assert_eq!(app.auto_refresh_properties(2000), Some(PropertyKind::Io));
    app.apply_response(WorkerResponse::Properties(PropertyKind::Io, Vec::new()), 2001);
    assert_eq!(app.auto_refresh_properties(2500), Some(PropertyKind::Operation));
}

#[test]
fn a_triggered_action_carries_the_staged_parameter() {
    let (mut app, commands, _responses) = attached(0);
    assert!(app.trigger_action("reset", None));
    assert!(app.trigger_action("program", Some("Wool".to_string())));
    match commands.try_recv() {
        Ok(WorkerCommand::TriggerAction(id, param)) => {
            assert_eq!(id, "reset");
            assert_eq!(param, None);
        }
        other => panic!("unexpected command: {:?}", other),
    }
    match commands.try_recv() {
        Ok(WorkerCommand::TriggerAction(id, param)) => {
            assert_eq!(id, "program");
            assert_eq!(param.as_deref(), Some("Wool"));
        }
        other => panic!("unexpected command: {:?}", other),
    }
}
