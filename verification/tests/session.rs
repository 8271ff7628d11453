use btle_session::endpoint::{endpoint_for_characteristic, Endpoint};
use btle_session::endpoint_map::{
    build_endpoint_map, DeviceCharacteristic, DeviceService, EndpointMap,
};
use btle_session::error::DeviceError;
use btle_session::session::{
    complete_io, complete_read, Command, CommandRequest, DispatchAction, HardwareEvent, LoopInput,
    SessionEngine,
};
use btle_session::specifier::{CharacteristicSpec, ProtocolSpecifier, ServiceSpec};

const MOTOR_ID: &str = "00001401-0000-1000-8000-00805f9b34fb";
const SOLENOID_ID: &str = "00001402-0000-1000-8000-00805f9b34fb";

fn char_spec(endpoint: Endpoint, id: &str) -> CharacteristicSpec {
    CharacteristicSpec { endpoint, id: id.to_string() }
}

fn device_char(id: &str, handle: u64) -> DeviceCharacteristic {
    DeviceCharacteristic { id: id.to_string(), handle }
}

fn demo_map() -> EndpointMap {
    let mut map = EndpointMap::new();
    map.insert(Endpoint::Tx, 10);
    map.insert(Endpoint::Rx, 11);
    map
}

fn demo_engine() -> SessionEngine {
    SessionEngine::new("dev-1".to_string(), demo_map())
}

#[test]
fn vendor_ids_override_assigned_endpoints() {
    let motor = endpoint_for_characteristic(
        Endpoint::Named("motor".to_string()),
        &MOTOR_ID.to_string(),
    );
    let solenoid = endpoint_for_characteristic(
        Endpoint::Named("solenoid".to_string()),
        &SOLENOID_ID.to_string(),
    );
    let other = endpoint_for_characteristic(
        Endpoint::Named("aux".to_string()),
        &"2a00".to_string(),
    );
    assert_eq!(motor, Endpoint::Tx);
    assert_eq!(solenoid, Endpoint::Rx);
    assert_eq!(other, Endpoint::Named("aux".to_string()));
}

#[test]
fn endpoint_map_resolution_skips_what_the_device_lacks() {
    // The table references S1 (Tx, Rx), S2 ("aux") and S3 (missing).
    let services = vec![
        ServiceSpec {
            id: "s1".to_string(),
            characteristics: vec![char_spec(Endpoint::Tx, "c1"), char_spec(Endpoint::Rx, "c2")],
        },
        ServiceSpec {
            id: "s2".to_string(),
            characteristics: vec![char_spec(Endpoint::Named("aux".to_string()), "c3")],
        },
        ServiceSpec {
            id: "s3".to_string(),
            characteristics: vec![char_spec(Endpoint::Named("gone".to_string()), "c4")],
        },
    ];
    let device = vec![
        DeviceService {
            id: "s1".to_string(),
            characteristics: vec![device_char("c1", 1), device_char("c2", 2)],
        },
        DeviceService { id: "s2".to_string(), characteristics: vec![device_char("c3", 3)] },
    ];
    let map = build_endpoint_map(&services, &device);
    assert_eq!(map.get(&Endpoint::Tx), Some(1));
    assert_eq!(map.get(&Endpoint::Rx), Some(2));
    assert_eq!(map.get(&Endpoint::Named("aux".to_string())), Some(3));
    assert_eq!(map.get(&Endpoint::Named("gone".to_string())), None);
}

#[test]
fn endpoint_map_resolution_skips_missing_characteristics() {
    let services = vec![ServiceSpec {
        id: "s1".to_string(),
        characteristics: vec![char_spec(Endpoint::Tx, "c1"), char_spec(Endpoint::Rx, "c2")],
    }];
    let device = vec![DeviceService {
        id: "s1".to_string(),
        characteristics: vec![device_char("c2", 7)],
    }];
    let map = build_endpoint_map(&services, &device);
    assert_eq!(map.get(&Endpoint::Tx), None);
    assert_eq!(map.get(&Endpoint::Rx), Some(7));
}

#[test]
fn vendor_override_applies_during_resolution() {
    let services = vec![ServiceSpec {
        id: "s1".to_string(),
        characteristics: vec![
            char_spec(Endpoint::Named("motor".to_string()), MOTOR_ID),
            char_spec(Endpoint::Named("solenoid".to_string()), SOLENOID_ID),
        ],
    }];
    let device = vec![DeviceService {
        id: "s1".to_string(),
        characteristics: vec![device_char(MOTOR_ID, 5), device_char(SOLENOID_ID, 6)],
    }];
    let map = build_endpoint_map(&services, &device);
    assert_eq!(map.get(&Endpoint::Tx), Some(5));
    assert_eq!(map.get(&Endpoint::Rx), Some(6));
    assert_eq!(map.get(&Endpoint::Named("motor".to_string())), None);
    assert_eq!(map.get(&Endpoint::Named("solenoid".to_string())), None);
}

#[test]
fn later_binding_overrides_earlier() {
    let mut map = EndpointMap::new();
    map.insert(Endpoint::Tx, 1);
    map.insert(Endpoint::Tx, 2);
    assert_eq!(map.get(&Endpoint::Tx), Some(2));
}

#[test]
fn writes_to_distinct_endpoints_dispatch_independently() {
    let engine = demo_engine();
    let a = engine.dispatch(Command {
        ticket: 1,
        request: CommandRequest::Write(Endpoint::Tx, vec![1, 2]),
    });
    let b = engine.dispatch(Command {
        ticket: 2,
        request: CommandRequest::Write(Endpoint::Rx, vec![3]),
    });
    assert!(matches!(a,
        DispatchAction::IssueWrite { ticket: 1, handle: 10, ref data } if *data == vec![1, 2]));
    assert!(matches!(b,
        DispatchAction::IssueWrite { ticket: 2, handle: 11, ref data } if *data == vec![3]));
    // One failing platform outcome leaves the other completion untouched.
    let ok = complete_io(Ok(()));
    let failed = complete_io(Err("bus error".to_string()));
    assert!(ok.is_ok());
    assert!(matches!(failed, Err(DeviceError::DeviceCommunication(m)) if m == "bus error"));
}

#[test]
fn read_of_unknown_endpoint_fails_only_that_command() {
    let mut engine = demo_engine();
    let bad = Command {
        ticket: 1,
        request: CommandRequest::Read(Endpoint::Named("gone".to_string())),
    };
    let good = Command { ticket: 2, request: CommandRequest::Read(Endpoint::Rx) };
    let actions = engine.run_to_close(vec![
        LoopInput::Incoming(bad),
        LoopInput::Incoming(good),
        LoopInput::Closed,
    ]);
    assert_eq!(actions.len(), 2);
    assert!(matches!(&actions[0],
        DispatchAction::Fail { ticket: 1, error: DeviceError::UnknownEndpoint(e) }
            if *e == Endpoint::Named("gone".to_string())));
    assert!(matches!(&actions[1],
        DispatchAction::IssueRead { ticket: 2, handle: 11, endpoint: Endpoint::Rx }));
}

#[test]
fn successful_read_is_tagged_with_its_endpoint() {
    let reading = complete_read(Endpoint::Rx, Ok(vec![9, 8])).unwrap();
    assert_eq!(reading.endpoint, Endpoint::Rx);
    assert_eq!(reading.data, vec![9, 8]);
    let failed = complete_read(Endpoint::Rx, Err("timed out".to_string()));
    assert!(matches!(failed, Err(DeviceError::DeviceCommunication(m)) if m == "timed out"));
}

#[test]
fn subscribe_and_unsubscribe_dispatch_on_the_bound_handle() {
    let engine = demo_engine();
    let sub = engine.dispatch(Command { ticket: 5, request: CommandRequest::Subscribe(Endpoint::Rx) });
    let unsub = engine.dispatch(Command {
        ticket: 6,
        request: CommandRequest::Unsubscribe(Endpoint::Rx),
    });
    assert!(matches!(sub,
        DispatchAction::IssueSubscribe { ticket: 5, handle: 11, endpoint: Endpoint::Rx }));
    assert!(matches!(unsub, DispatchAction::IssueUnsubscribe { ticket: 6, handle: 11 }));
}

#[test]
fn subscriber_sees_notifications_in_payload_order() {
    let mut engine = demo_engine();
    let mut subscription = engine.subscribe_events();
    engine.handle_notification(Endpoint::Rx, vec![0x01]);
    engine.handle_notification(Endpoint::Rx, vec![0x02]);
    let first = subscription.next(&engine).unwrap();
    assert!(matches!(first,
        HardwareEvent::Notification(id, Endpoint::Rx, payload)
            if id == "dev-1" && *payload == vec![0x01]));
    let second = subscription.next(&engine).unwrap();
    assert!(matches!(second,
        HardwareEvent::Notification(id, Endpoint::Rx, payload)
            if id == "dev-1" && *payload == vec![0x02]));
    assert!(subscription.next(&engine).is_none());
}

#[test]
fn late_subscriber_misses_earlier_events() {
    let mut engine = demo_engine();
    engine.handle_notification(Endpoint::Rx, vec![0x01]);
    let mut subscription = engine.subscribe_events();
    assert!(subscription.next(&engine).is_none());
}

#[test]
fn disconnect_reaches_every_active_subscriber_once() {
    let mut engine = demo_engine();
    let mut early = engine.subscribe_events();
    engine.handle_notification(Endpoint::Rx, vec![0x01]);
    let mut late = engine.subscribe_events();
    engine.handle_disconnect();
    // The early subscriber sees the notification, then exactly one disconnect.
    assert!(matches!(early.next(&engine).unwrap(), HardwareEvent::Notification(..)));
    assert!(matches!(early.next(&engine).unwrap(),
        HardwareEvent::Disconnected(id) if id == "dev-1"));
    assert!(early.next(&engine).is_none());
    // The late subscriber sees exactly one disconnect as well.
    assert!(matches!(late.next(&engine).unwrap(),
        HardwareEvent::Disconnected(id) if id == "dev-1"));
    assert!(late.next(&engine).is_none());
}

#[test]
fn closed_queue_stops_the_loop_without_events() {
    let mut engine = demo_engine();
    let before = engine.event_count();
    let actions = engine.run_to_close(vec![
        LoopInput::Incoming(Command {
            ticket: 1,
            request: CommandRequest::Write(Endpoint::Tx, vec![1]),
        }),
        LoopInput::Closed,
        LoopInput::Incoming(Command {
            ticket: 2,
            request: CommandRequest::Write(Endpoint::Rx, vec![2]),
        }),
    ]);
    assert_eq!(actions.len(), 1);
    assert!(matches!(&actions[0], DispatchAction::IssueWrite { ticket: 1, handle: 10, .. }));
    assert_eq!(engine.event_count(), before);
}

#[test]
fn loop_without_close_serves_every_command() {
    let mut engine = demo_engine();
    let actions = engine.run_to_close(vec![
        LoopInput::Incoming(Command { ticket: 1, request: CommandRequest::Read(Endpoint::Tx) }),
        LoopInput::Incoming(Command { ticket: 2, request: CommandRequest::Read(Endpoint::Rx) }),
    ]);
    assert_eq!(actions.len(), 2);
}
