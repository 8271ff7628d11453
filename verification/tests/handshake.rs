use btle_session::connector::{DeviceDescriptor, HardwareConnector, SessionEvent};
use btle_session::endpoint::Endpoint;
use btle_session::error::DeviceError;
use btle_session::facade::{disconnect, CommandFactory};
use btle_session::session::CommandRequest;
use btle_session::specifier::{ProtocolSpecifier, ServiceSpec};

fn connector() -> HardwareConnector {
    HardwareConnector::new(DeviceDescriptor {
        name: "Hush".to_string(),
        address: "aa:bb:cc".to_string(),
    })
}

#[test]
fn phase_one_specifier_is_name_only() {
    let specifier = connector().specifier();
    assert_eq!(specifier.name_patterns, vec!["Hush"]);
    assert!(specifier.services.is_empty());
}

#[test]
fn specializer_picks_the_first_candidate() {
    let specializer = connector().connect();
    let candidates = vec![
        ProtocolSpecifier {
            name_patterns: vec!["Hush".to_string()],
            services: vec![ServiceSpec { id: "svc-a".to_string(), characteristics: Vec::new() }],
        },
        ProtocolSpecifier { name_patterns: vec!["Other".to_string()], services: Vec::new() },
    ];
    let chosen = specializer.choose_specifier(&candidates);
    assert_eq!(chosen.name_patterns, vec!["Hush"]);
    assert_eq!(chosen.services.len(), 1);
}

#[test]
fn connected_handshake_yields_the_session_identity() {
    let specializer = connector().connect();
    let info = specializer.session_outcome(SessionEvent::Connected).unwrap();
    assert_eq!(info.name, "Hush");
    assert_eq!(info.address, "aa:bb:cc");
}

#[test]
fn failed_handshake_yields_a_connection_error() {
    let specializer = connector().connect();
    let outcome = specializer.session_outcome(SessionEvent::Disconnected);
    assert!(matches!(outcome, Err(DeviceError::ConnectionFailed(m))
        if m == "could not connect to the device"));
}

#[test]
fn command_tickets_are_fresh_and_increasing() {
    let mut factory = CommandFactory::new();
    assert!(!factory.exhausted());
    let first = factory.write_command(Endpoint::Tx, vec![1]);
    let second = factory.read_command(Endpoint::Rx);
    let third = factory.subscribe_command(Endpoint::Rx);
    let fourth = factory.unsubscribe_command(Endpoint::Rx);
    assert_eq!(first.ticket, 0);
    assert_eq!(second.ticket, 1);
    assert_eq!(third.ticket, 2);
    assert_eq!(fourth.ticket, 3);
    assert!(matches!(&first.request, CommandRequest::Write(Endpoint::Tx, data) if *data == vec![1]));
    assert!(matches!(&second.request, CommandRequest::Read(Endpoint::Rx)));
    assert!(matches!(&third.request, CommandRequest::Subscribe(Endpoint::Rx)));
    assert!(matches!(&fourth.request, CommandRequest::Unsubscribe(Endpoint::Rx)));
}

#[test]
fn facade_disconnect_is_a_no_op_success() {
    assert!(disconnect().is_ok());
}
