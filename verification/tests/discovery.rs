use btle_session::discovery::{
    build_scan_options, can_scan, filter_for_pattern, scan_events, scan_start_decision,
    DiscoveryEvent, ScanFilter, ScanOutcome,
};
use btle_session::endpoint::Endpoint;
use btle_session::error::DeviceError;
use btle_session::specifier::{CharacteristicSpec, ProtocolSpecifier, ServiceSpec};

fn specifier(names: &[&str], services: &[&str]) -> ProtocolSpecifier {
    ProtocolSpecifier {
        name_patterns: names.iter().map(|n| n.to_string()).collect(),
        services: services
            .iter()
            .map(|s| ServiceSpec { id: s.to_string(), characteristics: Vec::new() })
            .collect(),
    }
}

#[test]
fn wildcard_pattern_gives_prefix_filter() {
    let f = filter_for_pattern(&"LVS-*".to_string());
    assert!(matches!(f, ScanFilter::NamePrefix(p) if p == "LVS-"));
}

#[test]
fn plain_pattern_gives_exact_filter() {
    let f = filter_for_pattern(&"Hush".to_string());
    assert!(matches!(f, ScanFilter::Name(n) if n == "Hush"));
}

#[test]
fn lone_wildcard_gives_empty_prefix() {
    let f = filter_for_pattern(&"*".to_string());
    assert!(matches!(f, ScanFilter::NamePrefix(p) if p.is_empty()));
}

#[test]
fn inner_wildcard_is_not_a_marker() {
    let f = filter_for_pattern(&"a*b".to_string());
    assert!(matches!(f, ScanFilter::Name(n) if n == "a*b"));
}

#[test]
fn filter_set_has_one_entry_per_pattern_and_service() {
    let catalog = vec![
        specifier(&["LVS-*", "Hush"], &["svc-a", "svc-b"]),
        specifier(&["Onyx*"], &["svc-c"]),
    ];
    let options = build_scan_options(&catalog);
    assert_eq!(options.filters.len(), 3);
    assert_eq!(options.optional_services.len(), 3);
    assert!(matches!(&options.filters[0], ScanFilter::NamePrefix(p) if p == "LVS-"));
    assert!(matches!(&options.filters[1], ScanFilter::Name(n) if n == "Hush"));
    assert!(matches!(&options.filters[2], ScanFilter::NamePrefix(p) if p == "Onyx"));
    assert_eq!(options.optional_services, vec!["svc-a", "svc-b", "svc-c"]);
}

#[test]
fn empty_catalog_gives_empty_scan_set() {
    let options = build_scan_options(&Vec::new());
    assert!(options.filters.is_empty());
    assert!(options.optional_services.is_empty());
}

#[test]
fn named_device_yields_found_then_finished() {
    let events = scan_events(ScanOutcome::Chosen {
        name: Some("Hush".to_string()),
        address: "aa:bb".to_string(),
    });
    assert_eq!(events.len(), 2);
    assert!(matches!(&events[0],
        DiscoveryEvent::DeviceFound { name, address } if name == "Hush" && address == "aa:bb"));
    assert!(matches!(&events[1], DiscoveryEvent::ScanningFinished));
}

#[test]
fn nameless_device_folds_into_finished() {
    let events = scan_events(ScanOutcome::Chosen { name: None, address: "aa:bb".to_string() });
    assert_eq!(events.len(), 1);
    assert!(matches!(&events[0], DiscoveryEvent::ScanningFinished));
}

#[test]
fn scan_error_folds_into_finished() {
    let events = scan_events(ScanOutcome::Failed);
    assert_eq!(events.len(), 1);
    assert!(matches!(&events[0], DiscoveryEvent::ScanningFinished));
}

#[test]
fn capability_absence_is_reported() {
    assert!(matches!(scan_start_decision(false), Err(DeviceError::CapabilityUnavailable)));
    assert!(scan_start_decision(true).is_ok());
}

#[test]
fn scanning_is_statically_supported() {
    assert!(can_scan());
}

#[test]
fn name_only_specifier_survives_filter_build() {
    let catalog = vec![ProtocolSpecifier {
        name_patterns: vec!["Hush".to_string()],
        services: vec![ServiceSpec {
            id: "svc".to_string(),
            characteristics: vec![CharacteristicSpec {
                endpoint: Endpoint::Tx,
                id: "chr".to_string(),
            }],
        }],
    }];
    let options = build_scan_options(&catalog);
    assert_eq!(options.filters.len(), 1);
    assert_eq!(options.optional_services, vec!["svc"]);
}
