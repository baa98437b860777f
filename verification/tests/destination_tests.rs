use xcraft::destination::{
    destination_entry, list_destinations, list_devices, list_simulators, parse_destination_spec,
    resolve_destination, runtime_to_os, Destination, DestinationEntry, DeviceCtlDevice, SimDevice,
};
use xcraft::error::XcraftError;
use xcraft::select::Resolution;

fn sim(udid: &str, name: &str, os: &str, state: Option<&str>) -> Destination {
    Destination::Simulator {
        udid: udid.to_string(),
        name: name.to_string(),
        os: os.to_string(),
        state: state.map(|s| s.to_string()),
    }
}

fn device(udid: &str, identifier: &str, name: &str, device_type: &str) -> Destination {
    Destination::Device {
        udid: udid.to_string(),
        identifier: identifier.to_string(),
        name: name.to_string(),
        device_type: device_type.to_string(),
    }
}

fn mac(arch: &str) -> Destination {
    Destination::MacOS { arch: arch.to_string() }
}

#[test]
fn xcodebuild_destination_strings() {
    assert_eq!(
        sim("ABC", "iPhone 15", "iOS 17.2", None).xcodebuild_destination_string(),
        "platform=iOS Simulator,id=ABC"
    );
    assert_eq!(device("U1", "C1", "Phone", "iPhone").xcodebuild_destination_string(), "platform=iOS,id=U1");
    assert_eq!(mac("arm64").xcodebuild_destination_string(), "platform=macOS,arch=arm64");
}

#[test]
fn spec_strings() {
    assert_eq!(sim("ABC", "n", "o", Some("Booted")).spec(), "simulator:ABC");
    assert_eq!(device("U1", "C1", "Phone", "iPhone").spec(), "device:U1");
    assert_eq!(mac("x86_64").spec(), "macos");
}

#[test]
fn same_target_ignores_transient_fields() {
    assert!(sim("A", "x", "iOS 17.0", Some("Booted")).same_target(&sim("A", "", "", None)));
    assert!(!sim("A", "x", "y", None).same_target(&sim("B", "x", "y", None)));
    assert!(device("U", "C1", "a", "b").same_target(&device("U", "C2", "", "")));
    assert!(!device("U", "C", "a", "b").same_target(&sim("U", "a", "b", None)));
    assert!(mac("arm64").same_target(&mac("arm64")));
    assert!(!mac("arm64").same_target(&mac("x86_64")));
}

#[test]
fn labels() {
    assert_eq!(sim("A", "iPhone 15", "iOS 17.2", Some("Booted")).label(), "[Simulator] iPhone 15 (iOS 17.2) (Booted)");
    assert_eq!(sim("A", "iPhone 15", "iOS 17.2", None).label(), "[Simulator] iPhone 15 (iOS 17.2)");
    assert_eq!(device("U", "C", "My Phone", "iPhone").label(), "[Device] My Phone (iPhone)");
    assert_eq!(mac("arm64").label(), "[macOS] My Mac (arm64)");
}

#[test]
fn parse_specs() {
    match parse_destination_spec("macos", "arm64").unwrap() {
        Destination::MacOS { arch } => assert_eq!(arch, "arm64"),
        _ => panic!("expected macOS"),
    }
    match parse_destination_spec("simulator:1234-ABCD", "arm64").unwrap() {
        Destination::Simulator { udid, name, os, state } => {
            assert_eq!(udid, "1234-ABCD");
            assert_eq!(name, "");
            assert_eq!(os, "");
            assert!(state.is_none());
        }
        _ => panic!("expected simulator"),
    }
    match parse_destination_spec("device:00008110", "arm64").unwrap() {
        Destination::Device { udid, identifier, name, device_type } => {
            assert_eq!(udid, "00008110");
            assert_eq!(identifier, "00008110");
            assert_eq!(name, "");
            assert_eq!(device_type, "");
        }
        _ => panic!("expected device"),
    }
}

#[test]
fn parse_spec_errors() {
    for bad in ["", "mac", "MacOS", "simulator", "phone:1", " macos"] {
        match parse_destination_spec(bad, "arm64") {
            Err(XcraftError::InvalidDestinationSpec { spec }) => assert_eq!(spec, bad),
            _ => panic!("expected an error for {bad:?}"),
        }
    }
}

#[test]
fn spec_round_trip_law() {
    for d in [sim("S-1", "iPhone", "iOS 18.0", Some("Shutdown")), device("D-1", "C-1", "Pad", "iPad")] {
        let parsed = parse_destination_spec(&d.spec(), "arm64").unwrap();
        assert!(parsed.same_target(&d));
        assert_eq!(parsed.spec(), d.spec());
    }
    let parsed = parse_destination_spec(&mac("x86_64").spec(), "arm64").unwrap();
    assert!(parsed.same_target(&mac("arm64")));
}

#[test]
fn runtime_os_names() {
    assert_eq!(runtime_to_os("com.apple.CoreSimulator.SimRuntime.iOS-17-2"), "iOS 17.2");
    assert_eq!(runtime_to_os("com.apple.CoreSimulator.SimRuntime.watchOS-10-1"), "watchOS 10.1");
    assert_eq!(runtime_to_os("com.apple.CoreSimulator.SimRuntime.xrOS-2-0-1"), "xrOS 2.0.1");
    assert_eq!(runtime_to_os("iOS-16-4"), "iOS 16.4");
    assert_eq!(runtime_to_os("com.apple.CoreSimulator.SimRuntime.tvOS"), "tvOS");
    assert_eq!(runtime_to_os(""), "");
}

#[test]
fn simulators_skip_unavailable() {
    let runtimes = vec![
        (
            "com.apple.CoreSimulator.SimRuntime.iOS-17-2".to_string(),
            vec![
                SimDevice { udid: "A".into(), name: "iPhone 15".into(), state: Some("Booted".into()), is_available: true },
                SimDevice { udid: "B".into(), name: "iPhone 14".into(), state: None, is_available: false },
            ],
        ),
        (
            "com.apple.CoreSimulator.SimRuntime.watchOS-10-1".to_string(),
            vec![SimDevice { udid: "C".into(), name: "Watch".into(), state: Some("Shutdown".into()), is_available: true }],
        ),
    ];
    let sims = list_simulators(&runtimes);
    assert_eq!(sims.len(), 2);
    assert_eq!(sims[0].label(), "[Simulator] iPhone 15 (iOS 17.2) (Booted)");
    assert_eq!(sims[0].spec(), "simulator:A");
    assert_eq!(sims[1].label(), "[Simulator] Watch (watchOS 10.1) (Shutdown)");
}

#[test]
fn devices_fall_back_to_identifier_and_unknown_type() {
    let devs = vec![
        DeviceCtlDevice { identifier: "CORE-1".into(), name: "Phone".into(), device_type: Some("iPhone".into()), udid: Some("UDID-1".into()) },
        DeviceCtlDevice { identifier: "CORE-2".into(), name: "Pad".into(), device_type: None, udid: None },
    ];
    let out = list_devices(&devs);
    assert_eq!(out.len(), 2);
    match &out[0] {
        Destination::Device { udid, identifier, name, device_type } => {
            assert_eq!(udid, "UDID-1");
            assert_eq!(identifier, "CORE-1");
            assert_eq!(name, "Phone");
            assert_eq!(device_type, "iPhone");
        }
        _ => panic!(),
    }
    match &out[1] {
        Destination::Device { udid, identifier, device_type, .. } => {
            assert_eq!(udid, "CORE-2");
            assert_eq!(identifier, "CORE-2");
            assert_eq!(device_type, "Unknown");
        }
        _ => panic!(),
    }
}

#[test]
fn destinations_devices_then_simulators_then_mac() {
    let all = list_destinations(Some(vec![device("U", "C", "P", "T")]), Some(vec![sim("S", "n", "o", None)]), "arm64");
    let specs: Vec<String> = all.iter().map(|d| d.spec()).collect();
    assert_eq!(specs, vec!["device:U", "simulator:S", "macos"]);
    let only_mac = list_destinations(None, None, "x86_64");
    assert_eq!(only_mac.len(), 1);
    assert_eq!(only_mac[0].xcodebuild_destination_string(), "platform=macOS,arch=x86_64");
}

#[test]
fn resolve_destination_explicit_and_prompt() {
    match resolve_destination(Some("device:XYZ"), None, "arm64", None) {
        Resolution::Chosen(d) => assert_eq!(d.spec(), "device:XYZ"),
        _ => panic!(),
    }
    match resolve_destination(Some("bogus"), None, "arm64", None) {
        Resolution::Failed(XcraftError::InvalidDestinationSpec { spec }) => assert_eq!(spec, "bogus"),
        _ => panic!(),
    }
    assert!(matches!(resolve_destination(None, None, "arm64", None), Resolution::NeedCandidates));
    assert!(matches!(
        resolve_destination(None, None, "arm64", Some(vec![])),
        Resolution::Failed(XcraftError::NoDestinations)
    ));
    let candidates = vec![device("U", "C", "P", "T"), sim("S", "n", "o", None), mac("arm64")];
    let cached = sim("S", "", "", None);
    match resolve_destination(None, Some(&cached), "arm64", Some(candidates)) {
        Resolution::Ask(p) => {
            assert_eq!(p.default_index, 1);
            assert_eq!(p.labels, vec!["[Device] P (T)", "[Simulator] n (o)", "[macOS] My Mac (arm64)"]);
            assert_eq!(p.pick(2).spec(), "macos");
        }
        _ => panic!(),
    }
    // A single candidate is still offered, starting at the first entry when
    // the default matches nothing.
    match resolve_destination(None, Some(&mac("x86_64")), "arm64", Some(vec![mac("arm64")])) {
        Resolution::Ask(p) => assert_eq!(p.default_index, 0),
        _ => panic!(),
    }
}

#[test]
fn destination_entries() {
    match destination_entry(sim("A", "iPhone", "iOS 17.2", Some("Booted"))) {
        DestinationEntry::Simulator { name, os, state, arg } => {
            assert_eq!(name, "iPhone");
            assert_eq!(os, "iOS 17.2");
            assert_eq!(state.as_deref(), Some("Booted"));
            assert_eq!(arg, "simulator:A");
        }
        _ => panic!(),
    }
    match destination_entry(device("U", "C", "P", "T")) {
        DestinationEntry::Device { name, device_type, arg } => {
            assert_eq!((name.as_str(), device_type.as_str(), arg.as_str()), ("P", "T", "device:U"));
        }
        _ => panic!(),
    }
    match destination_entry(mac("arm64")) {
        DestinationEntry::MacOS { arch, arg } => assert_eq!((arch.as_str(), arg.as_str()), ("arm64", "macos")),
        _ => panic!(),
    }
}
