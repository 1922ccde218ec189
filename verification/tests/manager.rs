use buttplug::configuration::DeviceConfigurationManager;
use buttplug::configuration::DeviceConfigurationManagerBuilder;
use buttplug::definitions::BaseDeviceDefinition;
use buttplug::definitions::UserDeviceCustomization;
use buttplug::definitions::UserDeviceDefinition;
use buttplug::errors::ButtplugDeviceError;
use buttplug::identifiers::BaseDeviceIdentifier;
use buttplug::identifiers::UserDeviceIdentifier;
use buttplug::manager::colliding_managers;
use buttplug::manager::start_scanning_decision;
use buttplug::manager::stop_scanning_decision;
use buttplug::manager::DeviceManagerState;
use buttplug::manager::ManagedDevice;
use buttplug::manager::ScanStart;
use buttplug::manager::ScanStop;
use buttplug::specifier::BluetoothLESpecifier;
use buttplug::specifier::ProtocolCommunicationSpecifier;

fn dcm_with(user: &[(&str, bool, bool)]) -> DeviceConfigurationManager {
    let mut builder = DeviceConfigurationManagerBuilder::default();
    let specifiers = ProtocolCommunicationSpecifier::BluetoothLE(BluetoothLESpecifier::new(
        vec!["LVS-*".to_owned()],
        vec![],
        vec![],
        vec![],
    ));
    builder
        .communication_specifier("lovense", &[specifiers])
        .protocol_features(
            &BaseDeviceIdentifier::new("lovense", &None),
            &BaseDeviceDefinition::new("Lovense Device", &[]),
        );
    for (i, (address, allow, deny)) in user.iter().enumerate() {
        builder.user_protocol_features(
            &UserDeviceIdentifier::new(address, "lovense", &None),
            &UserDeviceDefinition::new(
                "Custom",
                &[],
                &UserDeviceCustomization::new(&Some(format!("Mine {}", i)), *allow, *deny, i as u32),
            ),
        );
    }
    builder.finish(&["lovense".to_owned()])
}

fn device(address: &str, display: Option<&str>) -> ManagedDevice {
    ManagedDevice {
        identifier: UserDeviceIdentifier::new(address, "lovense", &None),
        name: "Lovense Device".to_owned(),
        display_name: display.map(|s| s.to_owned()),
    }
}

fn ble(name: &str) -> ProtocolCommunicationSpecifier {
    ProtocolCommunicationSpecifier::BluetoothLE(BluetoothLESpecifier::new_from_device(name, &[], &[]))
}

#[test]
fn test_found_device_goes_on_once() {
    let dcm = dcm_with(&[]);
    let mut state = DeviceManagerState::new();
    let first = state.device_found(&dcm, "AA:BB", &ble("LVS-Edge")).expect("protocol matches");
    assert_eq!(first.len(), 1);
    assert_eq!(first[0].protocol(), "lovense");
    assert!(state.device_found(&dcm, "AA:BB", &ble("LVS-Edge")).is_none());
    state.connection_attempt_finished("AA:BB");
    assert!(state.device_found(&dcm, "AA:BB", &ble("LVS-Edge")).is_some());
}

#[test]
fn test_found_device_without_protocol() {
    let dcm = dcm_with(&[]);
    let mut state = DeviceManagerState::new();
    assert!(state.device_found(&dcm, "AA:BB", &ble("Unknown")).is_none());
}

#[test]
fn test_found_device_denied() {
    let dcm = dcm_with(&[("AA:BB", false, true)]);
    let mut state = DeviceManagerState::new();
    assert!(state.device_found(&dcm, "AA:BB", &ble("LVS-Edge")).is_none());
    assert!(state.device_found(&dcm, "CC:DD", &ble("LVS-Edge")).is_some());
}

#[test]
fn test_found_device_allow_list() {
    let dcm = dcm_with(&[("AA:BB", true, false)]);
    let mut state = DeviceManagerState::new();
    assert!(state.device_found(&dcm, "CC:DD", &ble("LVS-Edge")).is_none());
    assert!(state.device_found(&dcm, "AA:BB", &ble("LVS-Edge")).is_some());
}

#[test]
fn test_connected_device_not_found_again() {
    let dcm = dcm_with(&[]);
    let mut state = DeviceManagerState::new();
    assert!(state.device_found(&dcm, "AA:BB", &ble("LVS-Edge")).is_some());
    state.connection_attempt_finished("AA:BB");
    let (index, evicted) = state.device_connected(&dcm, device("AA:BB", None));
    assert_eq!(index, 0);
    assert!(evicted.is_none());
    assert!(state.device_found(&dcm, "AA:BB", &ble("LVS-Edge")).is_none());
}

#[test]
fn test_connected_devices_take_user_index() {
    let dcm = dcm_with(&[("AA:BB", false, false), ("CC:DD", false, false)]);
    let mut state = DeviceManagerState::new();
    let (first, _) = state.device_connected(&dcm, device("CC:DD", Some("Mine 1")));
    assert_eq!(first, 1);
    let info = state.device_info(1).expect("connected");
    assert_eq!(info.identifier.address(), "CC:DD");
    assert_eq!(info.display_name.as_deref(), Some("Mine 1"));
}

#[test]
fn test_reconnect_evicts_previous_holder() {
    let dcm = dcm_with(&[("AA:BB", false, false)]);
    let mut state = DeviceManagerState::new();
    let (index, evicted) = state.device_connected(&dcm, device("AA:BB", None));
    assert_eq!(index, 0);
    assert!(evicted.is_none());
    let (again, evicted) = state.device_connected(&dcm, device("AA:BB", Some("second")));
    assert_eq!(again, 0);
    let evicted = evicted.expect("previous device at the index");
    assert_eq!(evicted.display_name, None);
    assert_eq!(state.device_info(0).expect("connected").display_name.as_deref(), Some("second"));
}

#[test]
fn test_disconnect_removes_device() {
    let dcm = dcm_with(&[]);
    let mut state = DeviceManagerState::new();
    let (index, _) = state.device_connected(&dcm, device("AA:BB", None));
    assert_eq!(state.device_disconnected("EE:FF"), None);
    assert_eq!(state.device_disconnected("AA:BB"), Some(index));
    assert!(matches!(state.device_info(index), Err(ButtplugDeviceError::DeviceNotAvailable(i)) if i == index));
    assert_eq!(state.device_disconnected("AA:BB"), None);
}

#[test]
fn test_device_info_missing_index() {
    let state = DeviceManagerState::new();
    assert!(matches!(state.device_info(7), Err(ButtplugDeviceError::DeviceNotAvailable(7))));
}

#[test]
fn test_scanning_finished_reported_once() {
    let mut state = DeviceManagerState::new();
    assert!(!state.scanning_finished(false));
    state.scanning_started();
    assert!(!state.scanning_finished(true));
    assert!(state.scanning_finished(false));
    assert!(!state.scanning_finished(false));
}

#[test]
fn test_scan_decisions() {
    assert_eq!(start_scanning_decision(0, false), ScanStart::NoDeviceCommManagers);
    assert_eq!(start_scanning_decision(2, true), ScanStart::AlreadyScanning);
    assert_eq!(start_scanning_decision(2, false), ScanStart::Start);
    assert_eq!(stop_scanning_decision(0, true), ScanStop::NoDeviceCommManagers);
    assert_eq!(stop_scanning_decision(1, false), ScanStop::AlreadyStopped);
    assert_eq!(stop_scanning_decision(1, true), ScanStop::Stop);
}

#[test]
fn test_colliding_managers() {
    let managers = vec![
        ("BtlePlugCommunicationManager".to_owned(), true),
        ("SerialPortCommunicationManager".to_owned(), true),
        ("LovenseHIDDongleCommunicationManager".to_owned(), false),
        ("LovenseSerialDongleCommunicationManager".to_owned(), true),
    ];
    assert_eq!(
        colliding_managers(&managers),
        vec!["BtlePlugCommunicationManager".to_owned(), "LovenseSerialDongleCommunicationManager".to_owned()]
    );
}
