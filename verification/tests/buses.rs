use buttplug::btle::adapter_manufacturer;
use buttplug::btle::adapter_step;
use buttplug::btle::AdapterAction;
use buttplug::btle::AdapterEvent;
use buttplug::btle::BtlePlugCommunicationManagerBuilder;
use buttplug::btle::BtleScanState;
use buttplug::btle::BtleplugAdapterCommand;
use buttplug::btle::PeripheralInfo;
use buttplug::btle::TriedPeripherals;
use buttplug::errors::ButtplugDeviceError;
use buttplug::errors::HardwareSpecificError;
use buttplug::gamepad::battery_percentage;
use buttplug::gamepad::create_address;
use buttplug::gamepad::rumble_speeds;
use buttplug::gamepad::sdl2_battery_reading;
use buttplug::gamepad::sdl2_check_read;
use buttplug::gamepad::sdl2_rumble;
use buttplug::gamepad::xinput_battery_reading;
use buttplug::gamepad::JoystickPowerLevel;
use buttplug::gamepad::SDL2DeviceCommunicationManager;
use buttplug::gamepad::sdl2_event_action;
use buttplug::gamepad::Sdl2Action;
use buttplug::gamepad::Sdl2Event;
use buttplug::gamepad::Sdl2Joysticks;
use buttplug::gamepad::XInputControllerIndex;
use buttplug::gamepad::XInputHardwareConnector;
use buttplug::hardware::HardwareEvent;
use buttplug::hardware::HardwareReadCmd;
use buttplug::hardware::HardwareWriteCmd;
use buttplug::hid::select_hid_devices;
use buttplug::hid::HidDeviceListing;
use buttplug::lovense_connect::command_url;
use buttplug::lovense_connect::connected_toys;
use buttplug::lovense_connect::lovense_connect_host;
use buttplug::lovense_connect::toy_status;
use buttplug::lovense_connect::KnownHosts;
use buttplug::lovense_connect::LovenseServiceToyInfo;
use buttplug::lovense_connect::ToyStatus;
use buttplug::messages::Endpoint;
use buttplug::serial::find_port_definition;
use buttplug::serial::serial_device_address;
use buttplug::serial::serial_device_name;
use buttplug::serial::serial_open_error;
use buttplug::specifier::HIDSpecifier;
use buttplug::specifier::ProtocolCommunicationSpecifier;
use buttplug::specifier::SerialSpecifier;
use buttplug::text::decimal_string;
use buttplug::usb::qualified_address;
use buttplug::usb::usb_control_value;
use buttplug::usb::usb_hotplug_left_event;
use buttplug::usb::usb_write_failure_event;
use buttplug::usb::DeviceExt;
use buttplug::usb::UsbDeviceDescription;
use buttplug::websocket::websocket_device_specifier;
use buttplug::websocket::WebsocketKeepalive;
use buttplug::websocket::WebsocketLoopAction;
use buttplug::websocket::WebsocketLoopEvent;
use buttplug::websocket::WebsocketMessage;
use buttplug::websocket::WebsocketSubscription;
use buttplug::specifier::WebsocketSpecifier;

#[test]
fn rumble_speeds_are_little_endian() {
    assert_eq!(rumble_speeds(&[0x34, 0x12, 0xff, 0x00]), (0x1234, 0x00ff));
    assert_eq!(rumble_speeds(&[1, 0, 0, 1, 9]), (1, 256));
}

#[test]
fn sdl2_endpoint_checks() {
    let bad_read = HardwareReadCmd::new(Endpoint::Rx, 1, 0);
    assert!(matches!(sdl2_check_read(&bad_read), Err(ButtplugDeviceError::InvalidEndpoint(Endpoint::Rx))));
    assert!(sdl2_check_read(&HardwareReadCmd::new(Endpoint::RxBLEBattery, 1, 0)).is_ok());
    let bad_write = HardwareWriteCmd::new(Endpoint::Tx, vec![], false);
    assert!(matches!(sdl2_rumble(&bad_write), Err(ButtplugDeviceError::InvalidEndpoint(Endpoint::Tx))));
    let write = HardwareWriteCmd::new(Endpoint::TxVibrate, vec![0, 1, 2, 0], false);
    assert_eq!(sdl2_rumble(&write).unwrap(), (256, 2));
}

#[test]
fn power_levels_to_battery() {
    assert_eq!(battery_percentage(JoystickPowerLevel::Empty), Some(0));
    assert_eq!(battery_percentage(JoystickPowerLevel::Low), Some(33));
    assert_eq!(battery_percentage(JoystickPowerLevel::Medium), Some(66));
    assert_eq!(battery_percentage(JoystickPowerLevel::Full), Some(100));
    assert_eq!(battery_percentage(JoystickPowerLevel::Wired), Some(100));
    assert_eq!(battery_percentage(JoystickPowerLevel::Unknown), None);
    let r = sdl2_battery_reading(Ok(JoystickPowerLevel::Low)).unwrap();
    assert_eq!(r.endpoint(), Endpoint::Rx);
    assert_eq!(r.data(), &vec![33]);
    assert!(matches!(
        sdl2_battery_reading(Ok(JoystickPowerLevel::Unknown)),
        Err(ButtplugDeviceError::DeviceSpecificError(HardwareSpecificError::SDL2Error(m))) if m == "SDL2 couldn't read joystick battery level"
    ));
    assert!(matches!(
        sdl2_battery_reading(Err("gone".to_owned())),
        Err(ButtplugDeviceError::DeviceSpecificError(HardwareSpecificError::SDL2Error(m))) if m == "gone"
    ));
}

#[test]
fn sdl2_joysticks_register_and_remove() {
    let mut j = Sdl2Joysticks::new();
    assert!(Sdl2Joysticks::accepts_new_joystick(false, true));
    assert!(!Sdl2Joysticks::accepts_new_joystick(true, true));
    assert!(!Sdl2Joysticks::accepts_new_joystick(false, false));
    assert_eq!(j.register(12, true), Some("12".to_owned()));
    assert_eq!(j.register(13, false), None);
    assert_eq!(j.remove(13), None);
    assert_eq!(j.remove(12), Some("12".to_owned()));
    assert_eq!(j.remove(12), None);
    let mut m = SDL2DeviceCommunicationManager::new();
    assert!(!m.scanning_status());
    m.start_scanning();
    assert!(m.scanning_status());
    m.stop_scanning();
    assert!(!m.scanning_status());
    assert!(m.can_scan());
}

#[test]
fn xinput_names() {
    assert_eq!(XInputControllerIndex::XInputController1.name(), "XInputController1");
    assert_eq!(create_address(XInputControllerIndex::XInputController4), "XInputController4");
    assert_eq!(XInputControllerIndex::XInputController3.slot(), 2);
    assert_eq!(XInputControllerIndex::all().len(), 4);
    let c = XInputHardwareConnector::new(XInputControllerIndex::XInputController2);
    assert_eq!(c.index(), XInputControllerIndex::XInputController2);
    assert_eq!(c.endpoints(), vec![Endpoint::Tx, Endpoint::Rx]);
    assert!(matches!(c.specifier(), ProtocolCommunicationSpecifier::XInput(_)));
    assert_eq!(xinput_battery_reading(2).data(), &vec![2]);
}

#[test]
fn decimal_rendering() {
    assert_eq!(decimal_string(0), "0");
    assert_eq!(decimal_string(7), "7");
    assert_eq!(decimal_string(1050), "1050");
    assert_eq!(decimal_string(u64::MAX), "18446744073709551615");
}

#[test]
fn usb_naming_and_commands() {
    assert_eq!(qualified_address(3, 17), "bus 3, address 17");
    let d = UsbDeviceDescription {
        bus_number: 1,
        address: 2,
        manufacturer: Some("  Rez ".to_owned()),
        product: None,
        serial_number: Some(" 42\n".to_owned()),
    };
    assert_eq!(d.name(), "Rez ??? 42");
    assert_eq!(d.qualified_address(), "bus 1, address 2");
    let d2 = UsbDeviceDescription { bus_number: 1, address: 2, manufacturer: None, product: Some("Trance".to_owned()), serial_number: None };
    assert_eq!(d2.name(), "??? Trance");
    let w = HardwareWriteCmd::new(Endpoint::TxVendorControl, vec![7, 9], false);
    assert_eq!(usb_control_value(&w).unwrap(), 7);
    assert!(matches!(
        usb_control_value(&HardwareWriteCmd::new(Endpoint::Tx, vec![1], false)),
        Err(ButtplugDeviceError::InvalidEndpoint(Endpoint::Tx))
    ));
    assert!(matches!(usb_write_failure_event("a", true), Some(HardwareEvent::Disconnected(a)) if a == "a"));
    assert!(usb_write_failure_event("a", false).is_none());
    assert!(matches!(usb_hotplug_left_event("a", "a"), Some(HardwareEvent::Disconnected(_))));
    assert!(usb_hotplug_left_event("a", "b").is_none());
}

#[test]
fn serial_port_definitions() {
    let mut one = SerialSpecifier::new_from_name("COM3");
    one.set_baud_rate(115200);
    let specs = vec![
        ProtocolCommunicationSpecifier::HID(HIDSpecifier::new(1, 1)),
        ProtocolCommunicationSpecifier::Serial(SerialSpecifier::new_from_name("COM1")),
        ProtocolCommunicationSpecifier::Serial(one),
    ];
    assert_eq!(find_port_definition("COM3", &specs).unwrap().baud_rate(), 115200);
    assert!(find_port_definition("COM9", &specs).is_none());
    assert_eq!(serial_device_name("COM3"), "Serial Port Device COM3");
    assert_eq!(serial_device_address(None), "Default Serial Port Device (No Name Given)");
    assert_eq!(serial_device_address(Some("tty".to_owned())), "tty");
}

#[test]
fn hid_devices_announced_once_per_serial() {
    let l = |s: Option<&str>, p: Option<&str>| HidDeviceListing { serial_number: s.map(|x| x.to_owned()), product_string: p.map(|x| x.to_owned()) };
    let listing = vec![l(None, Some("x")), l(Some("1"), Some("A")), l(Some("1"), None), l(Some("2"), Some("B"))];
    let out = select_hid_devices(&listing);
    assert_eq!(out, vec![("A".to_owned(), "1".to_owned()), ("B".to_owned(), "2".to_owned())]);
}

#[test]
fn lovense_connect_hosts_and_toys() {
    assert_eq!(lovense_connect_host("192-168-1-5.lovense.club", 30010), "http://192.168.1.5:30010");
    assert_eq!(lovense_connect_host("localhost", 80), "http://localhost:80");
    let toys = vec![
        LovenseServiceToyInfo { id: "a".to_owned(), name: "Edge".to_owned(), connected: true, battery: 120 },
        LovenseServiceToyInfo { id: "b".to_owned(), name: "Hush".to_owned(), connected: false, battery: -3 },
    ];
    assert_eq!(connected_toys(&toys), vec![("Edge".to_owned(), "a".to_owned())]);
    assert_eq!(toy_status("a", Some(&toys)), ToyStatus::Battery(100));
    assert_eq!(toy_status("b", Some(&toys)), ToyStatus::Disconnected);
    assert_eq!(toy_status("c", Some(&toys)), ToyStatus::Unchanged);
    assert_eq!(toy_status("a", None), ToyStatus::Disconnected);
    assert_eq!(command_url("http://h:1", "Vibrate?v=1".as_bytes()), "http://h:1/Vibrate?v=1");
    let mut hosts = KnownHosts::new();
    assert!(hosts.is_empty());
    hosts.insert("h".to_owned());
    hosts.insert("h".to_owned());
    assert_eq!(hosts.hosts().len(), 1);
    hosts.remove("h");
    assert!(hosts.is_empty());
}

#[test]
fn websocket_keepalive() {
    let mut k = WebsocketKeepalive::new();
    let (a, stop) = k.step("addr", WebsocketLoopEvent::Tick);
    assert!(matches!(a, Some(WebsocketLoopAction::SendPing(p)) if p == vec![0]));
    assert!(!stop);
    let (a, stop) = k.step("addr", WebsocketLoopEvent::Tick);
    assert!(a.is_none());
    assert!(stop);
    let mut k = WebsocketKeepalive::new();
    k.step("addr", WebsocketLoopEvent::Tick);
    k.step("addr", WebsocketLoopEvent::Incoming(WebsocketMessage::Pong));
    let (_, stop) = k.step("addr", WebsocketLoopEvent::Tick);
    assert!(!stop);
    let (a, _) = k.step("addr", WebsocketLoopEvent::Incoming(WebsocketMessage::Text("hé".to_owned())));
    assert!(matches!(a, Some(WebsocketLoopAction::Respond(b)) if b == "hé".as_bytes().to_vec()));
    let (a, stop) = k.step("addr", WebsocketLoopEvent::Incoming(WebsocketMessage::Close));
    assert!(matches!(a, Some(WebsocketLoopAction::Disconnected(x)) if x == "addr"));
    assert!(stop);
    let (a, stop) = k.step("addr", WebsocketLoopEvent::Outgoing(vec![1, 2]));
    assert!(matches!(a, Some(WebsocketLoopAction::SendBinary(b)) if b == vec![1, 2]));
    assert!(!stop);
    assert!(k.step("addr", WebsocketLoopEvent::SendFailed).1);
}

#[test]
fn websocket_subscription() {
    let mut s = WebsocketSubscription::new();
    assert!(matches!(s.unsubscribe(), Err(ButtplugDeviceError::DeviceCommunicationError(m)) if m == "Device not subscribed."));
    assert!(s.subscribe());
    assert!(!s.subscribe());
    assert!(s.unsubscribe().is_ok());
    let spec = websocket_device_specifier("toy");
    assert!(spec == ProtocolCommunicationSpecifier::Websocket(WebsocketSpecifier::new(&vec!["toy".to_owned()])));
}

fn peripheral(name: Option<&str>, id: &str, services: Vec<u128>) -> PeripheralInfo {
    PeripheralInfo::new(name.map(|n| n.to_owned()), id.to_owned(), vec![(1, vec![1, 2])], services)
}

#[test]
fn btle_advertisements_announced_once() {
    let mut tried = TriedPeripherals::new();
    let a = adapter_step(&mut tried, AdapterEvent::Discovered(peripheral(Some("LVS-Edge"), "p1", vec![])));
    assert!(matches!(a, Some(AdapterAction::DeviceFound(n, addr)) if n == "LVS-Edge" && addr == "p1"));
    let again = adapter_step(&mut tried, AdapterEvent::Updated(peripheral(Some("LVS-Edge"), "p1", vec![])));
    assert!(again.is_none());
    let nameless = adapter_step(&mut tried, AdapterEvent::Discovered(peripheral(None, "p2", vec![])));
    assert!(nameless.is_none());
    let by_service = adapter_step(&mut tried, AdapterEvent::Discovered(peripheral(None, "p3", vec![9])));
    assert!(matches!(by_service, Some(AdapterAction::DeviceFound(n, _)) if n.is_empty()));
    adapter_step(&mut tried, AdapterEvent::Disconnected("p1".to_owned()));
    let back = adapter_step(&mut tried, AdapterEvent::Discovered(peripheral(Some("LVS-Edge"), "p1", vec![])));
    assert!(back.is_some());
    assert!(matches!(adapter_step(&mut tried, AdapterEvent::Command(BtleplugAdapterCommand::StartScanning)), Some(AdapterAction::StartScan)));
    assert!(adapter_step(&mut tried, AdapterEvent::Discovered(peripheral(Some("LVS-Edge"), "p1", vec![]))).is_some());
    assert!(matches!(adapter_step(&mut tried, AdapterEvent::CommandStreamClosed), Some(AdapterAction::Exit)));
}

#[test]
fn btle_manufacturer_data_compared_as_map() {
    let mut tried = TriedPeripherals::new();
    let a = PeripheralInfo::new(Some("X".to_owned()), "p".to_owned(), vec![(1, vec![1]), (2, vec![2])], vec![]);
    let b = PeripheralInfo::new(Some("X".to_owned()), "p".to_owned(), vec![(2, vec![2]), (1, vec![1])], vec![]);
    let c = PeripheralInfo::new(Some("X".to_owned()), "p".to_owned(), vec![(2, vec![3]), (1, vec![1])], vec![]);
    assert!(tried.maybe_add(a).is_some());
    assert!(tried.maybe_add(b).is_none());
    assert!(tried.maybe_add(c).is_some());
}

#[test]
fn btle_flags_and_builder() {
    let mut s = BtleScanState::new();
    s.adapter_search_started();
    assert!(s.can_scan());
    assert!(s.adapter_search_result(false));
    assert!(!s.adapter_search_result(false));
    assert!(!s.can_scan());
    s.start_scanning();
    assert!(s.scanning_status());
    assert!(matches!(s.start_request_failed(), ButtplugDeviceError::DeviceConnectionError(m) if m == "Cannot send start scanning request to event loop."));
    assert!(!s.scanning_status());
    let mut b = BtlePlugCommunicationManagerBuilder::default();
    b.requires_keepalive(true);
    assert!(b.require_keepalive());
    assert_eq!(adapter_manufacturer("USB\\VID_8087&PID_0029"), "Intel");
    assert_eq!(adapter_manufacturer("USB\\VID_0A12&PID_0001"), "Cambridge Silicon Radio (CSR)");
    assert_eq!(adapter_manufacturer("BTH"), "Unknown Manufacturer");
}

#[test]
fn sdl2_events_dispatched() {
    let mut j = Sdl2Joysticks::new();
    assert!(matches!(sdl2_event_action(Sdl2Event::JoystickAdded(Some((5, true))), true, true, &mut j), Sdl2Action::Nothing));
    assert!(matches!(sdl2_event_action(Sdl2Event::JoystickAdded(Some((5, true))), false, false, &mut j), Sdl2Action::Nothing));
    assert!(matches!(sdl2_event_action(Sdl2Event::JoystickAdded(None), false, true, &mut j), Sdl2Action::Nothing));
    assert!(matches!(sdl2_event_action(Sdl2Event::JoystickAdded(Some((6, false))), false, true, &mut j), Sdl2Action::Nothing));
    assert!(matches!(sdl2_event_action(Sdl2Event::JoystickAdded(Some((5, true))), false, true, &mut j), Sdl2Action::Announce(a) if a == "5"));
    assert!(matches!(sdl2_event_action(Sdl2Event::JoystickRemoved(6), false, true, &mut j), Sdl2Action::Nothing));
    assert!(matches!(sdl2_event_action(Sdl2Event::JoystickRemoved(5), false, true, &mut j), Sdl2Action::Disconnect(a) if a == "5"));
    assert!(matches!(sdl2_event_action(Sdl2Event::JoystickRemoved(5), false, true, &mut j), Sdl2Action::Nothing));
    assert!(matches!(sdl2_event_action(Sdl2Event::Other, false, true, &mut j), Sdl2Action::Nothing));
    assert!(matches!(sdl2_event_action(Sdl2Event::Quit, false, true, &mut j), Sdl2Action::Stop));
}

#[test]
fn serial_open_error_carries_message() {
    assert!(matches!(
        serial_open_error("No such file".to_owned()),
        ButtplugDeviceError::DeviceSpecificError(HardwareSpecificError::SerialError(m)) if m == "No such file"
    ));
}

#[test]
fn hid_specifiers_equal_by_ids() {
    assert!(HIDSpecifier::new(0x1915, 0x520a) == HIDSpecifier::new(0x1915, 0x520a));
    assert!(HIDSpecifier::new(0x1915, 0x520a) != HIDSpecifier::new(0x520a, 0x1915));
}

#[test]
fn usb_name_trims_unicode_white_space() {
    let d = UsbDeviceDescription {
        bus_number: 1,
        address: 2,
        manufacturer: Some("\u{3000}\tRez\u{a0}".to_owned()),
        product: Some("\u{2028}Trance\u{85}".to_owned()),
        serial_number: Some("\u{200b}7".to_owned()),
    };
    assert_eq!(d.name(), "Rez Trance \u{200b}7");
}

#[test]
fn btle_announced_at_most_once_between_forgetting() {
    let mut tried = TriedPeripherals::new();
    let mut found = 0;
    let events = vec![
        AdapterEvent::Discovered(peripheral(Some("LVS-Edge"), "p1", vec![])),
        AdapterEvent::Other,
        AdapterEvent::Updated(peripheral(Some("LVS-Edge"), "p1", vec![])),
        AdapterEvent::Disconnected("p2".to_owned()),
        AdapterEvent::Command(BtleplugAdapterCommand::StopScanning),
        AdapterEvent::Discovered(peripheral(Some("LVS-Edge"), "p1", vec![])),
    ];
    for e in events {
        if let Some(AdapterAction::DeviceFound(_, a)) = adapter_step(&mut tried, e) {
            if a == "p1" {
                found += 1;
            }
        }
    }
    assert_eq!(found, 1);
}
