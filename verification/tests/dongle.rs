use buttplug::dongle::dongle_device_endpoints;
use buttplug::dongle::dongle_device_specifier;
use buttplug::dongle::dongle_notification;
use buttplug::dongle::dongle_write_message;
use buttplug::dongle::frame_line;
use buttplug::dongle::hid_accumulate;
use buttplug::dongle::hid_reports;
use buttplug::dongle::is_lovense_serial_dongle;
use buttplug::dongle::serial_accumulate;
use buttplug::dongle::step_would_fail;
use buttplug::dongle::transition;
use buttplug::dongle::DongleAction;
use buttplug::dongle::DongleEvent;
use buttplug::dongle::LovenseDongleManagerFlags;
use buttplug::dongle::LovenseDongleState;
use buttplug::dongle_messages::LovenseDeviceCommand;
use buttplug::dongle_messages::LovenseDongleIncomingData;
use buttplug::dongle_messages::LovenseDongleIncomingMessage;
use buttplug::dongle_messages::LovenseDongleMessageFunc;
use buttplug::dongle_messages::LovenseDongleMessageType;
use buttplug::dongle_messages::LovenseDongleOutgoingMessage;
use buttplug::dongle_messages::LovenseDongleResultCode;
use buttplug::dongle_messages::OutgoingLovenseData;
use buttplug::hardware::HardwareEvent;
use buttplug::messages::Endpoint;
use buttplug::specifier::BluetoothLESpecifier;
use buttplug::specifier::ProtocolCommunicationSpecifier;

fn incoming(func: LovenseDongleMessageFunc, result: Option<LovenseDongleResultCode>, data: Option<LovenseDongleIncomingData>) -> LovenseDongleIncomingMessage {
    LovenseDongleIncomingMessage {
        message_type: LovenseDongleMessageType::Toy,
        func,
        id: None,
        command: None,
        eager: None,
        result,
        data,
        message: None,
    }
}

fn status(id: Option<&str>, status: LovenseDongleResultCode) -> LovenseDongleIncomingMessage {
    incoming(
        LovenseDongleMessageFunc::IncomingStatus,
        None,
        Some(LovenseDongleIncomingData { id: id.map(|s| s.to_owned()), data: None, status: Some(status) }),
    )
}

fn is_send(a: &DongleAction, t: LovenseDongleMessageType, f: LovenseDongleMessageFunc) -> bool {
    matches!(a, DongleAction::Send(OutgoingLovenseData::Message(m)) if m.message_type == t && m.func == f && m.id.is_none())
}

#[test]
fn scanning_requested_before_dongle_is_remembered() {
    let (s, a) = transition(
        LovenseDongleState::WaitForDongle { should_scan: false },
        DongleEvent::Command(LovenseDeviceCommand::StartScanning),
    );
    assert!(matches!(s, LovenseDongleState::WaitForDongle { should_scan: true }));
    assert!(matches!(a[..], [DongleAction::SetScanning(true)]));
    let (s, a) = transition(s, DongleEvent::Command(LovenseDeviceCommand::DongleFound));
    assert!(matches!(s, LovenseDongleState::CheckForAlreadyConnected { should_scan: true }));
    assert_eq!(a.len(), 1);
    assert!(is_send(&a[0], LovenseDongleMessageType::Toy, LovenseDongleMessageFunc::Statuss));
    let (s, a) = transition(s, DongleEvent::Timeout);
    assert!(matches!(s, LovenseDongleState::Scanning));
    assert!(matches!(a[0], DongleAction::SetScanning(true)));
    assert!(is_send(&a[1], LovenseDongleMessageType::Toy, LovenseDongleMessageFunc::Search));
}

#[test]
fn stop_before_dongle_reports_scanning_finished() {
    let (s, a) = transition(
        LovenseDongleState::WaitForDongle { should_scan: true },
        DongleEvent::Command(LovenseDeviceCommand::StopScanning),
    );
    assert!(matches!(s, LovenseDongleState::WaitForDongle { should_scan: false }));
    assert!(matches!(a[..], [DongleAction::SetScanning(false), DongleAction::ScanningFinished]));
}

#[test]
fn already_connected_toy_goes_to_device_loop() {
    let (s, a) = transition(
        LovenseDongleState::CheckForAlreadyConnected { should_scan: false },
        DongleEvent::Dongle(status(Some("toy1"), LovenseDongleResultCode::DeviceConnectSuccess)),
    );
    assert!(matches!(&s, LovenseDongleState::DeviceLoop { device_id } if device_id == "toy1"));
    assert!(matches!(&a[..], [DongleAction::DeviceFound(id)] if id == "toy1"));
}

#[test]
fn no_toy_and_no_scan_idles() {
    let (s, a) = transition(LovenseDongleState::CheckForAlreadyConnected { should_scan: false }, DongleEvent::Disconnect);
    assert!(matches!(s, LovenseDongleState::Idle));
    assert!(a.is_empty());
}

#[test]
fn scanning_toy_data_connects_after_search_stops() {
    let toy = incoming(
        LovenseDongleMessageFunc::ToyData,
        None,
        Some(LovenseDongleIncomingData { id: Some("t".to_owned()), data: None, status: None }),
    );
    let (s, a) = transition(LovenseDongleState::Scanning, DongleEvent::Dongle(toy));
    assert!(matches!(&s, LovenseDongleState::StopScanningAndConnect { device_id } if device_id == "t"));
    assert!(is_send(&a[0], LovenseDongleMessageType::Usb, LovenseDongleMessageFunc::StopSearch));
    let (s, a) = transition(
        s,
        DongleEvent::Dongle(incoming(LovenseDongleMessageFunc::Search, Some(LovenseDongleResultCode::SearchStopped), None)),
    );
    assert!(matches!(&s, LovenseDongleState::DeviceLoop { device_id } if device_id == "t"));
    assert!(matches!(&a[..], [DongleAction::SetScanning(false), DongleAction::ScanningFinished, DongleAction::DeviceFound(id)] if id == "t"));
}

#[test]
fn scanning_restarts_when_dongle_stops_searching() {
    let (s, a) = transition(
        LovenseDongleState::Scanning,
        DongleEvent::Dongle(incoming(LovenseDongleMessageFunc::Search, Some(LovenseDongleResultCode::SearchStopped), None)),
    );
    assert!(matches!(s, LovenseDongleState::Scanning));
    assert_eq!(a.len(), 2);
}

#[test]
fn stop_scanning_from_idle_and_scanning() {
    for start in [LovenseDongleState::Idle, LovenseDongleState::Scanning] {
        let (s, a) = transition(start, DongleEvent::Command(LovenseDeviceCommand::StopScanning));
        assert!(matches!(s, LovenseDongleState::Idle));
        assert!(is_send(&a[0], LovenseDongleMessageType::Usb, LovenseDongleMessageFunc::StopSearch));
        assert!(matches!(a[1..], [DongleAction::SetScanning(false), DongleAction::ScanningFinished]));
    }
}

#[test]
fn device_loop_relays_both_ways() {
    let st = || LovenseDongleState::DeviceLoop { device_id: "t".to_owned() };
    let (s, a) = transition(st(), DongleEvent::Device(OutgoingLovenseData::Raw("Vibrate:5;".to_owned())));
    assert!(matches!(s, LovenseDongleState::DeviceLoop { .. }));
    assert!(matches!(&a[..], [DongleAction::Send(OutgoingLovenseData::Raw(r))] if r == "Vibrate:5;"));
    let (_, a) = transition(st(), DongleEvent::Dongle(incoming(LovenseDongleMessageFunc::Command, None, None)));
    assert!(matches!(a[..], [DongleAction::Forward(_)]));
    let (s, a) = transition(st(), DongleEvent::Dongle(status(Some("t"), LovenseDongleResultCode::DeviceDisconnected)));
    assert!(matches!(s, LovenseDongleState::Idle));
    assert!(a.is_empty());
    let (s, a) = transition(st(), DongleEvent::Command(LovenseDeviceCommand::StartScanning));
    assert!(matches!(s, LovenseDongleState::DeviceLoop { .. }));
    assert!(matches!(a[..], [DongleAction::SetScanning(false), DongleAction::ScanningFinished]));
}

#[test]
fn disconnect_returns_to_waiting() {
    let (s, a) = transition(LovenseDongleState::Scanning, DongleEvent::Disconnect);
    assert!(matches!(s, LovenseDongleState::WaitForDongle { should_scan: false }));
    assert!(matches!(a.last(), Some(DongleAction::SetScanning(false))));
    let (s, a) = transition(LovenseDongleState::WaitForDongle { should_scan: true }, DongleEvent::Disconnect);
    assert!(matches!(s, LovenseDongleState::Ended));
    assert!(a.is_empty());
    let (s, a) = transition(LovenseDongleState::Ended, DongleEvent::Command(LovenseDeviceCommand::StartScanning));
    assert!(matches!(s, LovenseDongleState::Ended));
    assert!(a.is_empty());
}

#[test]
fn connect_report_without_id_cannot_be_handled() {
    let bad = DongleEvent::Dongle(status(None, LovenseDongleResultCode::DeviceConnectSuccess));
    assert!(step_would_fail(&LovenseDongleState::Idle, &bad));
    assert!(!step_would_fail(&LovenseDongleState::CheckForAlreadyConnected { should_scan: false }, &bad));
}

#[test]
fn result_codes_round_trip() {
    assert_eq!(LovenseDongleResultCode::DeviceConnectSuccess.code(), 202);
    assert_eq!(LovenseDongleResultCode::from_code(206), Some(LovenseDongleResultCode::SearchStopped));
    assert_eq!(LovenseDongleResultCode::from_code(999), None);
    for c in [LovenseDongleResultCode::DongleInitialized, LovenseDongleResultCode::DongleScanningInterruption] {
        assert_eq!(LovenseDongleResultCode::from_code(c.code()), Some(c));
    }
}

#[test]
fn lines_and_hid_reports() {
    assert_eq!(frame_line(b"ab"), b"ab\r\n".to_vec());
    let line: Vec<u8> = (0..70u8).collect();
    let reports = hid_reports(&line);
    assert_eq!(reports.len(), 2);
    assert_eq!(reports[0].len(), 65);
    assert_eq!(reports[0][0], 0);
    assert_eq!(&reports[0][1..64], &line[0..63]);
    assert_eq!(reports[0][64], 0);
    assert_eq!(&reports[1][1..8], &line[63..70]);
    assert!(reports[1][8..].iter().all(|b| *b == 0));
    assert!(hid_reports(&[]).is_empty());
}

#[test]
fn hid_reads_give_first_line() {
    let mut buf = Vec::new();
    assert_eq!(hid_accumulate(&mut buf, b"{\"a\"0"), None);
    assert_eq!(buf, b"{\"a\"".to_vec());
    assert_eq!(hid_accumulate(&mut buf, b":1}\nrest0"), Some(b"{\"a\":1}".to_vec()));
    assert!(buf.is_empty());
    assert_eq!(hid_accumulate(&mut buf, b""), None);
}

#[test]
fn serial_reads_give_whole_buffer() {
    let mut buf = Vec::new();
    assert_eq!(serial_accumulate(&mut buf, b"{}"), None);
    assert_eq!(serial_accumulate(&mut buf, b"\n{}"), Some(b"{}\n{}".to_vec()));
    assert!(buf.is_empty());
}

#[test]
fn dongle_ids() {
    assert!(is_lovense_serial_dongle(0x1a86, 0x7523));
    assert!(!is_lovense_serial_dongle(0x1a86, 0x7524));
}

#[test]
fn dongle_device_facts() {
    assert_eq!(dongle_device_endpoints(), vec![Endpoint::Rx, Endpoint::Tx]);
    let spec = dongle_device_specifier();
    let lovense = ProtocolCommunicationSpecifier::BluetoothLE(BluetoothLESpecifier::new(
        vec!["LVS-*".to_owned()],
        vec![],
        vec![],
        vec![],
    ));
    assert!(lovense == spec);
}

#[test]
fn dongle_writes_and_notifications() {
    let m: LovenseDongleOutgoingMessage = dongle_write_message("toy", "Vibrate:3;".as_bytes());
    assert_eq!(m.func, LovenseDongleMessageFunc::Command);
    assert_eq!(m.message_type, LovenseDongleMessageType::Toy);
    assert_eq!(m.id, Some("toy".to_owned()));
    assert_eq!(m.command, Some("Vibrate:3;".to_owned()));
    let data = incoming(
        LovenseDongleMessageFunc::ToyData,
        None,
        Some(LovenseDongleIncomingData { id: None, data: Some("Battery:9".to_owned()), status: None }),
    );
    match dongle_notification("toy", &data) {
        Some(HardwareEvent::Notification(a, e, bytes)) => {
            assert_eq!(a, "toy");
            assert_eq!(e, Endpoint::Rx);
            assert_eq!(bytes, b"Battery:9".to_vec());
        }
        _ => panic!("expected a notification"),
    }
    assert!(dongle_notification("toy", &incoming(LovenseDongleMessageFunc::Search, None, None)).is_none());
}

#[test]
fn manager_flags_follow_machine() {
    let mut f = LovenseDongleManagerFlags::new();
    assert!(!f.can_scan());
    assert_eq!(f.dongle_found(), LovenseDeviceCommand::DongleFound);
    assert!(f.can_scan());
    assert_eq!(f.start_scanning_serial(), LovenseDeviceCommand::StartScanning);
    assert!(!f.scanning_status());
    f.apply(&DongleAction::SetScanning(true));
    assert!(f.scanning_status());
    f.apply(&DongleAction::SetScanning(false));
    assert_eq!(f.start_scanning(), LovenseDeviceCommand::StartScanning);
    assert!(f.scanning_status());
    f.apply(&DongleAction::SetScanning(false));
    assert!(!f.scanning_status());
    f.apply(&DongleAction::ScanningFinished);
    assert!(!f.scanning_status());
}
