use buttplug::specifier::BluetoothLEManufacturerData;
use buttplug::specifier::BluetoothLEService;
use buttplug::specifier::BluetoothLESpecifier;
use buttplug::specifier::HIDSpecifier;
use buttplug::specifier::LovenseConnectServiceSpecifier;
use buttplug::specifier::ProtocolCommunicationSpecifier;
use buttplug::specifier::SerialSpecifier;
use buttplug::specifier::USBSpecifier;
use buttplug::specifier::WebsocketSpecifier;
use buttplug::specifier::XInputSpecifier;
use buttplug::messages::Endpoint;

fn ble(names: &[&str]) -> BluetoothLESpecifier {
    BluetoothLESpecifier::new(names.iter().map(|n| n.to_string()).collect(), vec![], vec![], vec![])
}

#[test]
fn ble_names_match_exactly_or_by_wildcard() {
    assert!(ble(&["Foo"]) == ble(&["Foo"]));
    assert!(ble(&["Foo*"]) == ble(&["Foobar"]));
    assert!(ble(&["Foobar"]) == ble(&["Foo*"]));
    assert!(!(ble(&["Foo"]) == ble(&["Bar"])));
}

#[test]
fn ble_double_wildcards_match_one_way() {
    assert!(ble(&["A*"]) == ble(&["AB*"]));
    assert!(!(ble(&["AB*"]) == ble(&["A*"])));
}

#[test]
fn ble_manufacturer_data_matches_by_company_and_bytes() {
    let with = |company: u16, data: Option<Vec<u8>>| {
        BluetoothLESpecifier::new(vec![], vec![BluetoothLEManufacturerData::new(company, &data)], vec![], vec![])
    };
    assert!(with(1, Some(vec![1, 2, 3])) == with(1, Some(vec![2, 3])));
    assert!(with(1, None) == with(1, Some(vec![9])));
    assert!(!(with(1, Some(vec![1, 2])) == with(2, Some(vec![1, 2]))));
    assert!(!(with(1, Some(vec![1, 2, 3])) == with(1, Some(vec![3, 2]))));
}

#[test]
fn ble_advertised_services_match() {
    let a = BluetoothLESpecifier::new(vec![], vec![], vec![5, 6], vec![]);
    let b = BluetoothLESpecifier::new(vec![], vec![], vec![6], vec![]);
    let c = BluetoothLESpecifier::new(vec![], vec![], vec![7], vec![]);
    assert!(a == b);
    assert!(!(a == c));
}

#[test]
fn ble_merge_unions_and_replaces_services() {
    let mut a = BluetoothLESpecifier::new(
        vec!["A".to_owned()],
        vec![],
        vec![1],
        vec![BluetoothLEService { uuid: 10, characteristics: vec![(Endpoint::Tx, 100)] }],
    );
    let b = BluetoothLESpecifier::new(
        vec!["B".to_owned(), "A".to_owned()],
        vec![],
        vec![1, 2],
        vec![BluetoothLEService { uuid: 10, characteristics: vec![(Endpoint::Rx, 200)] }],
    );
    a.merge(b);
    assert_eq!(a.names().len(), 2);
    assert_eq!(a.advertised_services().len(), 2);
    assert_eq!(a.services().len(), 1);
    assert_eq!(a.services()[0].characteristics, vec![(Endpoint::Rx, 200)]);
}

#[test]
fn ble_new_keeps_later_service_description() {
    let s = BluetoothLESpecifier::new(
        vec!["X".to_owned(), "X".to_owned()],
        vec![],
        vec![3, 3],
        vec![
            BluetoothLEService { uuid: 1, characteristics: vec![(Endpoint::Tx, 1)] },
            BluetoothLEService { uuid: 1, characteristics: vec![(Endpoint::Tx, 2)] },
        ],
    );
    assert_eq!(s.names().len(), 1);
    assert_eq!(s.advertised_services(), &vec![3]);
    assert_eq!(s.services()[0].characteristics, vec![(Endpoint::Tx, 2)]);
}

#[test]
fn serial_specifiers_match_by_port() {
    let mut a = SerialSpecifier::new_from_name("COM1");
    a.set_baud_rate(9600);
    let b = SerialSpecifier::new_from_name("COM1");
    let c = SerialSpecifier::new_from_name("COM2");
    assert!(a == b);
    assert!(!(a == c));
    assert_eq!(b.baud_rate(), 0);
    assert_eq!(b.port(), "COM1");
}

#[test]
fn websocket_specifiers_match_on_shared_name() {
    let mut a = WebsocketSpecifier::new(&vec!["a".to_owned(), "b".to_owned()]);
    let b = WebsocketSpecifier::new(&vec!["b".to_owned()]);
    let c = WebsocketSpecifier::new(&vec!["c".to_owned()]);
    assert!(a == b);
    assert!(b == a);
    assert!(!(a == c));
    a.merge(c);
    assert!(a == WebsocketSpecifier::new(&vec!["c".to_owned()]));
    assert_eq!(a.names().len(), 3);
}

#[test]
fn specifiers_of_different_kinds_never_match() {
    let hid = ProtocolCommunicationSpecifier::HID(HIDSpecifier::new(1, 2));
    let usb = ProtocolCommunicationSpecifier::USB(USBSpecifier::new_from_ids(1, 2));
    assert!(!(hid == usb));
    assert!(hid == ProtocolCommunicationSpecifier::HID(HIDSpecifier::new(1, 2)));
    assert!(!(hid == ProtocolCommunicationSpecifier::HID(HIDSpecifier::new(1, 3))));
    let x1 = ProtocolCommunicationSpecifier::XInput(XInputSpecifier::default());
    let x2 = ProtocolCommunicationSpecifier::XInput(XInputSpecifier::default());
    assert!(x1 == x2);
    let l1 = ProtocolCommunicationSpecifier::LovenseConnectService(LovenseConnectServiceSpecifier::default());
    assert!(l1 == l1.clone());
    assert!(!(l1 == x1));
}

#[test]
fn hid_and_usb_setters() {
    let mut h = HIDSpecifier::new(1, 2);
    h.set_vendor_id(7);
    h.set_product_id(8);
    assert_eq!((h.vendor_id(), h.product_id()), (7, 8));
    let mut u = USBSpecifier::new_from_ids(3, 4);
    u.set_product_id(9);
    assert_eq!((u.vendor_id(), u.product_id()), (3, 9));
}
