use buttplug::configuration::DeviceConfigurationManager;
use buttplug::configuration::DeviceConfigurationManagerBuilder;
use buttplug::definitions::BaseDeviceDefinition;
use buttplug::identifiers::BaseDeviceIdentifier;
use buttplug::identifiers::UserDeviceIdentifier;
use buttplug::message_attributes::ServerGenericDeviceMessageAttributes;
use buttplug::messages::ButtplugActuatorFeatureMessageType;
use buttplug::messages::DeviceFeature;
use buttplug::messages::DeviceFeatureActuator;
use buttplug::messages::FeatureType;
use buttplug::messages::StepRange;
use buttplug::specifier::BluetoothLESpecifier;
use buttplug::specifier::ProtocolCommunicationSpecifier;

fn vibrator(name: &str, start: u32, end: u32) -> DeviceFeature {
    DeviceFeature::new(
        name,
        FeatureType::Vibrate,
        &Some(DeviceFeatureActuator::new(
            &StepRange::new(start, end),
            &StepRange::new(start, end),
            &[ButtplugActuatorFeatureMessageType::ScalarCmd],
        )),
        &None,
    )
}

fn create_unit_test_dcm(allow_raw_messages: bool) -> DeviceConfigurationManager {
    let mut builder = DeviceConfigurationManagerBuilder::default();
    let specifiers = ProtocolCommunicationSpecifier::BluetoothLE(BluetoothLESpecifier::new(
        vec!["LVS-*".to_owned(), "LovenseDummyTestName".to_owned()],
        vec![],
        vec![],
        vec![],
    ));
    builder
        .allow_raw_messages(allow_raw_messages)
        .communication_specifier("lovense", &[specifiers])
        .protocol_features(
            &BaseDeviceIdentifier::new("lovense", &Some("P".to_owned())),
            &BaseDeviceDefinition::new(
                "Lovense Edge",
                &[vibrator("Edge Vibration 1", 0, 20), vibrator("Edge Vibration 2", 0, 20)],
            ),
        );
    builder.finish(&["lovense".to_owned()])
}

fn device_spec(name: &str) -> ProtocolCommunicationSpecifier {
    ProtocolCommunicationSpecifier::BluetoothLE(BluetoothLESpecifier::new_from_device(name, &[], &[]))
}

#[test]
fn test_config_equals() {
    let config = create_unit_test_dcm(false);
    let spec = device_spec("LovenseDummyTestName");
    assert!(!config.protocol_specializers(&spec).is_empty());
}

#[test]
fn test_config_wildcard_equals() {
    let config = create_unit_test_dcm(false);
    let spec = device_spec("LVS-Whatever");
    assert!(!config.protocol_specializers(&spec).is_empty());
}

#[test]
fn test_specific_device_config_creation() {
    let mut dcm = create_unit_test_dcm(false);
    let spec = device_spec("LVS-Whatever");
    assert!(!dcm.protocol_specializers(&spec).is_empty());
    let config = dcm
        .device_definition(&UserDeviceIdentifier::new("Whatever", "lovense", &Some("P".to_owned())), &[])
        .expect("Should be found")
        .protocol_attributes()
        .expect("Should be found");
    assert_eq!(config.name(), "Lovense Edge");
    assert_eq!(
        config
            .message_attributes()
            .scalar_cmd()
            .as_ref()
            .expect("Test, assuming infallible")
            .get(0)
            .expect("Test, assuming infallible")
            .step_count(),
        20
    );
}

#[test]
fn test_raw_device_config_creation() {
    let mut dcm = create_unit_test_dcm(true);
    let spec = device_spec("LVS-Whatever");
    assert!(!dcm.protocol_specializers(&spec).is_empty());
    let config = dcm
        .device_definition(&UserDeviceIdentifier::new("Whatever", "lovense", &Some("P".to_owned())), &[])
        .expect("Should be found")
        .protocol_attributes()
        .expect("Should be found");
    assert_eq!(config.name(), "Lovense Edge");
    assert!(config.message_attributes().raw_read_cmd().is_some());
    assert!(config.message_attributes().raw_write_cmd().is_some());
    assert!(config.message_attributes().raw_subscribe_cmd().is_some());
    assert!(config.message_attributes().raw_unsubscribe_cmd().is_some());
}

#[test]
fn test_non_raw_device_config_creation() {
    let mut dcm = create_unit_test_dcm(false);
    let spec = device_spec("LVS-Whatever");
    assert!(!dcm.protocol_specializers(&spec).is_empty());
    let config = dcm
        .device_definition(&UserDeviceIdentifier::new("Whatever", "lovense", &Some("P".to_owned())), &[])
        .expect("Should be found")
        .protocol_attributes()
        .expect("Should be found");
    assert_eq!(config.name(), "Lovense Edge");
    assert!(config.message_attributes().raw_read_cmd().is_none());
    assert!(config.message_attributes().raw_write_cmd().is_none());
    assert!(config.message_attributes().raw_subscribe_cmd().is_none());
    assert!(config.message_attributes().raw_unsubscribe_cmd().is_none());
}

#[test]
fn test_step_count_calculation() {
    let device_feature = vibrator("test", 0, 10);
    let vibrate_attributes = ServerGenericDeviceMessageAttributes::try_from_feature(&device_feature).unwrap();
    assert_eq!(vibrate_attributes.step_count(), 10);

    let device_feature_2 = DeviceFeature::new(
        "test",
        FeatureType::Vibrate,
        &Some(DeviceFeatureActuator::new(
            &StepRange::new(0, 10),
            &StepRange::new(3, 7),
            &[ButtplugActuatorFeatureMessageType::ScalarCmd],
        )),
        &None,
    );
    let vibrate_attributes_2 = ServerGenericDeviceMessageAttributes::try_from_feature(&device_feature_2).unwrap();
    assert_eq!(vibrate_attributes_2.step_count(), 4);
}

#[test]
fn unknown_protocol_matches_nothing() {
    let mut builder = DeviceConfigurationManagerBuilder::default();
    let spec = ProtocolCommunicationSpecifier::BluetoothLE(BluetoothLESpecifier::new(
        vec!["LVS-*".to_owned()],
        vec![],
        vec![],
        vec![],
    ));
    builder.communication_specifier("lovense", &[spec]);
    builder.skip_default_protocols();
    let dcm = builder.finish(&["lovense".to_owned()]);
    assert!(dcm.protocol_specializers(&device_spec("LVS-Whatever")).is_empty());
}

#[test]
fn device_keeps_its_index_and_new_devices_fill_gaps() {
    let mut dcm = create_unit_test_dcm(false);
    let a = UserDeviceIdentifier::new("A", "lovense", &Some("P".to_owned()));
    let b = UserDeviceIdentifier::new("B", "lovense", &Some("P".to_owned()));
    let da = dcm.device_definition(&a, &[]).unwrap();
    let db = dcm.device_definition(&b, &[]).unwrap();
    assert_eq!(da.user_config().index(), 0);
    assert_eq!(db.user_config().index(), 1);
    let da2 = dcm.device_definition(&a, &[]).unwrap();
    assert_eq!(da2.user_config().index(), 0);
    assert_eq!(dcm.user_device_definitions().len(), 2);
}

#[test]
fn unknown_model_falls_back_to_default_model() {
    let mut builder = DeviceConfigurationManagerBuilder::default();
    builder.protocol_features(
        &BaseDeviceIdentifier::new("lovense", &None),
        &BaseDeviceDefinition::new("Lovense Device", &[vibrator("v", 0, 5)]),
    );
    let mut dcm = builder.finish(&["lovense".to_owned()]);
    let id = UserDeviceIdentifier::new("addr", "lovense", &Some("Z".to_owned()));
    let def = dcm.device_definition(&id, &[]).unwrap();
    assert_eq!(def.name(), "Lovense Device");
    let none = dcm.device_definition(&UserDeviceIdentifier::new("x", "other", &None), &[]);
    assert!(none.is_none());
}

#[test]
fn definitions_of_unknown_protocols_are_dropped() {
    let mut builder = DeviceConfigurationManagerBuilder::default();
    builder.protocol_features(
        &BaseDeviceIdentifier::new("nope", &None),
        &BaseDeviceDefinition::new("Nope", &[vibrator("v", 0, 5)]),
    );
    let mut dcm = builder.finish(&["lovense".to_owned()]);
    assert!(dcm.device_definition(&UserDeviceIdentifier::new("x", "nope", &None), &[]).is_none());
}

#[test]
fn user_specifiers_extend_and_match_first() {
    let mut builder = DeviceConfigurationManagerBuilder::default();
    let base = ProtocolCommunicationSpecifier::BluetoothLE(BluetoothLESpecifier::new(
        vec!["LVS-*".to_owned()],
        vec![],
        vec![],
        vec![],
    ));
    let user_a = ProtocolCommunicationSpecifier::BluetoothLE(BluetoothLESpecifier::new(
        vec!["Mine".to_owned()],
        vec![],
        vec![],
        vec![],
    ));
    let user_b = ProtocolCommunicationSpecifier::BluetoothLE(BluetoothLESpecifier::new(
        vec!["Other".to_owned()],
        vec![],
        vec![],
        vec![],
    ));
    builder
        .communication_specifier("lovense", &[base])
        .user_communication_specifier("lovense", &[user_a])
        .user_communication_specifier("lovense", &[user_b])
        .user_communication_specifier("unknown", &[]);
    let dcm = builder.finish(&["lovense".to_owned()]);
    let held = dcm.user_communication_specifiers();
    assert_eq!(held.len(), 2);
    assert_eq!(held.get("lovense").expect("listed").value().len(), 2);
    let found = dcm.protocol_specializers(&device_spec("Other"));
    assert_eq!(found.len(), 1);
    assert_eq!(found[0].protocol(), "lovense");
    assert_eq!(found[0].specifiers().len(), 2);
    let both = dcm.protocol_specializers(&device_spec("LVS-Mine"));
    assert_eq!(both.len(), 1);
    assert_eq!(both[0].specifiers().len(), 1);
}
