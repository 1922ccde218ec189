use buttplug::definitions::UserDeviceCustomization;
use buttplug::definitions::UserDeviceDefinition;
use buttplug::message_attributes::FeatureConversionError;
use buttplug::message_attributes::ProtocolDeviceAttributes;
use buttplug::message_attributes::ServerDeviceMessageAttributes;
use buttplug::message_attributes::ServerDeviceMessageAttributesBuilder;
use buttplug::message_attributes::ServerGenericDeviceMessageAttributes;
use buttplug::messages::ActuatorType;
use buttplug::messages::ButtplugActuatorFeatureMessageType;
use buttplug::messages::ButtplugDeviceMessageType;
use buttplug::messages::ButtplugSensorFeatureMessageType;
use buttplug::messages::DeviceFeature;
use buttplug::messages::DeviceFeatureActuator;
use buttplug::messages::DeviceFeatureSensor;
use buttplug::messages::Endpoint;
use buttplug::messages::FeatureType;
use buttplug::messages::SensorRange;
use buttplug::messages::SensorType;
use buttplug::messages::StepRange;

fn generic(name: &str) -> ServerGenericDeviceMessageAttributes {
    ServerGenericDeviceMessageAttributes::new(name, ActuatorType::Vibrate, &StepRange::new(0, 20), &StepRange::new(0, 20))
}

#[test]
fn merge_prefers_child_attributes() {
    let mut parent = ServerDeviceMessageAttributesBuilder::default();
    parent.scalar_cmd(&[generic("parent")]);
    parent.rotate_cmd(&[generic("rotate")]);
    let parent = parent.finish();
    let mut child = ServerDeviceMessageAttributesBuilder::default();
    child.scalar_cmd(&[generic("child")]);
    let child = child.finish();
    let merged = parent.merge(&child);
    assert_eq!(merged.scalar_cmd().as_ref().unwrap()[0].feature_descriptor(), "child");
    assert_eq!(merged.rotate_cmd().as_ref().unwrap()[0].feature_descriptor(), "rotate");
    assert!(merged.linear_cmd().is_none());
}

#[test]
fn merge_with_empty_child_keeps_parent() {
    let mut parent = ServerDeviceMessageAttributesBuilder::default();
    parent.linear_cmd(&[generic("linear")]);
    let parent = parent.finish();
    let merged = parent.merge(&ServerDeviceMessageAttributes::default());
    assert_eq!(merged.linear_cmd().as_ref().unwrap()[0].feature_descriptor(), "linear");
    assert!(merged.scalar_cmd().is_none());
}

#[test]
fn message_allowed_follows_attributes() {
    let mut b = ServerDeviceMessageAttributesBuilder::default();
    b.scalar_cmd(&[generic("v")]);
    let attrs = b.finish();
    assert!(attrs.message_allowed(&ButtplugDeviceMessageType::ScalarCmd));
    assert!(attrs.message_allowed(&ButtplugDeviceMessageType::VibrateCmd));
    assert!(attrs.message_allowed(&ButtplugDeviceMessageType::StopDeviceCmd));
    assert!(!attrs.message_allowed(&ButtplugDeviceMessageType::RotateCmd));
    assert!(!attrs.message_allowed(&ButtplugDeviceMessageType::RawWriteCmd));
    assert!(!attrs.message_allowed(&ButtplugDeviceMessageType::LovenseCmd));
}

#[test]
fn raw_messages_are_allowed_after_adding_them() {
    let mut attrs = ServerDeviceMessageAttributes::default();
    attrs.add_raw_messages(&[Endpoint::Tx, Endpoint::Rx]);
    assert!(attrs.message_allowed(&ButtplugDeviceMessageType::RawReadCmd));
    assert!(attrs.message_allowed(&ButtplugDeviceMessageType::RawWriteCmd));
    assert!(attrs.message_allowed(&ButtplugDeviceMessageType::RawSubscribeCmd));
    assert!(attrs.message_allowed(&ButtplugDeviceMessageType::RawUnsubscribeCmd));
    assert_eq!(attrs.raw_write_cmd().as_ref().unwrap().endpoints(), &vec![Endpoint::Tx, Endpoint::Rx]);
}

#[test]
fn battery_needs_a_battery_sensor() {
    let battery = DeviceFeature::new(
        "battery",
        FeatureType::Battery,
        &None,
        &Some(DeviceFeatureSensor::new(
            &[SensorRange { start: 0, end: 100 }],
            &[ButtplugSensorFeatureMessageType::SensorReadCmd],
        )),
    );
    let attrs = ServerDeviceMessageAttributes::from_features(&[battery]);
    assert!(attrs.message_allowed(&ButtplugDeviceMessageType::BatteryLevelCmd));
    assert!(!attrs.message_allowed(&ButtplugDeviceMessageType::RSSILevelCmd));
    assert_eq!(attrs.sensor_read_cmd().as_ref().unwrap()[0].sensor_type(), SensorType::Battery);
}

#[test]
fn conversion_errors() {
    let no_actuator = DeviceFeature::new("x", FeatureType::Vibrate, &None, &None);
    assert_eq!(
        ServerGenericDeviceMessageAttributes::try_from_feature(&no_actuator).err(),
        Some(FeatureConversionError::NoActuator)
    );
    let battery_actuator = DeviceFeature::new(
        "x",
        FeatureType::Battery,
        &Some(DeviceFeatureActuator::new(
            &StepRange::new(0, 1),
            &StepRange::new(0, 1),
            &[ButtplugActuatorFeatureMessageType::ScalarCmd],
        )),
        &None,
    );
    assert_eq!(
        ServerGenericDeviceMessageAttributes::try_from_feature(&battery_actuator).err(),
        Some(FeatureConversionError::NotAnActuatorType)
    );
    assert!(ServerDeviceMessageAttributes::try_from_features(&[battery_actuator]).is_none());
}

#[test]
fn features_give_attributes_in_order() {
    let a = DeviceFeature::new(
        "one",
        FeatureType::Vibrate,
        &Some(DeviceFeatureActuator::new(
            &StepRange::new(0, 10),
            &StepRange::new(0, 10),
            &[ButtplugActuatorFeatureMessageType::ScalarCmd],
        )),
        &None,
    );
    let b = DeviceFeature::new(
        "two",
        FeatureType::Rotate,
        &Some(DeviceFeatureActuator::new(
            &StepRange::new(0, 5),
            &StepRange::new(1, 4),
            &[ButtplugActuatorFeatureMessageType::ScalarCmd, ButtplugActuatorFeatureMessageType::RotateCmd],
        )),
        &None,
    );
    let attrs = ServerDeviceMessageAttributes::try_from_features(&[a, b]).unwrap();
    let scalar = attrs.scalar_cmd().as_ref().unwrap();
    assert_eq!(scalar.len(), 2);
    assert_eq!(scalar[0].feature_descriptor(), "one");
    assert_eq!(scalar[1].feature_descriptor(), "two");
    assert_eq!(scalar[1].actuator_type(), ActuatorType::Rotate);
    assert_eq!(scalar[1].step_count(), 3);
    assert_eq!(attrs.rotate_cmd().as_ref().unwrap().len(), 1);
    assert!(attrs.linear_cmd().is_none());
    assert!(attrs.raw_read_cmd().is_none());
}

#[test]
fn protocol_attributes_take_display_name() {
    let feature = DeviceFeature::new(
        "v",
        FeatureType::Vibrate,
        &Some(DeviceFeatureActuator::new(
            &StepRange::new(0, 3),
            &StepRange::new(0, 3),
            &[ButtplugActuatorFeatureMessageType::ScalarCmd],
        )),
        &None,
    );
    let def = UserDeviceDefinition::new(
        "Toy",
        &[feature],
        &UserDeviceCustomization::new(&Some("My Toy".to_owned()), false, false, 3),
    );
    let attrs: ProtocolDeviceAttributes = def.protocol_attributes().unwrap();
    assert_eq!(attrs.name(), "Toy");
    assert_eq!(attrs.display_name(), &Some("My Toy".to_owned()));
    assert!(attrs.allows_message(&ButtplugDeviceMessageType::ScalarCmd));
    let mut attrs = attrs;
    attrs.add_raw_messages(&[Endpoint::Tx]);
    assert!(attrs.allows_message(&ButtplugDeviceMessageType::RawWriteCmd));
}

#[test]
fn raw_definition_gives_raw_access() {
    let mut def = UserDeviceDefinition::new("Toy", &[], &UserDeviceCustomization::default_with_index(0));
    def.add_raw_messages(&[Endpoint::Rx]);
    assert_eq!(def.features().len(), 1);
    let attrs = def.protocol_attributes().unwrap();
    assert_eq!(attrs.message_attributes().raw_read_cmd().as_ref().unwrap().endpoints(), &vec![Endpoint::Rx]);
}
