//! Message-level vocabulary shared by device configuration and hardware communication:
//! endpoints, message kinds, feature descriptions and their attributes.
use vstd::prelude::*;

verus! {

/// Named communication endpoints of a piece of hardware.
#[derive(Clone, Copy, Debug, PartialEq, Eq, Hash, Structural)]
pub enum Endpoint {
    Command,
    Firmware,
    Rx,
    RxAccel,
    RxBLEBattery,
    RxBLEModel,
    RxPressure,
    RxTouch,
    Tx,
    TxMode,
    TxShock,
    TxVibrate,
    TxVendorControl,
    Whitelist,
}

/// Every kind of device message a client can send to a device.
#[derive(Clone, Copy, Debug, PartialEq, Eq, Hash, Structural)]
pub enum ButtplugDeviceMessageType {
    VibrateCmd,
    LinearCmd,
    RotateCmd,
    StopDeviceCmd,
    RawWriteCmd,
    RawReadCmd,
    RawSubscribeCmd,
    RawUnsubscribeCmd,
    BatteryLevelCmd,
    RSSILevelCmd,
    ScalarCmd,
    SensorReadCmd,
    SensorSubscribeCmd,
    SensorUnsubscribeCmd,
    FleshlightLaunchFW12Cmd,
    LovenseCmd,
    KiirooCmd,
    VorzeA10CycloneCmd,
    SingleMotorVibrateCmd,
}

/// Kinds of sensors a device feature can expose.
#[derive(Clone, Copy, Debug, PartialEq, Eq, Hash, Structural)]
pub enum SensorType {
    Unknown,
    Battery,
    RSSI,
    Button,
    Pressure,
}

/// Kinds of actuators a device feature can drive.
#[derive(Clone, Copy, Debug, PartialEq, Eq, Hash, Structural)]
pub enum ActuatorType {
    Unknown,
    Vibrate,
    Rotate,
    Oscillate,
    Constrict,
    Inflate,
    Position,
}

/// Type of a device feature, covering actuators, sensors and raw access.
#[derive(Clone, Copy, Debug, PartialEq, Eq, Hash, Structural)]
pub enum FeatureType {
    Unknown,
    Vibrate,
    Rotate,
    Oscillate,
    Constrict,
    Inflate,
    Position,
    Battery,
    RSSI,
    Button,
    Pressure,
    Raw,
}

/// Message families an actuator feature may accept.
#[derive(Clone, Copy, Debug, PartialEq, Eq, Hash, Structural)]
pub enum ButtplugActuatorFeatureMessageType {
    ScalarCmd,
    RotateCmd,
    LinearCmd,
}

/// Message families a sensor feature may accept.
#[derive(Clone, Copy, Debug, PartialEq, Eq, Hash, Structural)]
pub enum ButtplugSensorFeatureMessageType {
    SensorReadCmd,
    SensorSubscribeCmd,
}

/// The actuator type that a feature type denotes, if it denotes one.
pub open spec fn spec_actuator_type(ft: FeatureType) -> Option<ActuatorType> {
    match ft {
        FeatureType::Unknown => Some(ActuatorType::Unknown),
        FeatureType::Vibrate => Some(ActuatorType::Vibrate),
        FeatureType::Rotate => Some(ActuatorType::Rotate),
        FeatureType::Oscillate => Some(ActuatorType::Oscillate),
        FeatureType::Constrict => Some(ActuatorType::Constrict),
        FeatureType::Inflate => Some(ActuatorType::Inflate),
        FeatureType::Position => Some(ActuatorType::Position),
        _ => None,
    }
}

/// The sensor type that a feature type denotes, if it denotes one.
pub open spec fn spec_sensor_type(ft: FeatureType) -> Option<SensorType> {
    match ft {
        FeatureType::Unknown => Some(SensorType::Unknown),
        FeatureType::Battery => Some(SensorType::Battery),
        FeatureType::RSSI => Some(SensorType::RSSI),
        FeatureType::Button => Some(SensorType::Button),
        FeatureType::Pressure => Some(SensorType::Pressure),
        _ => None,
    }
}

/// The name of a feature type, as written in device configurations.
pub open spec fn feature_type_name(ft: FeatureType) -> Seq<char> {
    match ft {
        FeatureType::Unknown => "Unknown"@,
        FeatureType::Vibrate => "Vibrate"@,
        FeatureType::Rotate => "Rotate"@,
        FeatureType::Oscillate => "Oscillate"@,
        FeatureType::Constrict => "Constrict"@,
        FeatureType::Inflate => "Inflate"@,
        FeatureType::Position => "Position"@,
        FeatureType::Battery => "Battery"@,
        FeatureType::RSSI => "RSSI"@,
        FeatureType::Button => "Button"@,
        FeatureType::Pressure => "Pressure"@,
        FeatureType::Raw => "Raw"@,
    }
}

/// The name of an actuator type, as written in device messages.
pub open spec fn actuator_type_name(t: ActuatorType) -> Seq<char> {
    match t {
        ActuatorType::Unknown => "Unknown"@,
        ActuatorType::Vibrate => "Vibrate"@,
        ActuatorType::Rotate => "Rotate"@,
        ActuatorType::Oscillate => "Oscillate"@,
        ActuatorType::Constrict => "Constrict"@,
        ActuatorType::Inflate => "Inflate"@,
        ActuatorType::Position => "Position"@,
    }
}

/// Whether a feature type is one of the kinds of actuator.
pub open spec fn is_actuator_kind(ft: FeatureType) -> bool {
    ||| ft == FeatureType::Unknown
    ||| ft == FeatureType::Vibrate
    ||| ft == FeatureType::Rotate
    ||| ft == FeatureType::Oscillate
    ||| ft == FeatureType::Constrict
    ||| ft == FeatureType::Inflate
    ||| ft == FeatureType::Position
}

/// A feature type denotes an actuator type exactly when it is a kind of actuator, and then the
/// actuator type of the same name: an oscillating feature is an oscillating actuator.
pub proof fn lemma_actuator_type_keeps_name(ft: FeatureType)
    ensures
        is_actuator_kind(ft) <==> spec_actuator_type(ft) is Some,
        spec_actuator_type(ft) is Some ==> actuator_type_name(spec_actuator_type(ft)->Some_0)
            == feature_type_name(ft),
{
}

/// Converts a feature type to the actuator type it denotes.
pub fn actuator_type_of(ft: FeatureType) -> (r: Option<ActuatorType>)
    ensures
        r == spec_actuator_type(ft),
{
    match ft {
        FeatureType::Unknown => Some(ActuatorType::Unknown),
        FeatureType::Vibrate => Some(ActuatorType::Vibrate),
        FeatureType::Rotate => Some(ActuatorType::Rotate),
        FeatureType::Oscillate => Some(ActuatorType::Oscillate),
        FeatureType::Constrict => Some(ActuatorType::Constrict),
        FeatureType::Inflate => Some(ActuatorType::Inflate),
        FeatureType::Position => Some(ActuatorType::Position),
        _ => None,
    }
}

/// Converts a feature type to the sensor type it denotes.
pub fn sensor_type_of(ft: FeatureType) -> (r: Option<SensorType>)
    ensures
        r == spec_sensor_type(ft),
{
    match ft {
        FeatureType::Unknown => Some(SensorType::Unknown),
        FeatureType::Battery => Some(SensorType::Battery),
        FeatureType::RSSI => Some(SensorType::RSSI),
        FeatureType::Button => Some(SensorType::Button),
        FeatureType::Pressure => Some(SensorType::Pressure),
        _ => None,
    }
}

/// Inclusive range of steps `start..=end`.
#[derive(Clone, Copy, Debug, PartialEq, Eq, Structural)]
pub struct StepRange {
    pub start: u32,
    pub end: u32,
}

impl StepRange {
    pub fn new(start: u32, end: u32) -> (r: Self)
        ensures
            r.start == start,
            r.end == end,
    {
        StepRange { start, end }
    }
}

/// Inclusive range `start..=end` of values a sensor reports.
#[derive(Clone, Copy, Debug, PartialEq, Eq, Structural)]
pub struct SensorRange {
    pub start: i32,
    pub end: i32,
}

/// Attributes of a message that takes no parameters.
#[derive(Clone, Copy, Debug, Default, PartialEq, Eq, Structural)]
pub struct NullDeviceMessageAttributes {}

/// Copies a slice of endpoints into a new vector.
pub fn endpoint_vec(endpoints: &[Endpoint]) -> (v: Vec<Endpoint>)
    ensures
        v@ == endpoints@,
{
    let mut v: Vec<Endpoint> = Vec::new();
    let mut i: usize = 0;
    while i < endpoints.len()
        invariant
            i <= endpoints@.len(),
            v@ == endpoints@.subrange(0, i as int),
        decreases endpoints@.len() - i,
    {
        v.push(endpoints[i]);
        i = i + 1;
    }
    assert(v@ =~= endpoints@);
    v
}

/// Copies a slice of sensor ranges into a new vector.
pub fn sensor_range_vec(ranges: &[SensorRange]) -> (v: Vec<SensorRange>)
    ensures
        v@ == ranges@,
{
    let mut v: Vec<SensorRange> = Vec::new();
    let mut i: usize = 0;
    while i < ranges.len()
        invariant
            i <= ranges@.len(),
            v@ == ranges@.subrange(0, i as int),
        decreases ranges@.len() - i,
    {
        v.push(ranges[i]);
        i = i + 1;
    }
    assert(v@ =~= ranges@);
    v
}

/// Copies a slice of actuator message kinds into a new vector.
pub fn actuator_message_vec(m: &[ButtplugActuatorFeatureMessageType]) -> (v: Vec<
    ButtplugActuatorFeatureMessageType,
>)
    ensures
        v@ == m@,
{
    let mut v: Vec<ButtplugActuatorFeatureMessageType> = Vec::new();
    let mut i: usize = 0;
    while i < m.len()
        invariant
            i <= m@.len(),
            v@ == m@.subrange(0, i as int),
        decreases m@.len() - i,
    {
        v.push(m[i]);
        i = i + 1;
    }
    assert(v@ =~= m@);
    v
}

/// Copies a slice of sensor message kinds into a new vector.
pub fn sensor_message_vec(m: &[ButtplugSensorFeatureMessageType]) -> (v: Vec<
    ButtplugSensorFeatureMessageType,
>)
    ensures
        v@ == m@,
{
    let mut v: Vec<ButtplugSensorFeatureMessageType> = Vec::new();
    let mut i: usize = 0;
    while i < m.len()
        invariant
            i <= m@.len(),
            v@ == m@.subrange(0, i as int),
        decreases m@.len() - i,
    {
        v.push(m[i]);
        i = i + 1;
    }
    assert(v@ =~= m@);
    v
}

/// Attributes of raw endpoint access messages.
#[derive(Debug)]
pub struct RawDeviceMessageAttributes {
    pub endpoints: Vec<Endpoint>,
}

impl View for RawDeviceMessageAttributes {
    type V = Seq<Endpoint>;

    open spec fn view(&self) -> Seq<Endpoint> {
        self.endpoints@
    }
}

impl Clone for RawDeviceMessageAttributes {
    fn clone(&self) -> (r: Self)
        ensures
            r@ == self@,
    {
        RawDeviceMessageAttributes { endpoints: endpoint_vec(self.endpoints.as_slice()) }
    }
}

impl RawDeviceMessageAttributes {
    pub fn new(endpoints: &[Endpoint]) -> (r: Self)
        ensures
            r@ == endpoints@,
    {
        RawDeviceMessageAttributes { endpoints: endpoint_vec(endpoints) }
    }

    pub fn endpoints(&self) -> (r: &Vec<Endpoint>)
        ensures
            r@ == self@,
    {
        &self.endpoints
    }
}

/// Abstract value of a sensor message attribute.
pub struct SensorAttributesView {
    pub feature_descriptor: Seq<char>,
    pub sensor_type: SensorType,
    pub sensor_range: Seq<SensorRange>,
}

/// Attributes of a sensor message for one sensor feature.
#[derive(Debug)]
pub struct SensorDeviceMessageAttributes {
    pub feature_descriptor: String,
    pub sensor_type: SensorType,
    pub sensor_range: Vec<SensorRange>,
}

impl View for SensorDeviceMessageAttributes {
    type V = SensorAttributesView;

    open spec fn view(&self) -> SensorAttributesView {
        SensorAttributesView {
            feature_descriptor: self.feature_descriptor@,
            sensor_type: self.sensor_type,
            sensor_range: self.sensor_range@,
        }
    }
}

impl Clone for SensorDeviceMessageAttributes {
    fn clone(&self) -> (r: Self)
        ensures
            r@ == self@,
    {
        SensorDeviceMessageAttributes {
            feature_descriptor: self.feature_descriptor.clone(),
            sensor_type: self.sensor_type,
            sensor_range: sensor_range_vec(self.sensor_range.as_slice()),
        }
    }
}

impl SensorDeviceMessageAttributes {
    pub fn new(feature_descriptor: &str, sensor_type: SensorType, sensor_range: &[SensorRange]) -> (r:
        Self)
        ensures
            r@.feature_descriptor == feature_descriptor@,
            r@.sensor_type == sensor_type,
            r@.sensor_range == sensor_range@,
    {
        SensorDeviceMessageAttributes {
            feature_descriptor: feature_descriptor.to_owned(),
            sensor_type,
            sensor_range: sensor_range_vec(sensor_range),
        }
    }

    pub fn sensor_type(&self) -> (r: SensorType)
        ensures
            r == self.sensor_type,
    {
        self.sensor_type
    }
}

/// Abstract value of an actuator description.
pub struct ActuatorView {
    pub step_range: StepRange,
    pub step_limit: StepRange,
    pub messages: Seq<ButtplugActuatorFeatureMessageType>,
}

/// Actuator part of a device feature.
#[derive(Debug)]
pub struct DeviceFeatureActuator {
    pub step_range: StepRange,
    pub step_limit: StepRange,
    pub messages: Vec<ButtplugActuatorFeatureMessageType>,
}

impl View for DeviceFeatureActuator {
    type V = ActuatorView;

    open spec fn view(&self) -> ActuatorView {
        ActuatorView { step_range: self.step_range, step_limit: self.step_limit, messages: self.messages@ }
    }
}

impl Clone for DeviceFeatureActuator {
    fn clone(&self) -> (r: Self)
        ensures
            r@ == self@,
    {
        DeviceFeatureActuator {
            step_range: self.step_range,
            step_limit: self.step_limit,
            messages: actuator_message_vec(self.messages.as_slice()),
        }
    }
}

impl DeviceFeatureActuator {
    pub fn new(
        step_range: &StepRange,
        step_limit: &StepRange,
        messages: &[ButtplugActuatorFeatureMessageType],
    ) -> (r: Self)
        ensures
            r@.step_range == *step_range,
            r@.step_limit == *step_limit,
            r@.messages == messages@,
    {
        DeviceFeatureActuator {
            step_range: *step_range,
            step_limit: *step_limit,
            messages: actuator_message_vec(messages),
        }
    }
}

/// Abstract value of a sensor description.
pub struct SensorView {
    pub value_range: Seq<SensorRange>,
    pub messages: Seq<ButtplugSensorFeatureMessageType>,
}

/// Sensor part of a device feature.
#[derive(Debug)]
pub struct DeviceFeatureSensor {
    pub value_range: Vec<SensorRange>,
    pub messages: Vec<ButtplugSensorFeatureMessageType>,
}

impl View for DeviceFeatureSensor {
    type V = SensorView;

    open spec fn view(&self) -> SensorView {
        SensorView { value_range: self.value_range@, messages: self.messages@ }
    }
}

impl Clone for DeviceFeatureSensor {
    fn clone(&self) -> (r: Self)
        ensures
            r@ == self@,
    {
        DeviceFeatureSensor {
            value_range: sensor_range_vec(self.value_range.as_slice()),
            messages: sensor_message_vec(self.messages.as_slice()),
        }
    }
}

impl DeviceFeatureSensor {
    pub fn new(value_range: &[SensorRange], messages: &[ButtplugSensorFeatureMessageType]) -> (r:
        Self)
        ensures
            r@.value_range == value_range@,
            r@.messages == messages@,
    {
        DeviceFeatureSensor {
            value_range: sensor_range_vec(value_range),
            messages: sensor_message_vec(messages),
        }
    }
}

/// Abstract value of a device feature.
pub struct FeatureView {
    pub description: Seq<char>,
    pub feature_type: FeatureType,
    pub actuator: Option<ActuatorView>,
    pub sensor: Option<SensorView>,
    pub raw: Option<Seq<Endpoint>>,
}

/// One feature of a device: an actuator, a sensor or raw endpoint access.
#[derive(Debug)]
pub struct DeviceFeature {
    pub description: String,
    pub feature_type: FeatureType,
    pub actuator: Option<DeviceFeatureActuator>,
    pub sensor: Option<DeviceFeatureSensor>,
    pub raw: Option<RawDeviceMessageAttributes>,
}

impl View for DeviceFeature {
    type V = FeatureView;

    open spec fn view(&self) -> FeatureView {
        FeatureView {
            description: self.description@,
            feature_type: self.feature_type,
            actuator: match self.actuator {
                Some(a) => Some(a@),
                None => None,
            },
            sensor: match self.sensor {
                Some(s) => Some(s@),
                None => None,
            },
            raw: match self.raw {
                Some(r) => Some(r@),
                None => None,
            },
        }
    }
}

impl Clone for DeviceFeature {
    fn clone(&self) -> (r: Self)
        ensures
            r@ == self@,
    {
        let actuator = match &self.actuator {
            Some(a) => Some(a.clone()),
            None => None,
        };
        let sensor = match &self.sensor {
            Some(s) => Some(s.clone()),
            None => None,
        };
        let raw = match &self.raw {
            Some(x) => Some(x.clone()),
            None => None,
        };
        DeviceFeature {
            description: self.description.clone(),
            feature_type: self.feature_type,
            actuator,
            sensor,
            raw,
        }
    }
}

impl DeviceFeature {
    pub fn new(
        description: &str,
        feature_type: FeatureType,
        actuator: &Option<DeviceFeatureActuator>,
        sensor: &Option<DeviceFeatureSensor>,
    ) -> (r: Self)
        ensures
            r@.description == description@,
            r@.feature_type == feature_type,
            r@.actuator == (match actuator {
                Some(a) => Some(a@),
                None => None::<ActuatorView>,
            }),
            r@.sensor == (match sensor {
                Some(s) => Some(s@),
                None => None::<SensorView>,
            }),
            r@.raw is None,
    {
        let actuator = match actuator {
            Some(a) => Some(a.clone()),
            None => None,
        };
        let sensor = match sensor {
            Some(s) => Some(s.clone()),
            None => None,
        };
        DeviceFeature { description: description.to_owned(), feature_type, actuator, sensor, raw: None }
    }

    /// A feature that gives raw access to the given endpoints.
    pub fn new_raw_feature(endpoints: &[Endpoint]) -> (r: Self)
        ensures
            r@.description == Seq::<char>::empty(),
            r@.feature_type == FeatureType::Raw,
            r@.actuator is None,
            r@.sensor is None,
            r@.raw == Some(endpoints@),
    {
        DeviceFeature {
            description: String::new(),
            feature_type: FeatureType::Raw,
            actuator: None,
            sensor: None,
            raw: Some(RawDeviceMessageAttributes::new(endpoints)),
        }
    }
}

/// Copies a slice of features into a new vector.
pub fn feature_vec(features: &[DeviceFeature]) -> (v: Vec<DeviceFeature>)
    ensures
        v@.len() == features@.len(),
        forall|i: int| 0 <= i < features@.len() ==> #[trigger] v@[i]@ == features@[i]@,
{
    let mut v: Vec<DeviceFeature> = Vec::new();
    let mut i: usize = 0;
    while i < features.len()
        invariant
            i <= features@.len(),
            v@.len() == i,
            forall|j: int| 0 <= j < i ==> #[trigger] v@[j]@ == features@[j]@,
        decreases features@.len() - i,
    {
        v.push(features[i].clone());
        i = i + 1;
    }
    v
}

} // verus!
