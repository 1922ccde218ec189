//! Per-device message attributes: which device messages a device accepts, and with what
//! parameters. Attribute sets from different configuration layers combine with `merge`.
use vstd::prelude::*;
use crate::messages::{
    actuator_type_name, feature_type_name, lemma_actuator_type_keeps_name, spec_actuator_type, spec_sensor_type, actuator_type_of, sensor_type_of, ActuatorType,
    ButtplugActuatorFeatureMessageType, ButtplugDeviceMessageType, ButtplugSensorFeatureMessageType,
    DeviceFeature, Endpoint, FeatureView, NullDeviceMessageAttributes, RawDeviceMessageAttributes,
    SensorAttributesView, SensorDeviceMessageAttributes, SensorType, StepRange, DeviceFeatureActuator,
    DeviceFeatureSensor, sensor_range_vec,
};

verus! {

/// Abstract value of the attributes of a generic actuator message.
pub struct GenericAttributesView {
    pub feature_descriptor: Seq<char>,
    pub actuator_type: ActuatorType,
    pub step_range: StepRange,
    pub step_limit: StepRange,
}

/// Attributes of a generic actuator message (scalar, rotate or linear) for one feature.
#[derive(Debug)]
pub struct ServerGenericDeviceMessageAttributes {
    feature_descriptor: String,
    actuator_type: ActuatorType,
    step_range: StepRange,
    step_limit: StepRange,
}

impl View for ServerGenericDeviceMessageAttributes {
    type V = GenericAttributesView;

    closed spec fn view(&self) -> GenericAttributesView {
        GenericAttributesView {
            feature_descriptor: self.feature_descriptor@,
            actuator_type: self.actuator_type,
            step_range: self.step_range,
            step_limit: self.step_limit,
        }
    }
}

impl Clone for ServerGenericDeviceMessageAttributes {
    fn clone(&self) -> (r: Self)
        ensures
            r@ == self@,
    {
        ServerGenericDeviceMessageAttributes {
            feature_descriptor: self.feature_descriptor.clone(),
            actuator_type: self.actuator_type,
            step_range: self.step_range,
            step_limit: self.step_limit,
        }
    }
}

/// Why a device feature cannot be turned into message attributes.
#[derive(Clone, Copy, Debug, PartialEq, Eq, Structural)]
pub enum FeatureConversionError {
    /// The feature has no actuator part.
    NoActuator,
    /// The feature has no sensor part.
    NoSensor,
    /// The feature's type names no actuator.
    NotAnActuatorType,
    /// The feature's type names no sensor.
    NotASensorType,
}

/// The generic message attributes that an actuator feature gives, or why it gives none.
pub open spec fn spec_generic_from_feature(f: FeatureView) -> Result<
    GenericAttributesView,
    FeatureConversionError,
> {
    match f.actuator {
        Some(a) => match spec_actuator_type(f.feature_type) {
            Some(t) => Ok(
                GenericAttributesView {
                    feature_descriptor: f.description,
                    actuator_type: t,
                    step_range: a.step_range,
                    step_limit: a.step_limit,
                },
            ),
            None => Err(FeatureConversionError::NotAnActuatorType),
        },
        None => Err(FeatureConversionError::NoActuator),
    }
}

/// The sensor message attributes that a sensor feature gives, or why it gives none.
pub open spec fn spec_sensor_from_feature(f: FeatureView) -> Result<
    SensorAttributesView,
    FeatureConversionError,
> {
    match f.sensor {
        Some(s) => match spec_sensor_type(f.feature_type) {
            Some(t) => Ok(
                SensorAttributesView {
                    feature_descriptor: f.description,
                    sensor_type: t,
                    sensor_range: s.value_range,
                },
            ),
            None => Err(FeatureConversionError::NotASensorType),
        },
        None => Err(FeatureConversionError::NoSensor),
    }
}

impl ServerGenericDeviceMessageAttributes {
    pub fn new(
        feature_descriptor: &str,
        actuator_type: ActuatorType,
        step_range: &StepRange,
        step_limit: &StepRange,
    ) -> (r: Self)
        ensures
            r@ == (GenericAttributesView {
                feature_descriptor: feature_descriptor@,
                actuator_type,
                step_range: *step_range,
                step_limit: *step_limit,
            }),
    {
        ServerGenericDeviceMessageAttributes {
            feature_descriptor: feature_descriptor.to_owned(),
            actuator_type,
            step_range: *step_range,
            step_limit: *step_limit,
        }
    }

    /// Builds the attributes from a device feature; fails when the feature has no actuator or
    /// its type is not an actuator type.
    pub fn try_from_feature(feature: &DeviceFeature) -> (r: Result<Self, FeatureConversionError>)
        ensures
            match r {
                Ok(a) => spec_generic_from_feature(feature@) == Ok::<
                    GenericAttributesView,
                    FeatureConversionError,
                >(a@),
                Err(e) => spec_generic_from_feature(feature@) == Err::<
                    GenericAttributesView,
                    FeatureConversionError,
                >(e),
            },
    {
        match &feature.actuator {
            Some(actuator) => match actuator_type_of(feature.feature_type) {
                Some(actuator_type) => Ok(
                    ServerGenericDeviceMessageAttributes {
                        feature_descriptor: feature.description.clone(),
                        actuator_type,
                        step_range: actuator.step_range,
                        step_limit: actuator.step_limit,
                    },
                ),
                None => Err(FeatureConversionError::NotAnActuatorType),
            },
            None => Err(FeatureConversionError::NoActuator),
        }
    }

    /// Number of steps between the lower and the upper step limit.
    pub fn step_count(&self) -> (r: u32)
        requires
            self@.step_limit.start <= self@.step_limit.end,
        ensures
            r == self@.step_limit.end - self@.step_limit.start,
    {
        self.step_limit.end - self.step_limit.start
    }

    pub fn feature_descriptor(&self) -> (r: &String)
        ensures
            r@ == self@.feature_descriptor,
    {
        &self.feature_descriptor
    }

    pub fn actuator_type(&self) -> (r: ActuatorType)
        ensures
            r == self@.actuator_type,
    {
        self.actuator_type
    }

    pub fn step_range(&self) -> (r: StepRange)
        ensures
            r == self@.step_range,
    {
        self.step_range
    }

    pub fn step_limit(&self) -> (r: StepRange)
        ensures
            r == self@.step_limit,
    {
        self.step_limit
    }

    pub fn set_step_range(&mut self, step_range: StepRange)
        ensures
            final(self)@ == (GenericAttributesView { step_range, ..old(self)@ }),
    {
        self.step_range = step_range;
    }

    pub fn set_step_limit(&mut self, step_limit: StepRange)
        ensures
            final(self)@ == (GenericAttributesView { step_limit, ..old(self)@ }),
    {
        self.step_limit = step_limit;
    }
}

} // verus!

verus! {

/// Abstract values of a list of generic actuator attributes.
pub open spec fn generics_view(s: Seq<ServerGenericDeviceMessageAttributes>) -> Seq<
    GenericAttributesView,
> {
    s.map_values(|g: ServerGenericDeviceMessageAttributes| g@)
}

/// Abstract values of a list of sensor attributes.
pub open spec fn sensors_view(s: Seq<SensorDeviceMessageAttributes>) -> Seq<SensorAttributesView> {
    s.map_values(|g: SensorDeviceMessageAttributes| g@)
}

/// Abstract value of an optional list of generic actuator attributes.
pub open spec fn opt_generics_view(o: Option<Vec<ServerGenericDeviceMessageAttributes>>) -> Option<
    Seq<GenericAttributesView>,
> {
    match o {
        Some(v) => Some(generics_view(v@)),
        None => None,
    }
}

/// Abstract value of an optional list of sensor attributes.
pub open spec fn opt_sensors_view(o: Option<Vec<SensorDeviceMessageAttributes>>) -> Option<
    Seq<SensorAttributesView>,
> {
    match o {
        Some(v) => Some(sensors_view(v@)),
        None => None,
    }
}

/// Abstract value of optional raw attributes: the endpoints they cover.
pub open spec fn opt_raw_view(o: Option<RawDeviceMessageAttributes>) -> Option<Seq<Endpoint>> {
    match o {
        Some(r) => Some(r@),
        None => None,
    }
}

/// Copies a list of generic actuator attributes.
pub fn clone_generics(v: &[ServerGenericDeviceMessageAttributes]) -> (r: Vec<
    ServerGenericDeviceMessageAttributes,
>)
    ensures
        generics_view(r@) == generics_view(v@),
{
    let mut r: Vec<ServerGenericDeviceMessageAttributes> = Vec::new();
    let mut i: usize = 0;
    while i < v.len()
        invariant
            i <= v@.len(),
            r@.len() == i,
            forall|j: int| 0 <= j < i ==> #[trigger] r@[j]@ == v@[j]@,
        decreases v@.len() - i,
    {
        r.push(v[i].clone());
        i = i + 1;
    }
    assert(generics_view(r@) =~= generics_view(v@));
    r
}

/// Copies a list of sensor attributes.
pub fn clone_sensors(v: &[SensorDeviceMessageAttributes]) -> (r: Vec<SensorDeviceMessageAttributes>)
    ensures
        sensors_view(r@) == sensors_view(v@),
{
    let mut r: Vec<SensorDeviceMessageAttributes> = Vec::new();
    let mut i: usize = 0;
    while i < v.len()
        invariant
            i <= v@.len(),
            r@.len() == i,
            forall|j: int| 0 <= j < i ==> #[trigger] r@[j]@ == v@[j]@,
        decreases v@.len() - i,
    {
        r.push(v[i].clone());
        i = i + 1;
    }
    assert(sensors_view(r@) =~= sensors_view(v@));
    r
}

fn clone_opt_generics(o: &Option<Vec<ServerGenericDeviceMessageAttributes>>) -> (r: Option<
    Vec<ServerGenericDeviceMessageAttributes>,
>)
    ensures
        opt_generics_view(r) == opt_generics_view(*o),
{
    match o {
        Some(v) => Some(clone_generics(v.as_slice())),
        None => None,
    }
}

fn clone_opt_sensors(o: &Option<Vec<SensorDeviceMessageAttributes>>) -> (r: Option<
    Vec<SensorDeviceMessageAttributes>,
>)
    ensures
        opt_sensors_view(r) == opt_sensors_view(*o),
{
    match o {
        Some(v) => Some(clone_sensors(v.as_slice())),
        None => None,
    }
}

fn clone_opt_raw(o: &Option<RawDeviceMessageAttributes>) -> (r: Option<RawDeviceMessageAttributes>)
    ensures
        opt_raw_view(r) == opt_raw_view(*o),
{
    match o {
        Some(v) => Some(v.clone()),
        None => None,
    }
}

/// Abstract value of a device's message attributes. The stop command is always allowed and
/// carries no parameters, so it has no component here.
pub struct AttributesView {
    pub scalar_cmd: Option<Seq<GenericAttributesView>>,
    pub rotate_cmd: Option<Seq<GenericAttributesView>>,
    pub linear_cmd: Option<Seq<GenericAttributesView>>,
    pub sensor_read_cmd: Option<Seq<SensorAttributesView>>,
    pub sensor_subscribe_cmd: Option<Seq<SensorAttributesView>>,
    pub raw_read_cmd: Option<Seq<Endpoint>>,
    pub raw_write_cmd: Option<Seq<Endpoint>>,
    pub raw_subscribe_cmd: Option<Seq<Endpoint>>,
    pub fleshlight_launch_fw12_cmd: bool,
    pub vorze_a10_cyclone_cmd: bool,
}

/// The attribute set that allows nothing but stopping the device.
pub open spec fn empty_attributes() -> AttributesView {
    AttributesView {
        scalar_cmd: None,
        rotate_cmd: None,
        linear_cmd: None,
        sensor_read_cmd: None,
        sensor_subscribe_cmd: None,
        raw_read_cmd: None,
        raw_write_cmd: None,
        raw_subscribe_cmd: None,
        fleshlight_launch_fw12_cmd: false,
        vorze_a10_cyclone_cmd: false,
    }
}

/// Message attributes of a device: for each device message, whether it is accepted and with
/// which per-feature parameters.
#[derive(Debug)]
pub struct ServerDeviceMessageAttributes {
    scalar_cmd: Option<Vec<ServerGenericDeviceMessageAttributes>>,
    rotate_cmd: Option<Vec<ServerGenericDeviceMessageAttributes>>,
    linear_cmd: Option<Vec<ServerGenericDeviceMessageAttributes>>,
    sensor_read_cmd: Option<Vec<SensorDeviceMessageAttributes>>,
    sensor_subscribe_cmd: Option<Vec<SensorDeviceMessageAttributes>>,
    stop_device_cmd: NullDeviceMessageAttributes,
    raw_read_cmd: Option<RawDeviceMessageAttributes>,
    raw_write_cmd: Option<RawDeviceMessageAttributes>,
    raw_subscribe_cmd: Option<RawDeviceMessageAttributes>,
    fleshlight_launch_fw12_cmd: Option<NullDeviceMessageAttributes>,
    vorze_a10_cyclone_cmd: Option<NullDeviceMessageAttributes>,
}

impl View for ServerDeviceMessageAttributes {
    type V = AttributesView;

    closed spec fn view(&self) -> AttributesView {
        AttributesView {
            scalar_cmd: opt_generics_view(self.scalar_cmd),
            rotate_cmd: opt_generics_view(self.rotate_cmd),
            linear_cmd: opt_generics_view(self.linear_cmd),
            sensor_read_cmd: opt_sensors_view(self.sensor_read_cmd),
            sensor_subscribe_cmd: opt_sensors_view(self.sensor_subscribe_cmd),
            raw_read_cmd: opt_raw_view(self.raw_read_cmd),
            raw_write_cmd: opt_raw_view(self.raw_write_cmd),
            raw_subscribe_cmd: opt_raw_view(self.raw_subscribe_cmd),
            fleshlight_launch_fw12_cmd: self.fleshlight_launch_fw12_cmd is Some,
            vorze_a10_cyclone_cmd: self.vorze_a10_cyclone_cmd is Some,
        }
    }
}

impl Clone for ServerDeviceMessageAttributes {
    fn clone(&self) -> (r: Self)
        ensures
            r@ == self@,
    {
        ServerDeviceMessageAttributes {
            scalar_cmd: clone_opt_generics(&self.scalar_cmd),
            rotate_cmd: clone_opt_generics(&self.rotate_cmd),
            linear_cmd: clone_opt_generics(&self.linear_cmd),
            sensor_read_cmd: clone_opt_sensors(&self.sensor_read_cmd),
            sensor_subscribe_cmd: clone_opt_sensors(&self.sensor_subscribe_cmd),
            stop_device_cmd: NullDeviceMessageAttributes {  },
            raw_read_cmd: clone_opt_raw(&self.raw_read_cmd),
            raw_write_cmd: clone_opt_raw(&self.raw_write_cmd),
            raw_subscribe_cmd: clone_opt_raw(&self.raw_subscribe_cmd),
            fleshlight_launch_fw12_cmd: self.fleshlight_launch_fw12_cmd,
            vorze_a10_cyclone_cmd: self.vorze_a10_cyclone_cmd,
        }
    }
}

impl Default for ServerDeviceMessageAttributes {
    fn default() -> (r: Self)
        ensures
            r@ == empty_attributes(),
    {
        ServerDeviceMessageAttributes {
            scalar_cmd: None,
            rotate_cmd: None,
            linear_cmd: None,
            sensor_read_cmd: None,
            sensor_subscribe_cmd: None,
            stop_device_cmd: NullDeviceMessageAttributes {  },
            raw_read_cmd: None,
            raw_write_cmd: None,
            raw_subscribe_cmd: None,
            fleshlight_launch_fw12_cmd: None,
            vorze_a10_cyclone_cmd: None,
        }
    }
}

/// Whether some sensor in the list is of the given type.
pub open spec fn has_sensor_type(sensors: Option<Seq<SensorAttributesView>>, t: SensorType) -> bool {
    match sensors {
        Some(s) => exists|i: int| 0 <= i < s.len() && #[trigger] s[i].sensor_type == t,
        None => false,
    }
}

/// Whether a device with attributes `a` accepts messages of type `t`.
pub open spec fn spec_message_allowed(a: AttributesView, t: ButtplugDeviceMessageType) -> bool {
    match t {
        ButtplugDeviceMessageType::ScalarCmd => a.scalar_cmd is Some,
        ButtplugDeviceMessageType::VibrateCmd => a.scalar_cmd is Some,
        ButtplugDeviceMessageType::SingleMotorVibrateCmd => a.scalar_cmd is Some,
        ButtplugDeviceMessageType::SensorReadCmd => a.sensor_read_cmd is Some,
        ButtplugDeviceMessageType::SensorSubscribeCmd => a.sensor_subscribe_cmd is Some,
        ButtplugDeviceMessageType::SensorUnsubscribeCmd => a.sensor_subscribe_cmd is Some,
        ButtplugDeviceMessageType::LinearCmd => a.linear_cmd is Some,
        ButtplugDeviceMessageType::RotateCmd => a.rotate_cmd is Some,
        ButtplugDeviceMessageType::BatteryLevelCmd => has_sensor_type(
            a.sensor_read_cmd,
            SensorType::Battery,
        ),
        ButtplugDeviceMessageType::FleshlightLaunchFW12Cmd => a.fleshlight_launch_fw12_cmd,
        ButtplugDeviceMessageType::RSSILevelCmd => has_sensor_type(a.sensor_read_cmd, SensorType::RSSI),
        ButtplugDeviceMessageType::RawReadCmd => a.raw_read_cmd is Some,
        ButtplugDeviceMessageType::RawSubscribeCmd => a.raw_subscribe_cmd is Some,
        ButtplugDeviceMessageType::RawUnsubscribeCmd => a.raw_subscribe_cmd is Some,
        ButtplugDeviceMessageType::RawWriteCmd => a.raw_write_cmd is Some,
        ButtplugDeviceMessageType::VorzeA10CycloneCmd => a.vorze_a10_cyclone_cmd,
        ButtplugDeviceMessageType::StopDeviceCmd => true,
        ButtplugDeviceMessageType::KiirooCmd => false,
        ButtplugDeviceMessageType::LovenseCmd => false,
    }
}

/// The child's value where it has one, the parent's otherwise.
pub open spec fn prefer_child<T>(parent: Option<T>, child: Option<T>) -> Option<T> {
    match child {
        Some(c) => Some(c),
        None => parent,
    }
}

/// Attributes of a child configuration layered over those of its parent: each message takes the
/// child's attributes where the child defines them, the parent's otherwise.
pub open spec fn spec_merge(parent: AttributesView, child: AttributesView) -> AttributesView {
    AttributesView {
        scalar_cmd: prefer_child(parent.scalar_cmd, child.scalar_cmd),
        rotate_cmd: prefer_child(parent.rotate_cmd, child.rotate_cmd),
        linear_cmd: prefer_child(parent.linear_cmd, child.linear_cmd),
        sensor_read_cmd: prefer_child(parent.sensor_read_cmd, child.sensor_read_cmd),
        sensor_subscribe_cmd: prefer_child(parent.sensor_subscribe_cmd, child.sensor_subscribe_cmd),
        raw_read_cmd: prefer_child(parent.raw_read_cmd, child.raw_read_cmd),
        raw_write_cmd: prefer_child(parent.raw_write_cmd, child.raw_write_cmd),
        raw_subscribe_cmd: prefer_child(parent.raw_subscribe_cmd, child.raw_subscribe_cmd),
        fleshlight_launch_fw12_cmd: child.fleshlight_launch_fw12_cmd
            || parent.fleshlight_launch_fw12_cmd,
        vorze_a10_cyclone_cmd: child.vorze_a10_cyclone_cmd || parent.vorze_a10_cyclone_cmd,
    }
}

/// Attributes `a` with raw read, write and subscribe access to `endpoints` added.
pub open spec fn spec_with_raw(a: AttributesView, endpoints: Seq<Endpoint>) -> AttributesView {
    AttributesView {
        raw_read_cmd: Some(endpoints),
        raw_write_cmd: Some(endpoints),
        raw_subscribe_cmd: Some(endpoints),
        ..a
    }
}

impl ServerDeviceMessageAttributes {
    pub fn scalar_cmd(&self) -> (r: &Option<Vec<ServerGenericDeviceMessageAttributes>>)
        ensures
            opt_generics_view(*r) == self@.scalar_cmd,
    {
        &self.scalar_cmd
    }

    pub fn rotate_cmd(&self) -> (r: &Option<Vec<ServerGenericDeviceMessageAttributes>>)
        ensures
            opt_generics_view(*r) == self@.rotate_cmd,
    {
        &self.rotate_cmd
    }

    pub fn linear_cmd(&self) -> (r: &Option<Vec<ServerGenericDeviceMessageAttributes>>)
        ensures
            opt_generics_view(*r) == self@.linear_cmd,
    {
        &self.linear_cmd
    }

    pub fn sensor_read_cmd(&self) -> (r: &Option<Vec<SensorDeviceMessageAttributes>>)
        ensures
            opt_sensors_view(*r) == self@.sensor_read_cmd,
    {
        &self.sensor_read_cmd
    }

    pub fn sensor_subscribe_cmd(&self) -> (r: &Option<Vec<SensorDeviceMessageAttributes>>)
        ensures
            opt_sensors_view(*r) == self@.sensor_subscribe_cmd,
    {
        &self.sensor_subscribe_cmd
    }

    pub fn stop_device_cmd(&self) -> (r: &NullDeviceMessageAttributes)
        ensures
            *r == (NullDeviceMessageAttributes {  }),
    {
        &self.stop_device_cmd
    }

    pub fn raw_read_cmd(&self) -> (r: &Option<RawDeviceMessageAttributes>)
        ensures
            opt_raw_view(*r) == self@.raw_read_cmd,
    {
        &self.raw_read_cmd
    }

    pub fn raw_write_cmd(&self) -> (r: &Option<RawDeviceMessageAttributes>)
        ensures
            opt_raw_view(*r) == self@.raw_write_cmd,
    {
        &self.raw_write_cmd
    }

    pub fn raw_subscribe_cmd(&self) -> (r: &Option<RawDeviceMessageAttributes>)
        ensures
            opt_raw_view(*r) == self@.raw_subscribe_cmd,
    {
        &self.raw_subscribe_cmd
    }

    /// Raw unsubscribing is allowed exactly where raw subscribing is, with the same endpoints.
    pub fn raw_unsubscribe_cmd(&self) -> (r: &Option<RawDeviceMessageAttributes>)
        ensures
            opt_raw_view(*r) == self@.raw_subscribe_cmd,
    {
        self.raw_subscribe_cmd()
    }

    pub fn fleshlight_launch_fw12_cmd(&self) -> (r: &Option<NullDeviceMessageAttributes>)
        ensures
            r is Some == self@.fleshlight_launch_fw12_cmd,
    {
        &self.fleshlight_launch_fw12_cmd
    }

    pub fn vorze_a10_cyclone_cmd(&self) -> (r: &Option<NullDeviceMessageAttributes>)
        ensures
            r is Some == self@.vorze_a10_cyclone_cmd,
    {
        &self.vorze_a10_cyclone_cmd
    }

    /// Whether the device accepts messages of the given type.
    pub fn message_allowed(&self, message_type: &ButtplugDeviceMessageType) -> (r: bool)
        ensures
            r == spec_message_allowed(self@, *message_type),
    {
        match message_type {
            ButtplugDeviceMessageType::ScalarCmd => self.scalar_cmd.is_some(),
            ButtplugDeviceMessageType::VibrateCmd => self.scalar_cmd.is_some(),
            ButtplugDeviceMessageType::SingleMotorVibrateCmd => self.scalar_cmd.is_some(),
            ButtplugDeviceMessageType::SensorReadCmd => self.sensor_read_cmd.is_some(),
            ButtplugDeviceMessageType::SensorSubscribeCmd => self.sensor_subscribe_cmd.is_some(),
            ButtplugDeviceMessageType::SensorUnsubscribeCmd => self.sensor_subscribe_cmd.is_some(),
            ButtplugDeviceMessageType::LinearCmd => self.linear_cmd.is_some(),
            ButtplugDeviceMessageType::RotateCmd => self.rotate_cmd.is_some(),
            ButtplugDeviceMessageType::BatteryLevelCmd => Self::any_sensor_of_type(
                &self.sensor_read_cmd,
                SensorType::Battery,
            ),
            ButtplugDeviceMessageType::FleshlightLaunchFW12Cmd => {
                self.fleshlight_launch_fw12_cmd.is_some()
            },
            ButtplugDeviceMessageType::RSSILevelCmd => Self::any_sensor_of_type(
                &self.sensor_read_cmd,
                SensorType::RSSI,
            ),
            ButtplugDeviceMessageType::RawReadCmd => self.raw_read_cmd.is_some(),
            ButtplugDeviceMessageType::RawSubscribeCmd => self.raw_subscribe_cmd.is_some(),
            ButtplugDeviceMessageType::RawUnsubscribeCmd => self.raw_subscribe_cmd.is_some(),
            ButtplugDeviceMessageType::RawWriteCmd => self.raw_write_cmd.is_some(),
            ButtplugDeviceMessageType::VorzeA10CycloneCmd => self.vorze_a10_cyclone_cmd.is_some(),
            ButtplugDeviceMessageType::StopDeviceCmd => true,
            ButtplugDeviceMessageType::KiirooCmd => false,
            ButtplugDeviceMessageType::LovenseCmd => false,
        }
    }

    fn any_sensor_of_type(sensors: &Option<Vec<SensorDeviceMessageAttributes>>, t: SensorType) -> (r:
        bool)
        ensures
            r == has_sensor_type(opt_sensors_view(*sensors), t),
    {
        match sensors {
            Some(v) => {
                let mut i: usize = 0;
                assert(opt_sensors_view(*sensors) == Some(sensors_view(v@)));
                while i < v.len()
                    invariant
                        i <= v@.len(),
                        opt_sensors_view(*sensors) == Some(sensors_view(v@)),
                        forall|j: int| 0 <= j < i ==> v@[j].sensor_type != t,
                    decreases v@.len() - i,
                {
                    if v[i].sensor_type == t {
                        proof {
                            let s = sensors_view(v@);
                            assert(s[i as int].sensor_type == t);
                        }
                        return true;
                    }
                    i = i + 1;
                }
                proof {
                    let s = sensors_view(v@);
                    assert forall|j: int| 0 <= j < s.len() implies #[trigger] s[j].sensor_type != t by {
                        assert(v@[j].sensor_type != t);
                    }
                }
                false
            },
            None => false,
        }
    }

    /// Layers `child` over these (parent) attributes: every message takes the child's attributes
    /// where the child has them and these otherwise; the stop command stays parameterless.
    pub fn merge(&self, child: &ServerDeviceMessageAttributes) -> (r: ServerDeviceMessageAttributes)
        ensures
            r@ == spec_merge(self@, child@),
    {
        ServerDeviceMessageAttributes {
            rotate_cmd: if child.rotate_cmd.is_some() {
                clone_opt_generics(&child.rotate_cmd)
            } else {
                clone_opt_generics(&self.rotate_cmd)
            },
            linear_cmd: if child.linear_cmd.is_some() {
                clone_opt_generics(&child.linear_cmd)
            } else {
                clone_opt_generics(&self.linear_cmd)
            },
            scalar_cmd: if child.scalar_cmd.is_some() {
                clone_opt_generics(&child.scalar_cmd)
            } else {
                clone_opt_generics(&self.scalar_cmd)
            },
            sensor_read_cmd: if child.sensor_read_cmd.is_some() {
                clone_opt_sensors(&child.sensor_read_cmd)
            } else {
                clone_opt_sensors(&self.sensor_read_cmd)
            },
            sensor_subscribe_cmd: if child.sensor_subscribe_cmd.is_some() {
                clone_opt_sensors(&child.sensor_subscribe_cmd)
            } else {
                clone_opt_sensors(&self.sensor_subscribe_cmd)
            },
            stop_device_cmd: NullDeviceMessageAttributes {  },
            raw_read_cmd: if child.raw_read_cmd.is_some() {
                clone_opt_raw(&child.raw_read_cmd)
            } else {
                clone_opt_raw(&self.raw_read_cmd)
            },
            raw_write_cmd: if child.raw_write_cmd.is_some() {
                clone_opt_raw(&child.raw_write_cmd)
            } else {
                clone_opt_raw(&self.raw_write_cmd)
            },
            raw_subscribe_cmd: if child.raw_subscribe_cmd.is_some() {
                clone_opt_raw(&child.raw_subscribe_cmd)
            } else {
                clone_opt_raw(&self.raw_subscribe_cmd)
            },
            fleshlight_launch_fw12_cmd: if child.fleshlight_launch_fw12_cmd.is_some() {
                child.fleshlight_launch_fw12_cmd
            } else {
                self.fleshlight_launch_fw12_cmd
            },
            vorze_a10_cyclone_cmd: if child.vorze_a10_cyclone_cmd.is_some() {
                child.vorze_a10_cyclone_cmd
            } else {
                self.vorze_a10_cyclone_cmd
            },
        }
    }

    /// Allows raw read, write and subscribe access to the given endpoints, replacing any raw
    /// access allowed before.
    pub fn add_raw_messages(&mut self, endpoints: &[Endpoint])
        ensures
            final(self)@ == spec_with_raw(old(self)@, endpoints@),
    {
        let raw_attrs = RawDeviceMessageAttributes::new(endpoints);
        self.raw_read_cmd = Some(raw_attrs.clone());
        self.raw_write_cmd = Some(raw_attrs.clone());
        self.raw_subscribe_cmd = Some(raw_attrs);
    }
}

} // verus!

verus! {

/// Abstract values of a list of device features.
pub open spec fn features_view(s: Seq<DeviceFeature>) -> Seq<FeatureView> {
    s.map_values(|f: DeviceFeature| f@)
}

/// Whether feature `f` has an actuator that accepts message family `m`.
pub open spec fn actuator_selects(f: FeatureView, m: ButtplugActuatorFeatureMessageType) -> bool {
    match f.actuator {
        Some(a) => a.messages.contains(m),
        None => false,
    }
}

/// Whether feature `f` has a sensor that accepts message family `m`.
pub open spec fn sensor_selects(f: FeatureView, m: ButtplugSensorFeatureMessageType) -> bool {
    match f.sensor {
        Some(s) => s.messages.contains(m),
        None => false,
    }
}

/// Generic attributes of the features, in order, whose actuator accepts `m`.
pub open spec fn actuator_attrs(fs: Seq<FeatureView>, m: ButtplugActuatorFeatureMessageType) -> Seq<
    GenericAttributesView,
>
    decreases fs.len(),
{
    if fs.len() == 0 {
        Seq::empty()
    } else {
        let prev = actuator_attrs(fs.drop_last(), m);
        if actuator_selects(fs.last(), m) {
            prev.push(spec_generic_from_feature(fs.last())->Ok_0)
        } else {
            prev
        }
    }
}

/// Sensor attributes of the features, in order, whose sensor accepts `m`.
pub open spec fn sensor_attrs(fs: Seq<FeatureView>, m: ButtplugSensorFeatureMessageType) -> Seq<
    SensorAttributesView,
>
    decreases fs.len(),
{
    if fs.len() == 0 {
        Seq::empty()
    } else {
        let prev = sensor_attrs(fs.drop_last(), m);
        if sensor_selects(fs.last(), m) {
            prev.push(spec_sensor_from_feature(fs.last())->Ok_0)
        } else {
            prev
        }
    }
}

/// Endpoints of the first feature that gives raw access, if any does.
pub open spec fn first_raw(fs: Seq<FeatureView>) -> Option<Seq<Endpoint>>
    decreases fs.len(),
{
    if fs.len() == 0 {
        None
    } else {
        let prev = first_raw(fs.drop_last());
        if prev is Some {
            prev
        } else {
            fs.last().raw
        }
    }
}

/// `Some(s)` for a non-empty `s`, `None` for an empty one.
pub open spec fn non_empty<T>(s: Seq<T>) -> Option<Seq<T>> {
    if s.len() > 0 {
        Some(s)
    } else {
        None
    }
}

/// Every feature that is selected for an actuator message has an actuator type, and every
/// feature selected for a sensor message has a sensor type.
pub open spec fn features_convertible(fs: Seq<FeatureView>) -> bool {
    &&& forall|i: int, m: ButtplugActuatorFeatureMessageType|
        0 <= i < fs.len() && #[trigger] actuator_selects(fs[i], m) ==> spec_generic_from_feature(
            fs[i],
        ) is Ok
    &&& forall|i: int, m: ButtplugSensorFeatureMessageType|
        0 <= i < fs.len() && #[trigger] sensor_selects(fs[i], m) ==> spec_sensor_from_feature(
            fs[i],
        ) is Ok
}

/// Message attributes that a list of features describes: each actuator message lists the
/// features that accept it, each sensor message likewise, and raw access follows the first
/// feature that gives one.
pub open spec fn spec_attributes_from_features(fs: Seq<FeatureView>) -> AttributesView {
    AttributesView {
        scalar_cmd: non_empty(actuator_attrs(fs, ButtplugActuatorFeatureMessageType::ScalarCmd)),
        rotate_cmd: non_empty(actuator_attrs(fs, ButtplugActuatorFeatureMessageType::RotateCmd)),
        linear_cmd: non_empty(actuator_attrs(fs, ButtplugActuatorFeatureMessageType::LinearCmd)),
        sensor_read_cmd: non_empty(
            sensor_attrs(fs, ButtplugSensorFeatureMessageType::SensorReadCmd),
        ),
        sensor_subscribe_cmd: non_empty(
            sensor_attrs(fs, ButtplugSensorFeatureMessageType::SensorSubscribeCmd),
        ),
        raw_read_cmd: first_raw(fs),
        raw_write_cmd: first_raw(fs),
        raw_subscribe_cmd: first_raw(fs),
        fleshlight_launch_fw12_cmd: false,
        vorze_a10_cyclone_cmd: false,
    }
}

fn actuator_accepts(a: &DeviceFeatureActuator, m: ButtplugActuatorFeatureMessageType) -> (r: bool)
    ensures
        r == a@.messages.contains(m),
{
    let mut i: usize = 0;
    while i < a.messages.len()
        invariant
            i <= a.messages@.len(),
            forall|j: int| 0 <= j < i ==> a.messages@[j] != m,
        decreases a.messages@.len() - i,
    {
        if a.messages[i] == m {
            assert(a@.messages[i as int] == m);
            return true;
        }
        i = i + 1;
    }
    assert(!a@.messages.contains(m));
    false
}

fn sensor_accepts(s: &DeviceFeatureSensor, m: ButtplugSensorFeatureMessageType) -> (r: bool)
    ensures
        r == s@.messages.contains(m),
{
    let mut i: usize = 0;
    while i < s.messages.len()
        invariant
            i <= s.messages@.len(),
            forall|j: int| 0 <= j < i ==> s.messages@[j] != m,
        decreases s.messages@.len() - i,
    {
        if s.messages[i] == m {
            assert(s@.messages[i as int] == m);
            return true;
        }
        i = i + 1;
    }
    assert(!s@.messages.contains(m));
    false
}

fn collect_actuator_attrs(features: &[DeviceFeature], m: ButtplugActuatorFeatureMessageType) -> (r:
    Option<Vec<ServerGenericDeviceMessageAttributes>>)
    requires
        features_convertible(features_view(features@)),
    ensures
        opt_generics_view(r) == non_empty(actuator_attrs(features_view(features@), m)),
{
    let ghost fs = features_view(features@);
    let mut attrs: Vec<ServerGenericDeviceMessageAttributes> = Vec::new();
    let mut i: usize = 0;
    while i < features.len()
        invariant
            i <= features@.len(),
            fs == features_view(features@),
            features_convertible(fs),
            generics_view(attrs@) == actuator_attrs(fs.subrange(0, i as int), m),
        decreases features@.len() - i,
    {
        let f = &features[i];
        assert(fs.subrange(0, i + 1).drop_last() =~= fs.subrange(0, i as int));
        assert(fs.subrange(0, i + 1).last() == f@);
        let selected = match &f.actuator {
            Some(a) => actuator_accepts(a, m),
            None => false,
        };
        if selected {
            assert(actuator_selects(fs[i as int], m));
            match ServerGenericDeviceMessageAttributes::try_from_feature(f) {
                Ok(g) => {
                    attrs.push(g);
                    assert(generics_view(attrs@) =~= actuator_attrs(
                        fs.subrange(0, i as int),
                        m,
                    ).push(g@));
                },
                Err(_) => {
                    assert(false);
                },
            }
        }
        i = i + 1;
    }
    assert(fs.subrange(0, features@.len() as int) =~= fs);
    if attrs.len() > 0 {
        Some(attrs)
    } else {
        None
    }
}

fn sensor_from_feature(feature: &DeviceFeature) -> (r: Result<
    SensorDeviceMessageAttributes,
    FeatureConversionError,
>)
    ensures
        match r {
            Ok(a) => spec_sensor_from_feature(feature@) == Ok::<
                SensorAttributesView,
                FeatureConversionError,
            >(a@),
            Err(e) => spec_sensor_from_feature(feature@) == Err::<
                SensorAttributesView,
                FeatureConversionError,
            >(e),
        },
{
    match &feature.sensor {
        Some(sensor) => match sensor_type_of(feature.feature_type) {
            Some(sensor_type) => Ok(
                SensorDeviceMessageAttributes {
                    feature_descriptor: feature.description.clone(),
                    sensor_type,
                    sensor_range: sensor_range_vec(sensor.value_range.as_slice()),
                },
            ),
            None => Err(FeatureConversionError::NotASensorType),
        },
        None => Err(FeatureConversionError::NoSensor),
    }
}

fn collect_sensor_attrs(features: &[DeviceFeature], m: ButtplugSensorFeatureMessageType) -> (r:
    Option<Vec<SensorDeviceMessageAttributes>>)
    requires
        features_convertible(features_view(features@)),
    ensures
        opt_sensors_view(r) == non_empty(sensor_attrs(features_view(features@), m)),
{
    let ghost fs = features_view(features@);
    let mut attrs: Vec<SensorDeviceMessageAttributes> = Vec::new();
    let mut i: usize = 0;
    while i < features.len()
        invariant
            i <= features@.len(),
            fs == features_view(features@),
            features_convertible(fs),
            sensors_view(attrs@) == sensor_attrs(fs.subrange(0, i as int), m),
        decreases features@.len() - i,
    {
        let f = &features[i];
        assert(fs.subrange(0, i + 1).drop_last() =~= fs.subrange(0, i as int));
        assert(fs.subrange(0, i + 1).last() == f@);
        let selected = match &f.sensor {
            Some(s) => sensor_accepts(s, m),
            None => false,
        };
        if selected {
            assert(sensor_selects(fs[i as int], m));
            match sensor_from_feature(f) {
                Ok(g) => {
                    attrs.push(g);
                    assert(sensors_view(attrs@) =~= sensor_attrs(fs.subrange(0, i as int), m).push(
                        g@,
                    ));
                },
                Err(_) => {
                    assert(false);
                },
            }
        }
        i = i + 1;
    }
    assert(fs.subrange(0, features@.len() as int) =~= fs);
    if attrs.len() > 0 {
        Some(attrs)
    } else {
        None
    }
}

fn find_raw(features: &[DeviceFeature]) -> (r: Option<RawDeviceMessageAttributes>)
    ensures
        opt_raw_view(r) == first_raw(features_view(features@)),
{
    let ghost fs = features_view(features@);
    let mut i: usize = 0;
    while i < features.len()
        invariant
            i <= features@.len(),
            fs == features_view(features@),
            first_raw(fs.subrange(0, i as int)) is None,
        decreases features@.len() - i,
    {
        assert(fs.subrange(0, i + 1).drop_last() =~= fs.subrange(0, i as int));
        assert(fs.subrange(0, i + 1).last() == features[i as int]@);
        match &features[i].raw {
            Some(raw) => {
                let r = raw.clone();
                proof {
                    lemma_first_raw_extend(fs, (i + 1) as int);
                }
                return Some(r);
            },
            None => {},
        }
        i = i + 1;
    }
    assert(fs.subrange(0, features@.len() as int) =~= fs);
    None
}

/// Once a prefix has a raw feature, longer prefixes agree with it.
proof fn lemma_first_raw_extend(fs: Seq<FeatureView>, k: int)
    requires
        0 < k <= fs.len(),
        first_raw(fs.subrange(0, k)) is Some,
    ensures
        first_raw(fs) == first_raw(fs.subrange(0, k)),
    decreases fs.len() - k,
{
    if k < fs.len() {
        assert(fs.subrange(0, k + 1).drop_last() =~= fs.subrange(0, k));
        lemma_first_raw_extend(fs, k + 1);
    } else {
        assert(fs.subrange(0, k) =~= fs);
    }
}

impl ServerDeviceMessageAttributes {
    /// Attributes described by a list of device features.
    pub fn from_features(features: &[DeviceFeature]) -> (r: ServerDeviceMessageAttributes)
        requires
            features_convertible(features_view(features@)),
        ensures
            r@ == spec_attributes_from_features(features_view(features@)),
    {
        let raw_attrs = find_raw(features);
        ServerDeviceMessageAttributes {
            scalar_cmd: collect_actuator_attrs(features, ButtplugActuatorFeatureMessageType::ScalarCmd),
            rotate_cmd: collect_actuator_attrs(features, ButtplugActuatorFeatureMessageType::RotateCmd),
            linear_cmd: collect_actuator_attrs(features, ButtplugActuatorFeatureMessageType::LinearCmd),
            sensor_read_cmd: collect_sensor_attrs(
                features,
                ButtplugSensorFeatureMessageType::SensorReadCmd,
            ),
            sensor_subscribe_cmd: collect_sensor_attrs(
                features,
                ButtplugSensorFeatureMessageType::SensorSubscribeCmd,
            ),
            stop_device_cmd: NullDeviceMessageAttributes {  },
            raw_read_cmd: clone_opt_raw(&raw_attrs),
            raw_subscribe_cmd: clone_opt_raw(&raw_attrs),
            raw_write_cmd: raw_attrs,
            fleshlight_launch_fw12_cmd: None,
            vorze_a10_cyclone_cmd: None,
        }
    }
}

} // verus!

verus! {

/// Builds message attributes one message at a time; unset messages are not allowed.
#[derive(Debug)]
pub struct ServerDeviceMessageAttributesBuilder {
    attrs: ServerDeviceMessageAttributes,
}

impl View for ServerDeviceMessageAttributesBuilder {
    type V = AttributesView;

    closed spec fn view(&self) -> AttributesView {
        self.attrs@
    }
}

impl Default for ServerDeviceMessageAttributesBuilder {
    fn default() -> (r: Self)
        ensures
            r@ == empty_attributes(),
    {
        ServerDeviceMessageAttributesBuilder { attrs: ServerDeviceMessageAttributes::default() }
    }
}

impl ServerDeviceMessageAttributesBuilder {
    pub fn scalar_cmd(&mut self, attrs: &[ServerGenericDeviceMessageAttributes]) -> (r: &Self)
        ensures
            final(self)@ == (AttributesView { scalar_cmd: Some(generics_view(attrs@)), ..old(self)@ }),
            r@ == final(self)@,
    {
        self.attrs.scalar_cmd = Some(clone_generics(attrs));
        self
    }

    pub fn rotate_cmd(&mut self, attrs: &[ServerGenericDeviceMessageAttributes]) -> (r: &Self)
        ensures
            final(self)@ == (AttributesView { rotate_cmd: Some(generics_view(attrs@)), ..old(self)@ }),
            r@ == final(self)@,
    {
        self.attrs.rotate_cmd = Some(clone_generics(attrs));
        self
    }

    pub fn linear_cmd(&mut self, attrs: &[ServerGenericDeviceMessageAttributes]) -> (r: &Self)
        ensures
            final(self)@ == (AttributesView { linear_cmd: Some(generics_view(attrs@)), ..old(self)@ }),
            r@ == final(self)@,
    {
        self.attrs.linear_cmd = Some(clone_generics(attrs));
        self
    }

    pub fn sensor_read_cmd(&mut self, attrs: &[SensorDeviceMessageAttributes]) -> (r: &Self)
        ensures
            final(self)@ == (AttributesView {
                sensor_read_cmd: Some(sensors_view(attrs@)),
                ..old(self)@
            }),
            r@ == final(self)@,
    {
        self.attrs.sensor_read_cmd = Some(clone_sensors(attrs));
        self
    }

    pub fn sensor_subscribe_cmd(&mut self, attrs: &[SensorDeviceMessageAttributes]) -> (r: &Self)
        ensures
            final(self)@ == (AttributesView {
                sensor_subscribe_cmd: Some(sensors_view(attrs@)),
                ..old(self)@
            }),
            r@ == final(self)@,
    {
        self.attrs.sensor_subscribe_cmd = Some(clone_sensors(attrs));
        self
    }

    pub fn raw_read_cmd(&mut self, endpoints: &[Endpoint]) -> (r: &Self)
        ensures
            final(self)@ == (AttributesView { raw_read_cmd: Some(endpoints@), ..old(self)@ }),
            r@ == final(self)@,
    {
        self.attrs.raw_read_cmd = Some(RawDeviceMessageAttributes::new(endpoints));
        self
    }

    pub fn raw_write_cmd(&mut self, endpoints: &[Endpoint]) -> (r: &Self)
        ensures
            final(self)@ == (AttributesView { raw_write_cmd: Some(endpoints@), ..old(self)@ }),
            r@ == final(self)@,
    {
        self.attrs.raw_write_cmd = Some(RawDeviceMessageAttributes::new(endpoints));
        self
    }

    pub fn raw_subscribe_cmd(&mut self, endpoints: &[Endpoint]) -> (r: &Self)
        ensures
            final(self)@ == (AttributesView { raw_subscribe_cmd: Some(endpoints@), ..old(self)@ }),
            r@ == final(self)@,
    {
        self.attrs.raw_subscribe_cmd = Some(RawDeviceMessageAttributes::new(endpoints));
        self
    }

    /// The attributes built so far.
    pub fn finish(&self) -> (r: ServerDeviceMessageAttributes)
        ensures
            r@ == self@,
    {
        self.attrs.clone()
    }
}

/// Abstract value of a device's protocol attributes.
pub struct ProtocolAttributesView {
    pub name: Seq<char>,
    pub display_name: Option<Seq<char>>,
    pub message_attributes: AttributesView,
}

/// Abstract value of an optional string.
pub open spec fn opt_string_view(o: Option<String>) -> Option<Seq<char>> {
    match o {
        Some(s) => Some(s@),
        None => None,
    }
}

/// Copies an optional string.
pub fn clone_opt_string(o: &Option<String>) -> (r: Option<String>)
    ensures
        opt_string_view(r) == opt_string_view(*o),
{
    match o {
        Some(s) => Some(s.clone()),
        None => None,
    }
}

/// What a device is called and which messages it accepts.
#[derive(Debug)]
pub struct ProtocolDeviceAttributes {
    name: String,
    display_name: Option<String>,
    message_attributes: ServerDeviceMessageAttributes,
}

impl View for ProtocolDeviceAttributes {
    type V = ProtocolAttributesView;

    closed spec fn view(&self) -> ProtocolAttributesView {
        ProtocolAttributesView {
            name: self.name@,
            display_name: opt_string_view(self.display_name),
            message_attributes: self.message_attributes@,
        }
    }
}

impl Clone for ProtocolDeviceAttributes {
    fn clone(&self) -> (r: Self)
        ensures
            r@ == self@,
    {
        ProtocolDeviceAttributes {
            name: self.name.clone(),
            display_name: clone_opt_string(&self.display_name),
            message_attributes: self.message_attributes.clone(),
        }
    }
}

impl ProtocolDeviceAttributes {
    pub fn new(
        name: &str,
        display_name: &Option<String>,
        message_attributes: &ServerDeviceMessageAttributes,
    ) -> (r: Self)
        ensures
            r@ == (ProtocolAttributesView {
                name: name@,
                display_name: opt_string_view(*display_name),
                message_attributes: message_attributes@,
            }),
    {
        ProtocolDeviceAttributes {
            name: name.to_owned(),
            display_name: clone_opt_string(display_name),
            message_attributes: message_attributes.clone(),
        }
    }

    pub fn name(&self) -> (r: &String)
        ensures
            r@ == self@.name,
    {
        &self.name
    }

    pub fn display_name(&self) -> (r: &Option<String>)
        ensures
            opt_string_view(*r) == self@.display_name,
    {
        &self.display_name
    }

    pub fn message_attributes(&self) -> (r: &ServerDeviceMessageAttributes)
        ensures
            r@ == self@.message_attributes,
    {
        &self.message_attributes
    }

    /// Whether the device accepts messages of the given type.
    pub fn allows_message(&self, message_type: &ButtplugDeviceMessageType) -> (r: bool)
        ensures
            r == spec_message_allowed(self@.message_attributes, *message_type),
    {
        self.message_attributes.message_allowed(message_type)
    }

    /// Allows raw read, write and subscribe access to the given endpoints.
    pub fn add_raw_messages(&mut self, endpoints: &[Endpoint])
        ensures
            final(self)@ == (ProtocolAttributesView {
                message_attributes: spec_with_raw(old(self)@.message_attributes, endpoints@),
                ..old(self)@
            }),
    {
        self.message_attributes.add_raw_messages(endpoints);
    }
}

/// Converting an actuator feature keeps the feature's description, its kind (the actuator
/// type has the feature type's name) and its step range and limit.
pub proof fn lemma_generic_from_feature_keeps_feature(f: FeatureView)
    ensures
        spec_generic_from_feature(f) is Ok ==> ({
            let g = spec_generic_from_feature(f)->Ok_0;
            &&& f.actuator is Some
            &&& g.feature_descriptor == f.description
            &&& actuator_type_name(g.actuator_type) == feature_type_name(f.feature_type)
            &&& g.step_range == f.actuator->Some_0.step_range
            &&& g.step_limit == f.actuator->Some_0.step_limit
        }),
{
    lemma_actuator_type_keeps_name(f.feature_type);
}

/// Layering a child over a parent: every message the child defines takes the child's
/// attributes, every other message keeps the parent's, and a message without parameters is
/// allowed when either layer allows it.
pub proof fn lemma_merge_prefers_child(parent: AttributesView, child: AttributesView)
    ensures
        ({
            let m = spec_merge(parent, child);
            &&& child.scalar_cmd is Some ==> m.scalar_cmd == child.scalar_cmd
            &&& child.scalar_cmd is None ==> m.scalar_cmd == parent.scalar_cmd
            &&& child.rotate_cmd is Some ==> m.rotate_cmd == child.rotate_cmd
            &&& child.rotate_cmd is None ==> m.rotate_cmd == parent.rotate_cmd
            &&& child.linear_cmd is Some ==> m.linear_cmd == child.linear_cmd
            &&& child.linear_cmd is None ==> m.linear_cmd == parent.linear_cmd
            &&& child.sensor_read_cmd is Some ==> m.sensor_read_cmd == child.sensor_read_cmd
            &&& child.sensor_read_cmd is None ==> m.sensor_read_cmd == parent.sensor_read_cmd
            &&& child.sensor_subscribe_cmd is Some ==> m.sensor_subscribe_cmd == child.sensor_subscribe_cmd
            &&& child.sensor_subscribe_cmd is None ==> m.sensor_subscribe_cmd == parent.sensor_subscribe_cmd
            &&& child.raw_read_cmd is Some ==> m.raw_read_cmd == child.raw_read_cmd
            &&& child.raw_read_cmd is None ==> m.raw_read_cmd == parent.raw_read_cmd
            &&& child.raw_write_cmd is Some ==> m.raw_write_cmd == child.raw_write_cmd
            &&& child.raw_write_cmd is None ==> m.raw_write_cmd == parent.raw_write_cmd
            &&& child.raw_subscribe_cmd is Some ==> m.raw_subscribe_cmd == child.raw_subscribe_cmd
            &&& child.raw_subscribe_cmd is None ==> m.raw_subscribe_cmd == parent.raw_subscribe_cmd
            &&& m.fleshlight_launch_fw12_cmd == (child.fleshlight_launch_fw12_cmd
                || parent.fleshlight_launch_fw12_cmd)
            &&& m.vorze_a10_cyclone_cmd == (child.vorze_a10_cyclone_cmd || parent.vorze_a10_cyclone_cmd)
        }),
{
}

/// Each message with parameters is allowed exactly when the attributes for that message are
/// present: scalar (and the vibrate messages) by the scalar attributes, rotation by the rotation
/// attributes, linear movement by the linear attributes, sensor reads and subscriptions by the
/// sensor attributes, and raw access by the raw attributes; stopping is always allowed.
pub proof fn lemma_message_allowed_by_attributes(a: AttributesView)
    ensures
        spec_message_allowed(a, ButtplugDeviceMessageType::ScalarCmd) == a.scalar_cmd is Some,
        spec_message_allowed(a, ButtplugDeviceMessageType::VibrateCmd) == a.scalar_cmd is Some,
        spec_message_allowed(a, ButtplugDeviceMessageType::RotateCmd) == a.rotate_cmd is Some,
        spec_message_allowed(a, ButtplugDeviceMessageType::LinearCmd) == a.linear_cmd is Some,
        spec_message_allowed(a, ButtplugDeviceMessageType::SensorReadCmd) == a.sensor_read_cmd is Some,
        spec_message_allowed(a, ButtplugDeviceMessageType::SensorSubscribeCmd) == a.sensor_subscribe_cmd is Some,
        spec_message_allowed(a, ButtplugDeviceMessageType::RawReadCmd) == a.raw_read_cmd is Some,
        spec_message_allowed(a, ButtplugDeviceMessageType::RawWriteCmd) == a.raw_write_cmd is Some,
        spec_message_allowed(a, ButtplugDeviceMessageType::RawSubscribeCmd) == a.raw_subscribe_cmd is Some,
        spec_message_allowed(a, ButtplugDeviceMessageType::StopDeviceCmd),
{
}

/// Some feature accepts actuator message `m` exactly when the attributes built from the features
/// list some, and then each listed attribute comes from a feature that accepts `m`.
proof fn lemma_actuator_attrs_nonempty(fs: Seq<FeatureView>, m: ButtplugActuatorFeatureMessageType)
    ensures
        actuator_attrs(fs, m).len() > 0 <==> exists|i: int| 0 <= i < fs.len() && #[trigger] actuator_selects(fs[i], m),
    decreases fs.len(),
{
    if fs.len() > 0 {
        let prev = fs.drop_last();
        lemma_actuator_attrs_nonempty(prev, m);
        if exists|i: int| 0 <= i < prev.len() && #[trigger] actuator_selects(prev[i], m) {
            let i = choose|i: int| 0 <= i < prev.len() && #[trigger] actuator_selects(prev[i], m);
            assert(fs[i] == prev[i]);
        }
        if exists|i: int| 0 <= i < fs.len() && #[trigger] actuator_selects(fs[i], m) {
            let i = choose|i: int| 0 <= i < fs.len() && #[trigger] actuator_selects(fs[i], m);
            if i < fs.len() - 1 {
                assert(prev[i] == fs[i]);
            }
        }
    }
}

/// Attributes built from features allow scalar, rotation and linear messages exactly when some
/// feature's actuator accepts that message.
pub proof fn lemma_features_allow_actuator_messages(fs: Seq<FeatureView>)
    ensures
        spec_message_allowed(spec_attributes_from_features(fs), ButtplugDeviceMessageType::ScalarCmd)
            <==> exists|i: int|
            0 <= i < fs.len() && #[trigger] actuator_selects(fs[i], ButtplugActuatorFeatureMessageType::ScalarCmd),
        spec_message_allowed(spec_attributes_from_features(fs), ButtplugDeviceMessageType::RotateCmd)
            <==> exists|i: int|
            0 <= i < fs.len() && #[trigger] actuator_selects(fs[i], ButtplugActuatorFeatureMessageType::RotateCmd),
        spec_message_allowed(spec_attributes_from_features(fs), ButtplugDeviceMessageType::LinearCmd)
            <==> exists|i: int|
            0 <= i < fs.len() && #[trigger] actuator_selects(fs[i], ButtplugActuatorFeatureMessageType::LinearCmd),
{
    lemma_actuator_attrs_nonempty(fs, ButtplugActuatorFeatureMessageType::ScalarCmd);
    lemma_actuator_attrs_nonempty(fs, ButtplugActuatorFeatureMessageType::RotateCmd);
    lemma_actuator_attrs_nonempty(fs, ButtplugActuatorFeatureMessageType::LinearCmd);
}

/// Layering attributes over the empty set, or the empty set over attributes, changes nothing.
pub proof fn lemma_merge_identity(a: AttributesView)
    ensures
        spec_merge(empty_attributes(), a) == a,
        spec_merge(a, empty_attributes()) == a,
{
}

/// Layering attributes over themselves changes nothing.
pub proof fn lemma_merge_idempotent(a: AttributesView)
    ensures
        spec_merge(a, a) == a,
{
}

/// Layering is associative: layering `c` over `b` and the result over `a` is the same as
/// layering `c` over the layering of `b` over `a`.
pub proof fn lemma_merge_associative(a: AttributesView, b: AttributesView, c: AttributesView)
    ensures
        spec_merge(a, spec_merge(b, c)) == spec_merge(spec_merge(a, b), c),
{
}

/// Every message that the child layer allows stays allowed after layering it over any parent.
pub proof fn lemma_merge_keeps_child_messages(
    parent: AttributesView,
    child: AttributesView,
    t: ButtplugDeviceMessageType,
)
    requires
        spec_message_allowed(child, t),
    ensures
        spec_message_allowed(spec_merge(parent, child), t),
{
}

/// After raw messages are added, every raw message is allowed, and every other message keeps
/// its previous answer.
pub proof fn lemma_raw_messages_allowed(a: AttributesView, endpoints: Seq<Endpoint>, t: ButtplugDeviceMessageType)
    ensures
        (t == ButtplugDeviceMessageType::RawReadCmd || t == ButtplugDeviceMessageType::RawWriteCmd
            || t == ButtplugDeviceMessageType::RawSubscribeCmd || t
            == ButtplugDeviceMessageType::RawUnsubscribeCmd) ==> spec_message_allowed(
            spec_with_raw(a, endpoints),
            t,
        ),
        !(t == ButtplugDeviceMessageType::RawReadCmd || t == ButtplugDeviceMessageType::RawWriteCmd
            || t == ButtplugDeviceMessageType::RawSubscribeCmd || t
            == ButtplugDeviceMessageType::RawUnsubscribeCmd) ==> spec_message_allowed(
            spec_with_raw(a, endpoints),
            t,
        ) == spec_message_allowed(a, t),
{
}

} // verus!

verus! {

/// Whether a single feature can be turned into the attributes of every message it accepts.
pub open spec fn feature_convertible(f: FeatureView) -> bool {
    &&& (f.actuator matches Some(a) && a.messages.len() > 0 ==> spec_actuator_type(f.feature_type) is Some)
    &&& (f.sensor matches Some(s) && s.messages.len() > 0 ==> spec_sensor_type(f.feature_type) is Some)
}

proof fn lemma_features_convertible_each(fs: Seq<FeatureView>)
    ensures
        features_convertible(fs) <==> forall|i: int| 0 <= i < fs.len() ==> #[trigger] feature_convertible(fs[i]),
{
    if features_convertible(fs) {
        assert forall|i: int| 0 <= i < fs.len() implies #[trigger] feature_convertible(fs[i]) by {
            if let Some(a) = fs[i].actuator {
                if a.messages.len() > 0 {
                    assert(actuator_selects(fs[i], a.messages[0]));
                }
            }
            if let Some(s) = fs[i].sensor {
                if s.messages.len() > 0 {
                    assert(sensor_selects(fs[i], s.messages[0]));
                }
            }
        }
    }
    if forall|i: int| 0 <= i < fs.len() ==> #[trigger] feature_convertible(fs[i]) {
        assert forall|i: int, m: ButtplugActuatorFeatureMessageType|
            0 <= i < fs.len() && #[trigger] actuator_selects(fs[i], m) implies spec_generic_from_feature(
            fs[i],
        ) is Ok by {
            assert(feature_convertible(fs[i]));
            let a = fs[i].actuator->Some_0;
            assert(a.messages.contains(m));
        }
        assert forall|i: int, m: ButtplugSensorFeatureMessageType|
            0 <= i < fs.len() && #[trigger] sensor_selects(fs[i], m) implies spec_sensor_from_feature(
            fs[i],
        ) is Ok by {
            assert(feature_convertible(fs[i]));
            let s = fs[i].sensor->Some_0;
            assert(s.messages.contains(m));
        }
    }
}

/// Whether every feature of the list can be turned into the attributes of the messages it
/// accepts.
pub fn features_are_convertible(features: &[DeviceFeature]) -> (r: bool)
    ensures
        r == features_convertible(features_view(features@)),
{
    let ghost fs = features_view(features@);
    proof {
        lemma_features_convertible_each(fs);
    }
    let mut i: usize = 0;
    while i < features.len()
        invariant
            i <= features@.len(),
            fs == features_view(features@),
            features_convertible(fs) <==> forall|j: int|
                0 <= j < fs.len() ==> #[trigger] feature_convertible(fs[j]),
            forall|j: int| 0 <= j < i ==> #[trigger] feature_convertible(fs[j]),
        decreases features@.len() - i,
    {
        let f = &features[i];
        assert(fs[i as int] == f@);
        match &f.actuator {
            Some(a) => {
                if a.messages.len() > 0 && actuator_type_of(f.feature_type).is_none() {
                    assert(!feature_convertible(fs[i as int]));
                    return false;
                }
            },
            None => {},
        }
        match &f.sensor {
            Some(s) => {
                if s.messages.len() > 0 && sensor_type_of(f.feature_type).is_none() {
                    assert(!feature_convertible(fs[i as int]));
                    return false;
                }
            },
            None => {},
        }
        i = i + 1;
    }
    true
}

impl ServerDeviceMessageAttributes {
    /// Attributes described by a list of device features, or `None` when a feature accepts an
    /// actuator (sensor) message but its type names no actuator (sensor).
    pub fn try_from_features(features: &[DeviceFeature]) -> (r: Option<ServerDeviceMessageAttributes>)
        ensures
            r is Some <==> features_convertible(features_view(features@)),
            r matches Some(a) ==> a@ == spec_attributes_from_features(features_view(features@)),
    {
        if features_are_convertible(features) {
            Some(ServerDeviceMessageAttributes::from_features(features))
        } else {
            None
        }
    }
}

} // verus!
