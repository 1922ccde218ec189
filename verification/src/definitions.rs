//! Device definitions: what the configuration says of a device model (its name and features) and
//! what a user has set for a particular device (display name, allow and deny marks, index).
use vstd::prelude::*;
use crate::messages::{feature_vec, DeviceFeature, Endpoint, FeatureView, FeatureType};
use crate::messages::{ButtplugActuatorFeatureMessageType, ButtplugSensorFeatureMessageType};
use crate::message_attributes::{
    actuator_selects, first_raw, sensor_selects, spec_generic_from_feature, spec_sensor_from_feature,
    clone_opt_string, features_convertible, features_view, opt_string_view,
    spec_attributes_from_features, ProtocolAttributesView, ProtocolDeviceAttributes,
    ServerDeviceMessageAttributes,
};

verus! {

/// Settings of a device model.
#[derive(Debug, Clone, Copy, PartialEq, Eq, Structural)]
pub struct DeviceSettings {
    feature_timing_gap: Option<u32>,
}

impl Default for DeviceSettings {
    fn default() -> (r: Self)
        ensures
            r.spec_feature_timing_gap() is None,
    {
        DeviceSettings { feature_timing_gap: None }
    }
}

impl DeviceSettings {
    pub fn new(feature_timing_gap: Option<u32>) -> (r: Self)
        ensures
            r.spec_feature_timing_gap() == feature_timing_gap,
    {
        DeviceSettings { feature_timing_gap }
    }

    pub closed spec fn spec_feature_timing_gap(&self) -> Option<u32> {
        self.feature_timing_gap
    }

    pub fn feature_timing_gap(&self) -> (r: Option<u32>)
        ensures
            r == self.spec_feature_timing_gap(),
    {
        self.feature_timing_gap
    }

    /// Whether no setting is made.
    pub fn is_none(&self) -> (r: bool)
        ensures
            r == self.spec_feature_timing_gap() is None,
    {
        self.feature_timing_gap.is_none()
    }
}

/// Settings of a feature of a device model.
#[derive(Debug, Clone, Copy, PartialEq, Eq, Structural)]
pub struct BaseFeatureSettings {
    alt_protocol_index: Option<u32>,
}

impl Default for BaseFeatureSettings {
    fn default() -> (r: Self)
        ensures
            r.spec_alt_protocol_index() is None,
    {
        BaseFeatureSettings { alt_protocol_index: None }
    }
}

impl BaseFeatureSettings {
    pub fn new(alt_protocol_index: Option<u32>) -> (r: Self)
        ensures
            r.spec_alt_protocol_index() == alt_protocol_index,
    {
        BaseFeatureSettings { alt_protocol_index }
    }

    pub closed spec fn spec_alt_protocol_index(&self) -> Option<u32> {
        self.alt_protocol_index
    }

    pub fn alt_protocol_index(&self) -> (r: Option<u32>)
        ensures
            r == self.spec_alt_protocol_index(),
    {
        self.alt_protocol_index
    }

    /// Whether no setting is made.
    pub fn is_none(&self) -> (r: bool)
        ensures
            r == self.spec_alt_protocol_index() is None,
    {
        self.alt_protocol_index.is_none()
    }
}

/// A user's settings of a feature of a device.
#[derive(Debug, Clone, Copy, PartialEq, Eq, Structural)]
pub struct UserFeatureSettings {
    reverse_position: Option<bool>,
}

impl Default for UserFeatureSettings {
    fn default() -> (r: Self)
        ensures
            r.spec_reverse_position() is None,
    {
        UserFeatureSettings { reverse_position: None }
    }
}

impl UserFeatureSettings {
    pub fn new(reverse_position: Option<bool>) -> (r: Self)
        ensures
            r.spec_reverse_position() == reverse_position,
    {
        UserFeatureSettings { reverse_position }
    }

    pub closed spec fn spec_reverse_position(&self) -> Option<bool> {
        self.reverse_position
    }

    pub fn reverse_position(&self) -> (r: Option<bool>)
        ensures
            r == self.spec_reverse_position(),
    {
        self.reverse_position
    }

    /// Whether no setting is made.
    pub fn is_none(&self) -> (r: bool)
        ensures
            r == self.spec_reverse_position() is None,
    {
        self.reverse_position.is_none()
    }
}

/// Abstract value of a user's customisation of a device.
pub struct CustomizationView {
    pub display_name: Option<Seq<char>>,
    pub allow: bool,
    pub deny: bool,
    pub index: u32,
}

/// A user's customisation of a device: the name to show, whether the device is on the allow or
/// the deny list, and the device index it keeps.
#[derive(Debug)]
pub struct UserDeviceCustomization {
    display_name: Option<String>,
    allow: bool,
    deny: bool,
    index: u32,
}

impl View for UserDeviceCustomization {
    type V = CustomizationView;

    closed spec fn view(&self) -> CustomizationView {
        CustomizationView {
            display_name: opt_string_view(self.display_name),
            allow: self.allow,
            deny: self.deny,
            index: self.index,
        }
    }
}

impl Clone for UserDeviceCustomization {
    fn clone(&self) -> (r: Self)
        ensures
            r@ == self@,
    {
        UserDeviceCustomization {
            display_name: clone_opt_string(&self.display_name),
            allow: self.allow,
            deny: self.deny,
            index: self.index,
        }
    }
}

impl Default for UserDeviceCustomization {
    fn default() -> (r: Self)
        ensures
            r@ == (CustomizationView { display_name: None, allow: false, deny: false, index: 0 }),
    {
        UserDeviceCustomization { display_name: None, allow: false, deny: false, index: 0 }
    }
}

/// The customisation of a device that keeps index `index` and is otherwise left as it comes.
pub open spec fn customization_with_index(index: u32) -> CustomizationView {
    CustomizationView { display_name: None, allow: false, deny: false, index }
}

impl UserDeviceCustomization {
    pub fn new(display_name: &Option<String>, allow: bool, deny: bool, index: u32) -> (r: Self)
        ensures
            r@ == (CustomizationView {
                display_name: opt_string_view(*display_name),
                allow,
                deny,
                index,
            }),
    {
        UserDeviceCustomization { display_name: clone_opt_string(display_name), allow, deny, index }
    }

    /// No display name, neither allowed nor denied, keeping the given index.
    pub fn default_with_index(index: u32) -> (r: Self)
        ensures
            r@ == customization_with_index(index),
    {
        Self::new(&None, false, false, index)
    }

    pub fn display_name(&self) -> (r: &Option<String>)
        ensures
            opt_string_view(*r) == self@.display_name,
    {
        &self.display_name
    }

    pub fn allow(&self) -> (r: bool)
        ensures
            r == self@.allow,
    {
        self.allow
    }

    pub fn deny(&self) -> (r: bool)
        ensures
            r == self@.deny,
    {
        self.deny
    }

    pub fn index(&self) -> (r: u32)
        ensures
            r == self@.index,
    {
        self.index
    }
}

/// Abstract value of a model definition.
pub struct BaseDefinitionView {
    pub name: Seq<char>,
    pub features: Seq<FeatureView>,
}

/// What the configuration says of a device model: its name and its features.
#[derive(Debug)]
pub struct BaseDeviceDefinition {
    name: String,
    features: Vec<DeviceFeature>,
}

impl View for BaseDeviceDefinition {
    type V = BaseDefinitionView;

    closed spec fn view(&self) -> BaseDefinitionView {
        BaseDefinitionView { name: self.name@, features: features_view(self.features@) }
    }
}

/// Copies a list of features, keeping each feature's abstract value.
fn clone_features(features: &[DeviceFeature]) -> (r: Vec<DeviceFeature>)
    ensures
        features_view(r@) == features_view(features@),
{
    let r = feature_vec(features);
    assert(features_view(r@) =~= features_view(features@));
    r
}

impl Clone for BaseDeviceDefinition {
    fn clone(&self) -> (r: Self)
        ensures
            r@ == self@,
    {
        BaseDeviceDefinition { name: self.name.clone(), features: clone_features(self.features.as_slice()) }
    }
}

impl BaseDeviceDefinition {
    pub fn new(name: &str, features: &[DeviceFeature]) -> (r: Self)
        ensures
            r@ == (BaseDefinitionView { name: name@, features: features_view(features@) }),
    {
        BaseDeviceDefinition { name: name.to_owned(), features: clone_features(features) }
    }

    pub fn name(&self) -> (r: &String)
        ensures
            r@ == self@.name,
    {
        &self.name
    }

    pub fn features(&self) -> (r: &Vec<DeviceFeature>)
        ensures
            features_view(r@) == self@.features,
    {
        &self.features
    }
}

/// Abstract value of a device definition.
pub struct UserDefinitionView {
    pub name: Seq<char>,
    pub features: Seq<FeatureView>,
    pub user_config: CustomizationView,
}

/// The definition of a particular device: name and features, with the user's customisation.
#[derive(Debug)]
pub struct UserDeviceDefinition {
    name: String,
    features: Vec<DeviceFeature>,
    user_config: UserDeviceCustomization,
}

impl View for UserDeviceDefinition {
    type V = UserDefinitionView;

    closed spec fn view(&self) -> UserDefinitionView {
        UserDefinitionView {
            name: self.name@,
            features: features_view(self.features@),
            user_config: self.user_config@,
        }
    }
}

impl Clone for UserDeviceDefinition {
    fn clone(&self) -> (r: Self)
        ensures
            r@ == self@,
    {
        UserDeviceDefinition {
            name: self.name.clone(),
            features: clone_features(self.features.as_slice()),
            user_config: self.user_config.clone(),
        }
    }
}

/// The definition a device gets from its model's definition: the model's name and features,
/// with the default customisation keeping `index`.
pub open spec fn definition_from_base(base: BaseDefinitionView, index: u32) -> UserDefinitionView {
    UserDefinitionView {
        name: base.name,
        features: base.features,
        user_config: customization_with_index(index),
    }
}

/// The feature that gives raw access to `endpoints`.
pub open spec fn raw_feature(endpoints: Seq<Endpoint>) -> FeatureView {
    FeatureView {
        description: Seq::<char>::empty(),
        feature_type: FeatureType::Raw,
        actuator: None,
        sensor: None,
        raw: Some(endpoints),
    }
}

/// A definition with raw access to `endpoints` added as one more feature.
pub open spec fn definition_with_raw(d: UserDefinitionView, endpoints: Seq<Endpoint>) -> UserDefinitionView {
    UserDefinitionView { features: d.features.push(raw_feature(endpoints)), ..d }
}

/// The protocol attributes a definition describes: its name, its display name, and the message
/// attributes of its features.
pub open spec fn definition_attributes(d: UserDefinitionView) -> ProtocolAttributesView {
    ProtocolAttributesView {
        name: d.name,
        display_name: d.user_config.display_name,
        message_attributes: spec_attributes_from_features(d.features),
    }
}

impl UserDeviceDefinition {
    pub fn new(name: &str, features: &[DeviceFeature], user_config: &UserDeviceCustomization) -> (r:
        Self)
        ensures
            r@ == (UserDefinitionView {
                name: name@,
                features: features_view(features@),
                user_config: user_config@,
            }),
    {
        UserDeviceDefinition {
            name: name.to_owned(),
            features: clone_features(features),
            user_config: user_config.clone(),
        }
    }

    /// The definition of a device of model `def`, with the default customisation keeping
    /// `index`.
    pub fn new_from_base_definition(def: &BaseDeviceDefinition, index: u32) -> (r: Self)
        ensures
            r@ == definition_from_base(def@, index),
    {
        let user_config = UserDeviceCustomization::default_with_index(index);
        UserDeviceDefinition {
            name: def.name.clone(),
            features: clone_features(def.features.as_slice()),
            user_config,
        }
    }

    /// The definition of a device of model `def`, with the default customisation.
    pub fn from_base(def: BaseDeviceDefinition) -> (r: Self)
        ensures
            r@ == definition_from_base(def@, 0),
    {
        let user_config = UserDeviceCustomization::default();
        UserDeviceDefinition { name: def.name, features: def.features, user_config }
    }

    pub fn name(&self) -> (r: &String)
        ensures
            r@ == self@.name,
    {
        &self.name
    }

    pub fn features(&self) -> (r: &Vec<DeviceFeature>)
        ensures
            features_view(r@) == self@.features,
    {
        &self.features
    }

    pub fn user_config(&self) -> (r: &UserDeviceCustomization)
        ensures
            r@ == self@.user_config,
    {
        &self.user_config
    }

    pub fn set_name(&mut self, name: String)
        ensures
            final(self)@ == (UserDefinitionView { name: name@, ..old(self)@ }),
    {
        self.name = name;
    }

    pub fn set_features(&mut self, features: Vec<DeviceFeature>)
        ensures
            final(self)@ == (UserDefinitionView { features: features_view(features@), ..old(self)@ }),
    {
        self.features = features;
    }

    pub fn set_user_config(&mut self, user_config: UserDeviceCustomization)
        ensures
            final(self)@ == (UserDefinitionView { user_config: user_config@, ..old(self)@ }),
    {
        self.user_config = user_config;
    }

    /// Adds a feature that gives raw access to the given endpoints.
    pub fn add_raw_messages(&mut self, endpoints: &[Endpoint])
        ensures
            final(self)@ == definition_with_raw(old(self)@, endpoints@),
    {
        let f = DeviceFeature::new_raw_feature(endpoints);
        self.features.push(f);
        assert(features_view(self.features@) =~= features_view(old(self).features@).push(
            raw_feature(endpoints@),
        ));
    }

    /// The protocol attributes this definition describes, or `None` when one of its features
    /// accepts an actuator (sensor) message but its type names no actuator (sensor).
    pub fn protocol_attributes(&self) -> (r: Option<ProtocolDeviceAttributes>)
        ensures
            r is Some <==> features_convertible(self@.features),
            r matches Some(a) ==> a@ == definition_attributes(self@),
    {
        match ServerDeviceMessageAttributes::try_from_features(self.features.as_slice()) {
            Some(attrs) => Some(
                ProtocolDeviceAttributes::new(
                    self.name.as_str(),
                    &self.user_config.display_name,
                    &attrs,
                ),
            ),
            None => None,
        }
    }
}

} // verus!

verus! {

/// Adding raw access to a definition keeps it convertible to protocol attributes, and the
/// attributes then allow raw reads, writes and subscriptions: to `endpoints`, unless the
/// definition already gave raw access.
pub proof fn lemma_raw_definition_allows_raw(d: UserDefinitionView, endpoints: Seq<Endpoint>)
    ensures
        features_convertible(definition_with_raw(d, endpoints).features) == features_convertible(d.features),
        definition_attributes(definition_with_raw(d, endpoints)).message_attributes.raw_read_cmd
            == (if first_raw(d.features) is Some { first_raw(d.features) } else { Some(endpoints) }),
        definition_attributes(definition_with_raw(d, endpoints)).message_attributes.raw_write_cmd
            is Some,
        definition_attributes(definition_with_raw(d, endpoints)).message_attributes.raw_subscribe_cmd
            is Some,
{
    let fs = d.features;
    let gs = fs.push(raw_feature(endpoints));
    assert(gs.drop_last() =~= fs);
    assert(features_convertible(gs) == features_convertible(fs)) by {
        if features_convertible(fs) {
            assert forall|i: int, m: ButtplugActuatorFeatureMessageType|
                0 <= i < gs.len() && #[trigger] actuator_selects(gs[i], m) implies spec_generic_from_feature(
                gs[i],
            ) is Ok by {
                assert(i < fs.len());
                assert(gs[i] == fs[i]);
            }
            assert forall|i: int, m: ButtplugSensorFeatureMessageType|
                0 <= i < gs.len() && #[trigger] sensor_selects(gs[i], m) implies spec_sensor_from_feature(
                gs[i],
            ) is Ok by {
                assert(i < fs.len());
                assert(gs[i] == fs[i]);
            }
        }
        if features_convertible(gs) {
            assert forall|i: int, m: ButtplugActuatorFeatureMessageType|
                0 <= i < fs.len() && #[trigger] actuator_selects(fs[i], m) implies spec_generic_from_feature(
                fs[i],
            ) is Ok by {
                assert(gs[i] == fs[i]);
                assert(actuator_selects(gs[i], m));
            }
            assert forall|i: int, m: ButtplugSensorFeatureMessageType|
                0 <= i < fs.len() && #[trigger] sensor_selects(fs[i], m) implies spec_sensor_from_feature(
                fs[i],
            ) is Ok by {
                assert(gs[i] == fs[i]);
                assert(sensor_selects(gs[i], m));
            }
        }
    }
}

} // verus!
