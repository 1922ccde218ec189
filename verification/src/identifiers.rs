//! Identifiers of devices: the protocol a device speaks, the protocol's name for the model, and
//! (for devices that have connected) the device's bus address.
use vstd::prelude::*;
use vstd::std_specs::cmp::PartialEqSpecImpl;
use crate::message_attributes::{clone_opt_string, opt_string_view};

verus! {

/// Equality of two optional strings by their contents.
pub fn opt_string_eq(a: &Option<String>, b: &Option<String>) -> (r: bool)
    ensures
        r == (opt_string_view(*a) == opt_string_view(*b)),
{
    match (a, b) {
        (Some(x), Some(y)) => *x == *y,
        (None, None) => true,
        _ => false,
    }
}

/// Abstract value of a device identifier.
pub struct UserIdView {
    pub protocol: Seq<char>,
    pub attributes_identifier: Option<Seq<char>>,
    pub address: Seq<char>,
}

/// Identifies a device that is or was connected: its protocol, the protocol's identifier for the
/// model (if the protocol has one), and its address on its bus.
#[derive(Debug, Hash)]
pub struct UserDeviceIdentifier {
    protocol: String,
    attributes_identifier: Option<String>,
    address: String,
}

impl View for UserDeviceIdentifier {
    type V = UserIdView;

    closed spec fn view(&self) -> UserIdView {
        UserIdView {
            protocol: self.protocol@,
            attributes_identifier: opt_string_view(self.attributes_identifier),
            address: self.address@,
        }
    }
}

impl Clone for UserDeviceIdentifier {
    fn clone(&self) -> (r: Self)
        ensures
            r@ == self@,
    {
        UserDeviceIdentifier {
            protocol: self.protocol.clone(),
            attributes_identifier: clone_opt_string(&self.attributes_identifier),
            address: self.address.clone(),
        }
    }
}

impl UserDeviceIdentifier {
    pub fn new(address: &str, protocol: &str, identifier: &Option<String>) -> (r: Self)
        ensures
            r@ == (UserIdView {
                protocol: protocol@,
                attributes_identifier: opt_string_view(*identifier),
                address: address@,
            }),
    {
        UserDeviceIdentifier {
            protocol: protocol.to_owned(),
            attributes_identifier: clone_opt_string(identifier),
            address: address.to_owned(),
        }
    }

    pub fn protocol(&self) -> (r: &String)
        ensures
            r@ == self@.protocol,
    {
        &self.protocol
    }

    pub fn attributes_identifier(&self) -> (r: &Option<String>)
        ensures
            opt_string_view(*r) == self@.attributes_identifier,
    {
        &self.attributes_identifier
    }

    pub fn address(&self) -> (r: &String)
        ensures
            r@ == self@.address,
    {
        &self.address
    }
}

impl PartialEq for UserDeviceIdentifier {
    fn eq(&self, other: &Self) -> (r: bool) {
        self.protocol == other.protocol && opt_string_eq(
            &self.attributes_identifier,
            &other.attributes_identifier,
        ) && self.address == other.address
    }
}

impl PartialEqSpecImpl for UserDeviceIdentifier {
    open spec fn obeys_eq_spec() -> bool {
        true
    }

    open spec fn eq_spec(&self, other: &Self) -> bool {
        self@ == other@
    }
}

impl Eq for UserDeviceIdentifier {

}

/// Abstract value of a model identifier.
pub struct BaseIdView {
    pub protocol: Seq<char>,
    pub attributes_identifier: Option<Seq<char>>,
}

/// Identifies a device model: its protocol and the protocol's identifier for the model, `None`
/// standing for the protocol's default model.
#[derive(Debug, Hash)]
pub struct BaseDeviceIdentifier {
    protocol: String,
    attributes_identifier: Option<String>,
}

impl View for BaseDeviceIdentifier {
    type V = BaseIdView;

    closed spec fn view(&self) -> BaseIdView {
        BaseIdView {
            protocol: self.protocol@,
            attributes_identifier: opt_string_view(self.attributes_identifier),
        }
    }
}

impl Clone for BaseDeviceIdentifier {
    fn clone(&self) -> (r: Self)
        ensures
            r@ == self@,
    {
        BaseDeviceIdentifier {
            protocol: self.protocol.clone(),
            attributes_identifier: clone_opt_string(&self.attributes_identifier),
        }
    }
}

/// The model identifier of a device identifier: the same protocol and model, without address.
pub open spec fn base_of(u: UserIdView) -> BaseIdView {
    BaseIdView { protocol: u.protocol, attributes_identifier: u.attributes_identifier }
}

impl BaseDeviceIdentifier {
    pub fn new(protocol: &str, attributes_identifier: &Option<String>) -> (r: Self)
        ensures
            r@ == (BaseIdView {
                protocol: protocol@,
                attributes_identifier: opt_string_view(*attributes_identifier),
            }),
    {
        BaseDeviceIdentifier {
            protocol: protocol.to_owned(),
            attributes_identifier: clone_opt_string(attributes_identifier),
        }
    }

    /// The model identifier of a device identifier.
    pub fn from_user_identifier(other: &UserDeviceIdentifier) -> (r: Self)
        ensures
            r@ == base_of(other@),
    {
        BaseDeviceIdentifier {
            protocol: other.protocol.clone(),
            attributes_identifier: clone_opt_string(&other.attributes_identifier),
        }
    }

    pub fn protocol(&self) -> (r: &String)
        ensures
            r@ == self@.protocol,
    {
        &self.protocol
    }

    pub fn attributes_identifier(&self) -> (r: &Option<String>)
        ensures
            opt_string_view(*r) == self@.attributes_identifier,
    {
        &self.attributes_identifier
    }

    /// Whether a device identifier names this model.
    pub fn matches_user_identifier(&self, other: &UserDeviceIdentifier) -> (r: bool)
        ensures
            r == (self@ == base_of(other@)),
    {
        self.protocol == other.protocol && opt_string_eq(
            &self.attributes_identifier,
            &other.attributes_identifier,
        )
    }
}

impl PartialEq for BaseDeviceIdentifier {
    fn eq(&self, other: &Self) -> (r: bool) {
        self.protocol == other.protocol && opt_string_eq(
            &self.attributes_identifier,
            &other.attributes_identifier,
        )
    }
}

impl PartialEqSpecImpl for BaseDeviceIdentifier {
    open spec fn obeys_eq_spec() -> bool {
        true
    }

    open spec fn eq_spec(&self, other: &Self) -> bool {
        self@ == other@
    }
}

impl Eq for BaseDeviceIdentifier {

}

impl PartialEq<UserDeviceIdentifier> for BaseDeviceIdentifier {
    fn eq(&self, other: &UserDeviceIdentifier) -> (r: bool) {
        self.matches_user_identifier(other)
    }
}

impl PartialEqSpecImpl<UserDeviceIdentifier> for BaseDeviceIdentifier {
    open spec fn obeys_eq_spec() -> bool {
        true
    }

    /// A model identifier equals a device identifier that names that model.
    open spec fn eq_spec(&self, other: &UserDeviceIdentifier) -> bool {
        self@ == base_of(other@)
    }
}

} // verus!
