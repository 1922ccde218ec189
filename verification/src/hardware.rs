//! Commands sent to device hardware, and what hardware reports back.
use vstd::prelude::*;
use crate::messages::Endpoint;
use crate::specifier::byte_vec;

verus! {

/// Reads `length` bytes from an endpoint, waiting at most `timeout_ms` milliseconds.
#[derive(Debug, Clone, Copy, PartialEq, Eq, Structural)]
pub struct HardwareReadCmd {
    endpoint: Endpoint,
    length: u32,
    timeout_ms: u32,
}

impl HardwareReadCmd {
    pub fn new(endpoint: Endpoint, length: u32, timeout_ms: u32) -> (r: Self)
        ensures
            r.spec_endpoint() == endpoint,
            r.spec_length() == length,
            r.spec_timeout_ms() == timeout_ms,
    {
        HardwareReadCmd { endpoint, length, timeout_ms }
    }

    pub closed spec fn spec_endpoint(&self) -> Endpoint {
        self.endpoint
    }

    pub closed spec fn spec_length(&self) -> u32 {
        self.length
    }

    pub closed spec fn spec_timeout_ms(&self) -> u32 {
        self.timeout_ms
    }

    pub fn endpoint(&self) -> (r: Endpoint)
        ensures
            r == self.spec_endpoint(),
    {
        self.endpoint
    }

    pub fn length(&self) -> (r: u32)
        ensures
            r == self.spec_length(),
    {
        self.length
    }

    pub fn timeout_ms(&self) -> (r: u32)
        ensures
            r == self.spec_timeout_ms(),
    {
        self.timeout_ms
    }
}

/// Abstract value of a write command.
pub struct WriteView {
    pub endpoint: Endpoint,
    pub data: Seq<u8>,
    pub write_with_response: bool,
}

/// Writes bytes to an endpoint; on Bluetooth LE, `write_with_response` asks for an acknowledged
/// write.
#[derive(Debug)]
pub struct HardwareWriteCmd {
    endpoint: Endpoint,
    data: Vec<u8>,
    write_with_response: bool,
}

impl View for HardwareWriteCmd {
    type V = WriteView;

    closed spec fn view(&self) -> WriteView {
        WriteView { endpoint: self.endpoint, data: self.data@, write_with_response: self.write_with_response }
    }
}

impl Clone for HardwareWriteCmd {
    fn clone(&self) -> (r: Self)
        ensures
            r@ == self@,
    {
        HardwareWriteCmd {
            endpoint: self.endpoint,
            data: byte_vec(self.data.as_slice()),
            write_with_response: self.write_with_response,
        }
    }
}

impl HardwareWriteCmd {
    pub fn new(endpoint: Endpoint, data: Vec<u8>, write_with_response: bool) -> (r: Self)
        ensures
            r@ == (WriteView { endpoint, data: data@, write_with_response }),
    {
        HardwareWriteCmd { endpoint, data, write_with_response }
    }

    pub fn endpoint(&self) -> (r: Endpoint)
        ensures
            r == self@.endpoint,
    {
        self.endpoint
    }

    pub fn data(&self) -> (r: &Vec<u8>)
        ensures
            r@ == self@.data,
    {
        &self.data
    }

    pub fn write_with_response(&self) -> (r: bool)
        ensures
            r == self@.write_with_response,
    {
        self.write_with_response
    }
}

/// Asks to be told of data arriving at an endpoint.
#[derive(Debug, Clone, Copy, PartialEq, Eq, Structural)]
pub struct HardwareSubscribeCmd {
    endpoint: Endpoint,
}

impl HardwareSubscribeCmd {
    pub fn new(endpoint: Endpoint) -> (r: Self)
        ensures
            r.spec_endpoint() == endpoint,
    {
        HardwareSubscribeCmd { endpoint }
    }

    pub closed spec fn spec_endpoint(&self) -> Endpoint {
        self.endpoint
    }

    pub fn endpoint(&self) -> (r: Endpoint)
        ensures
            r == self.spec_endpoint(),
    {
        self.endpoint
    }
}

/// Stops telling of data arriving at an endpoint.
#[derive(Debug, Clone, Copy, PartialEq, Eq, Structural)]
pub struct HardwareUnsubscribeCmd {
    endpoint: Endpoint,
}

impl HardwareUnsubscribeCmd {
    pub fn new(endpoint: Endpoint) -> (r: Self)
        ensures
            r.spec_endpoint() == endpoint,
    {
        HardwareUnsubscribeCmd { endpoint }
    }

    pub closed spec fn spec_endpoint(&self) -> Endpoint {
        self.endpoint
    }

    pub fn endpoint(&self) -> (r: Endpoint)
        ensures
            r == self.spec_endpoint(),
    {
        self.endpoint
    }
}

/// A command for hardware that needs no answer but success.
#[derive(Debug)]
pub enum HardwareCommand {
    Write(HardwareWriteCmd),
    Subscribe(HardwareSubscribeCmd),
    Unsubscribe(HardwareUnsubscribeCmd),
}

impl HardwareCommand {
    /// The endpoint the command is for.
    pub fn endpoint(&self) -> (r: Endpoint)
        ensures
            r == match self {
                HardwareCommand::Write(c) => c@.endpoint,
                HardwareCommand::Subscribe(c) => c.spec_endpoint(),
                HardwareCommand::Unsubscribe(c) => c.spec_endpoint(),
            },
    {
        match self {
            HardwareCommand::Write(c) => c.endpoint(),
            HardwareCommand::Subscribe(c) => c.endpoint(),
            HardwareCommand::Unsubscribe(c) => c.endpoint(),
        }
    }
}

impl From<HardwareWriteCmd> for HardwareCommand {
    fn from(msg: HardwareWriteCmd) -> (r: Self) {
        HardwareCommand::Write(msg)
    }
}

impl vstd::std_specs::convert::FromSpecImpl<HardwareWriteCmd> for HardwareCommand {
    open spec fn obeys_from_spec() -> bool {
        true
    }

    open spec fn from_spec(msg: HardwareWriteCmd) -> Self {
        HardwareCommand::Write(msg)
    }
}

impl From<HardwareSubscribeCmd> for HardwareCommand {
    fn from(msg: HardwareSubscribeCmd) -> (r: Self) {
        HardwareCommand::Subscribe(msg)
    }
}

impl vstd::std_specs::convert::FromSpecImpl<HardwareSubscribeCmd> for HardwareCommand {
    open spec fn obeys_from_spec() -> bool {
        true
    }

    open spec fn from_spec(msg: HardwareSubscribeCmd) -> Self {
        HardwareCommand::Subscribe(msg)
    }
}

impl From<HardwareUnsubscribeCmd> for HardwareCommand {
    fn from(msg: HardwareUnsubscribeCmd) -> (r: Self) {
        HardwareCommand::Unsubscribe(msg)
    }
}

impl vstd::std_specs::convert::FromSpecImpl<HardwareUnsubscribeCmd> for HardwareCommand {
    open spec fn obeys_from_spec() -> bool {
        true
    }

    open spec fn from_spec(msg: HardwareUnsubscribeCmd) -> Self {
        HardwareCommand::Unsubscribe(msg)
    }
}

/// Data read from an endpoint.
#[derive(Debug)]
pub struct HardwareReading {
    endpoint: Endpoint,
    data: Vec<u8>,
}

impl View for HardwareReading {
    type V = (Endpoint, Seq<u8>);

    closed spec fn view(&self) -> (Endpoint, Seq<u8>) {
        (self.endpoint, self.data@)
    }
}

impl Clone for HardwareReading {
    fn clone(&self) -> (r: Self)
        ensures
            r@ == self@,
    {
        HardwareReading { endpoint: self.endpoint, data: byte_vec(self.data.as_slice()) }
    }
}

impl HardwareReading {
    pub fn new(endpoint: Endpoint, data: &[u8]) -> (r: Self)
        ensures
            r@ == (endpoint, data@),
    {
        HardwareReading { endpoint, data: byte_vec(data) }
    }

    pub fn endpoint(&self) -> (r: Endpoint)
        ensures
            r == self@.0,
    {
        self.endpoint
    }

    pub fn data(&self) -> (r: &Vec<u8>)
        ensures
            r@ == self@.1,
    {
        &self.data
    }
}

/// What hardware reports: data arriving at an endpoint of the device at an address, or the
/// device at an address going away.
#[derive(Debug)]
pub enum HardwareEvent {
    Notification(String, Endpoint, Vec<u8>),
    Disconnected(String),
}

impl Clone for HardwareEvent {
    fn clone(&self) -> (r: Self)
        ensures
            match (r, *self) {
                (HardwareEvent::Notification(a, e, d), HardwareEvent::Notification(a0, e0, d0)) => a@
                    == a0@ && e == e0 && d@ == d0@,
                (HardwareEvent::Disconnected(a), HardwareEvent::Disconnected(a0)) => a@ == a0@,
                _ => false,
            },
    {
        match self {
            HardwareEvent::Notification(a, e, d) => HardwareEvent::Notification(
                a.clone(),
                *e,
                byte_vec(d.as_slice()),
            ),
            HardwareEvent::Disconnected(a) => HardwareEvent::Disconnected(a.clone()),
        }
    }
}

/// Reads `length` bytes from an endpoint of a device, waiting at most `timeout_ms` milliseconds.
#[derive(Debug, Clone, Copy, PartialEq, Eq, Structural)]
pub struct DeviceReadCmd {
    pub endpoint: Endpoint,
    pub length: u32,
    pub timeout_ms: u32,
}

impl DeviceReadCmd {
    pub fn new(endpoint: Endpoint, length: u32, timeout_ms: u32) -> (r: Self)
        ensures
            r == (DeviceReadCmd { endpoint, length, timeout_ms }),
    {
        DeviceReadCmd { endpoint, length, timeout_ms }
    }
}

/// Writes bytes to an endpoint of a device.
#[derive(Debug)]
pub struct DeviceWriteCmd {
    pub endpoint: Endpoint,
    pub data: Vec<u8>,
    pub write_with_response: bool,
}

impl DeviceWriteCmd {
    pub fn new(endpoint: Endpoint, data: Vec<u8>, write_with_response: bool) -> (r: Self)
        ensures
            r.endpoint == endpoint,
            r.data@ == data@,
            r.write_with_response == write_with_response,
    {
        DeviceWriteCmd { endpoint, data, write_with_response }
    }
}

/// Asks to be told of data arriving at an endpoint of a device.
#[derive(Debug, Clone, Copy, PartialEq, Eq, Structural)]
pub struct DeviceSubscribeCmd {
    pub endpoint: Endpoint,
}

impl DeviceSubscribeCmd {
    pub fn new(endpoint: Endpoint) -> (r: Self)
        ensures
            r.endpoint == endpoint,
    {
        DeviceSubscribeCmd { endpoint }
    }
}

/// Stops telling of data arriving at an endpoint of a device.
#[derive(Debug, Clone, Copy, PartialEq, Eq, Structural)]
pub struct DeviceUnsubscribeCmd {
    pub endpoint: Endpoint,
}

impl DeviceUnsubscribeCmd {
    pub fn new(endpoint: Endpoint) -> (r: Self)
        ensures
            r.endpoint == endpoint,
    {
        DeviceUnsubscribeCmd { endpoint }
    }
}

/// A command for a device.
#[derive(Debug)]
pub enum DeviceImplCommand {
    Write(DeviceWriteCmd),
    Read(DeviceReadCmd),
    Subscribe(DeviceSubscribeCmd),
    Unsubscribe(DeviceUnsubscribeCmd),
}

impl From<DeviceWriteCmd> for DeviceImplCommand {
    fn from(msg: DeviceWriteCmd) -> (r: Self) {
        DeviceImplCommand::Write(msg)
    }
}

impl vstd::std_specs::convert::FromSpecImpl<DeviceWriteCmd> for DeviceImplCommand {
    open spec fn obeys_from_spec() -> bool {
        true
    }

    open spec fn from_spec(msg: DeviceWriteCmd) -> Self {
        DeviceImplCommand::Write(msg)
    }
}

impl From<DeviceReadCmd> for DeviceImplCommand {
    fn from(msg: DeviceReadCmd) -> (r: Self) {
        DeviceImplCommand::Read(msg)
    }
}

impl vstd::std_specs::convert::FromSpecImpl<DeviceReadCmd> for DeviceImplCommand {
    open spec fn obeys_from_spec() -> bool {
        true
    }

    open spec fn from_spec(msg: DeviceReadCmd) -> Self {
        DeviceImplCommand::Read(msg)
    }
}

impl From<DeviceSubscribeCmd> for DeviceImplCommand {
    fn from(msg: DeviceSubscribeCmd) -> (r: Self) {
        DeviceImplCommand::Subscribe(msg)
    }
}

impl vstd::std_specs::convert::FromSpecImpl<DeviceSubscribeCmd> for DeviceImplCommand {
    open spec fn obeys_from_spec() -> bool {
        true
    }

    open spec fn from_spec(msg: DeviceSubscribeCmd) -> Self {
        DeviceImplCommand::Subscribe(msg)
    }
}

impl From<DeviceUnsubscribeCmd> for DeviceImplCommand {
    fn from(msg: DeviceUnsubscribeCmd) -> (r: Self) {
        DeviceImplCommand::Unsubscribe(msg)
    }
}

impl vstd::std_specs::convert::FromSpecImpl<DeviceUnsubscribeCmd> for DeviceImplCommand {
    open spec fn obeys_from_spec() -> bool {
        true
    }

    open spec fn from_spec(msg: DeviceUnsubscribeCmd) -> Self {
        DeviceImplCommand::Unsubscribe(msg)
    }
}

} // verus!
