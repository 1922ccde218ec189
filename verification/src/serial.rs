//! Serial port devices: which port definition applies to a port, and how ports are announced.
use vstd::prelude::*;
use vstd::string::StringExecFns;
use crate::errors::{ButtplugDeviceError, HardwareSpecificError};
use crate::messages::Endpoint;
use crate::specifier::{ProtocolCommunicationSpecifier, SerialSpecifier, SerialSpecifierView, SpecifierView};

verus! {

/// Whether specifier `s` is the definition of the serial port named `port`.
pub open spec fn defines_port(s: SpecifierView, port: Seq<char>) -> bool {
    s matches SpecifierView::Serial(v) && v.port == port
}

/// The first of a protocol's specifiers that defines the serial port named `port_name`.
pub fn find_port_definition(port_name: &str, specifiers: &[ProtocolCommunicationSpecifier]) -> (r:
    Option<SerialSpecifier>)
    ensures
        match r {
            Some(s) => exists|i: int|
                0 <= i < specifiers@.len() && defines_port(specifiers@[i]@, port_name@)
                    && specifiers@[i]@ == SpecifierView::Serial(s@) && forall|j: int|
                    0 <= j < i ==> !defines_port(#[trigger] specifiers@[j]@, port_name@),
            None => forall|j: int|
                0 <= j < specifiers@.len() ==> !defines_port(#[trigger] specifiers@[j]@, port_name@),
        },
{
    let name = port_name.to_owned();
    let mut i: usize = 0;
    while i < specifiers.len()
        invariant
            i <= specifiers@.len(),
            name@ == port_name@,
            forall|j: int| 0 <= j < i ==> !defines_port(#[trigger] specifiers@[j]@, port_name@),
        decreases specifiers@.len() - i,
    {
        match &specifiers[i] {
            ProtocolCommunicationSpecifier::Serial(s) => {
                if *s.port() == name {
                    let r = s.clone();
                    assert(defines_port(specifiers@[i as int]@, port_name@));
                    return Some(r);
                }
            },
            _ => {},
        }
        i = i + 1;
    }
    None
}

/// The name a serial port is announced under: `Serial Port Device ` and the port's name.
pub fn serial_device_name(port_name: &str) -> (r: String)
    ensures
        r@ == "Serial Port Device "@ + port_name@,
{
    let mut s = String::from_str("Serial Port Device ");
    s.append(port_name);
    s
}

/// The address of an open serial port: its name, or a placeholder when it has none.
pub fn serial_device_address(name: Option<String>) -> (r: String)
    ensures
        match name {
            Some(n) => r@ == n@,
            None => r@ == "Default Serial Port Device (No Name Given)"@,
        },
{
    match name {
        Some(n) => n,
        None => String::from_str("Default Serial Port Device (No Name Given)"),
    }
}

/// The error a serial port that cannot be opened raises: a serial error carrying the port
/// layer's message.
pub fn serial_open_error(msg: String) -> (r: ButtplugDeviceError)
    ensures
        r matches ButtplugDeviceError::DeviceSpecificError(HardwareSpecificError::SerialError(m)) && m@ == msg@,
{
    ButtplugDeviceError::DeviceSpecificError(HardwareSpecificError::SerialError(msg))
}

/// The specifier a serial port is matched by: its name, with the default configuration.
pub fn serial_port_specifier(port_name: &str) -> (r: ProtocolCommunicationSpecifier)
    ensures
        r@ == SpecifierView::Serial(
            SerialSpecifierView {
                baud_rate: 0,
                data_bits: 0,
                stop_bits: 0,
                parity: '\0',
                port: port_name@,
            },
        ),
{
    ProtocolCommunicationSpecifier::Serial(SerialSpecifier::new_from_name(port_name))
}

/// Endpoints of a serial device: it reads on `Rx` and writes on `Tx`.
pub fn serial_endpoints() -> (r: Vec<Endpoint>)
    ensures
        r@ == seq![Endpoint::Rx, Endpoint::Tx],
{
    let mut v: Vec<Endpoint> = Vec::new();
    v.push(Endpoint::Rx);
    v.push(Endpoint::Tx);
    assert(v@ =~= seq![Endpoint::Rx, Endpoint::Tx]);
    v
}

/// Builds the serial port manager.
#[derive(Debug, Default, Clone, Copy)]
pub struct SerialPortCommunicationManagerBuilder {}

} // verus!
