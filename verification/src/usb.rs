//! USB devices driven by vendor control transfers: their addresses, display names, and the
//! commands they take.
use vstd::prelude::*;
use vstd::string::StringExecFns;
use crate::errors::ButtplugDeviceError;
use crate::hardware::{HardwareEvent, HardwareWriteCmd};
use crate::messages::Endpoint;
use crate::text::{decimal, decimal_string};

verus! {

/// Whether `c` is white space as Unicode's White_Space property defines it (which std's
/// `char::is_whitespace` follows): tab to carriage return, space, next line, no-break space,
/// ogham space mark, the spaces from en quad to hair space, line and paragraph separators,
/// narrow no-break space, medium mathematical space and ideographic space.
pub open spec fn is_white_space(c: char) -> bool {
    let n = c as u32;
    ||| 0x9 <= n <= 0xd
    ||| n == 0x20
    ||| n == 0x85
    ||| n == 0xa0
    ||| n == 0x1680
    ||| 0x2000 <= n <= 0x200a
    ||| n == 0x2028
    ||| n == 0x2029
    ||| n == 0x202f
    ||| n == 0x205f
    ||| n == 0x3000
}

/// The text without its leading white space.
pub open spec fn trim_start(s: Seq<char>) -> Seq<char>
    decreases s.len(),
{
    if s.len() > 0 && is_white_space(s[0]) {
        trim_start(s.drop_first())
    } else {
        s
    }
}

/// The text without its trailing white space.
pub open spec fn trim_end(s: Seq<char>) -> Seq<char>
    decreases s.len(),
{
    if s.len() > 0 && is_white_space(s.last()) {
        trim_end(s.drop_last())
    } else {
        s
    }
}

/// The text without leading and trailing white space.
pub open spec fn trimmed_text(s: Seq<char>) -> Seq<char> {
    trim_end(trim_start(s))
}

/// std's `str::trim`, owned: the text without leading and trailing white space, as Unicode's
/// White_Space property defines it (see `is_white_space`).
#[verifier::external_body]
fn trim_text(s: &str) -> (r: String)
    ensures
        r@ == trimmed_text(s@),
{
    s.trim().to_owned()
}

/// The address of a USB device: `bus B, address A` with both numbers in decimal.
pub open spec fn spec_qualified_address(bus_number: u8, address: u8) -> Seq<char> {
    "bus "@ + decimal(bus_number as nat) + ", address "@ + decimal(address as nat)
}

/// The address of a USB device (see `spec_qualified_address`).
pub fn qualified_address(bus_number: u8, address: u8) -> (r: String)
    ensures
        r@ == spec_qualified_address(bus_number, address),
{
    let mut s = String::from_str("bus ");
    s.append(decimal_string(bus_number as u64).as_str());
    s.append(", address ");
    s.append(decimal_string(address as u64).as_str());
    s
}

/// The name shown for a USB device: its trimmed manufacturer and product strings (`???` for
/// one that could not be read), then its trimmed serial number when it has one, separated by
/// spaces.
pub open spec fn spec_usb_name(
    manufacturer: Option<Seq<char>>,
    product: Option<Seq<char>>,
    serial_number: Option<Seq<char>>,
) -> Seq<char> {
    let m = match manufacturer {
        Some(x) => trimmed_text(x),
        None => "???"@,
    };
    let p = match product {
        Some(x) => trimmed_text(x),
        None => "???"@,
    };
    match serial_number {
        Some(x) => m + " "@ + p + " "@ + trimmed_text(x),
        None => m + " "@ + p,
    }
}

fn trimmed_or_unknown(s: &Option<String>) -> (r: String)
    ensures
        r@ == match *s {
            Some(x) => trimmed_text(x@),
            None => "???"@,
        },
{
    match s {
        Some(x) => trim_text(x.as_str()),
        None => String::from_str("???"),
    }
}

/// What a USB device tells of itself: where it sits, and the strings read from it (`None` for
/// one that could not be read).
#[derive(Debug)]
pub struct UsbDeviceDescription {
    pub bus_number: u8,
    pub address: u8,
    pub manufacturer: Option<String>,
    pub product: Option<String>,
    pub serial_number: Option<String>,
}

/// Naming of a USB device.
pub trait DeviceExt {
    /// The device's bus and its address on that bus.
    fn qualified_address(&self) -> String;

    /// The name to show for the device; never fails, but may hold placeholders.
    fn name(&self) -> String;
}

impl DeviceExt for UsbDeviceDescription {
    fn qualified_address(&self) -> (r: String)
        ensures
            r@ == spec_qualified_address(self.bus_number, self.address),
    {
        qualified_address(self.bus_number, self.address)
    }

    fn name(&self) -> (r: String)
        ensures
            r@ == spec_usb_name(
                crate::message_attributes::opt_string_view(self.manufacturer),
                crate::message_attributes::opt_string_view(self.product),
                crate::message_attributes::opt_string_view(self.serial_number),
            ),
    {
        let mut s = trimmed_or_unknown(&self.manufacturer);
        s.append(" ");
        let p = trimmed_or_unknown(&self.product);
        s.append(p.as_str());
        match &self.serial_number {
            Some(x) => {
                s.append(" ");
                let t = trim_text(x.as_str());
                s.append(t.as_str());
            },
            None => {},
        }
        s
    }
}

/// The value of the vendor control transfer a write asks for: the first byte written. Only
/// `TxVendorControl` can be written.
pub fn usb_control_value(cmd: &HardwareWriteCmd) -> (r: Result<u16, ButtplugDeviceError>)
    requires
        cmd@.endpoint == Endpoint::TxVendorControl ==> cmd@.data.len() >= 1,
    ensures
        match r {
            Ok(v) => cmd@.endpoint == Endpoint::TxVendorControl && v == cmd@.data[0],
            Err(ButtplugDeviceError::InvalidEndpoint(e)) => cmd@.endpoint != Endpoint::TxVendorControl
                && e == cmd@.endpoint,
            Err(_) => false,
        },
{
    if cmd.endpoint() != Endpoint::TxVendorControl {
        return Err(ButtplugDeviceError::InvalidEndpoint(cmd.endpoint()));
    }
    Ok(cmd.data()[0] as u16)
}

/// The event a failed control transfer raises: the device at `address` is gone when the
/// transfer failed for want of a device.
pub fn usb_write_failure_event(address: &str, no_device: bool) -> (r: Option<HardwareEvent>)
    ensures
        no_device ==> (r matches Some(HardwareEvent::Disconnected(a)) && a@ == address@),
        !no_device ==> r is None,
{
    if no_device {
        Some(HardwareEvent::Disconnected(address.to_owned()))
    } else {
        None
    }
}

/// The event a device leaving the bus raises for the device at `address`: it is disconnected
/// when it is the one that left.
pub fn usb_hotplug_left_event(address: &str, left_address: &str) -> (r: Option<HardwareEvent>)
    ensures
        address@ == left_address@ ==> (r matches Some(HardwareEvent::Disconnected(a)) && a@ == address@),
        address@ != left_address@ ==> r is None,
{
    let a = address.to_owned();
    let b = left_address.to_owned();
    if a == b {
        Some(HardwareEvent::Disconnected(a))
    } else {
        None
    }
}

/// Endpoints of a USB device: vendor control only.
pub fn usb_endpoints() -> (r: Vec<Endpoint>)
    ensures
        r@ == seq![Endpoint::TxVendorControl],
{
    let mut v: Vec<Endpoint> = Vec::new();
    v.push(Endpoint::TxVendorControl);
    assert(v@ =~= seq![Endpoint::TxVendorControl]);
    v
}

/// Builds the USB manager.
#[derive(Debug, Default, Clone, Copy)]
pub struct UsbCommunicationManagerBuilder {}

} // verus!
