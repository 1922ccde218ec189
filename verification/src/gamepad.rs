//! Gamepads driven through SDL2 and XInput: rumble commands, battery readings, and the
//! bookkeeping of connected joysticks.
use vstd::prelude::*;
use crate::errors::{ButtplugDeviceError, HardwareSpecificError};
use crate::hardware::{HardwareReadCmd, HardwareReading, HardwareWriteCmd};
use crate::messages::Endpoint;
use crate::specifier::{ProtocolCommunicationSpecifier, SpecifierView, XInputSpecifier};
use crate::text::{decimal, decimal_string};

verus! {

/// byteorder's `LittleEndian::read_u16` on the bytes of `buf` from `offset` on: the two bytes
/// there, least significant first. It panics on fewer than two bytes, which `requires` rules out.
#[verifier::external_body]
fn read_u16_le_at(buf: &[u8], offset: usize) -> (r: u16)
    requires
        offset + 2 <= buf@.len(),
    ensures
        r == buf@[offset as int] + 256 * buf@[offset + 1],
{
    <byteorder::LittleEndian as byteorder::ByteOrder>::read_u16(&buf[offset..])
}

/// The two motor speeds packed in a rumble command: two little-endian 16-bit numbers, the low
/// frequency (left) motor first.
pub fn rumble_speeds(data: &[u8]) -> (r: (u16, u16))
    requires
        data@.len() >= 4,
    ensures
        r.0 == data@[0] + 256 * data@[1],
        r.1 == data@[2] + 256 * data@[3],
{
    (read_u16_le_at(data, 0), read_u16_le_at(data, 2))
}

/// A joystick's power level, as SDL2 reports it.
#[derive(Debug, Clone, Copy, PartialEq, Eq, Structural)]
pub enum JoystickPowerLevel {
    Unknown,
    Empty,
    Low,
    Medium,
    Full,
    Wired,
}

/// The battery percentage a power level stands for; an unknown level stands for none.
pub open spec fn spec_battery_percentage(level: JoystickPowerLevel) -> Option<u8> {
    match level {
        JoystickPowerLevel::Unknown => None,
        JoystickPowerLevel::Empty => Some(0u8),
        JoystickPowerLevel::Low => Some(33u8),
        JoystickPowerLevel::Medium => Some(66u8),
        JoystickPowerLevel::Full => Some(100u8),
        JoystickPowerLevel::Wired => Some(100u8),
    }
}

/// The battery percentage a power level stands for (see `spec_battery_percentage`).
pub fn battery_percentage(level: JoystickPowerLevel) -> (r: Option<u8>)
    ensures
        r == spec_battery_percentage(level),
{
    match level {
        JoystickPowerLevel::Unknown => None,
        JoystickPowerLevel::Empty => Some(0u8),
        JoystickPowerLevel::Low => Some(33u8),
        JoystickPowerLevel::Medium => Some(66u8),
        JoystickPowerLevel::Full => Some(100u8),
        JoystickPowerLevel::Wired => Some(100u8),
    }
}

/// An SDL2 joystick is read only for its battery, on `RxBLEBattery`.
pub fn sdl2_check_read(cmd: &HardwareReadCmd) -> (r: Result<(), ButtplugDeviceError>)
    ensures
        match r {
            Ok(()) => cmd.spec_endpoint() == Endpoint::RxBLEBattery,
            Err(ButtplugDeviceError::InvalidEndpoint(e)) => cmd.spec_endpoint() != Endpoint::RxBLEBattery
                && e == cmd.spec_endpoint(),
            Err(_) => false,
        },
{
    if cmd.endpoint() != Endpoint::RxBLEBattery {
        Err(ButtplugDeviceError::InvalidEndpoint(cmd.endpoint()))
    } else {
        Ok(())
    }
}

/// The battery reading of an SDL2 joystick, given what asking for its power level gave: the
/// percentage as one byte on `Rx`; an unknown level and a failed request are errors.
pub fn sdl2_battery_reading(power: Result<JoystickPowerLevel, String>) -> (r: Result<HardwareReading, ButtplugDeviceError>)
    ensures
        match (power, r) {
            (Ok(level), Ok(reading)) => spec_battery_percentage(level) matches Some(p) && reading@ == (
            Endpoint::Rx, seq![p]),
            (Ok(level), Err(ButtplugDeviceError::DeviceSpecificError(HardwareSpecificError::SDL2Error(m)))) => level
                == JoystickPowerLevel::Unknown && m@ == "SDL2 couldn't read joystick battery level"@,
            (Err(e), Err(ButtplugDeviceError::DeviceSpecificError(HardwareSpecificError::SDL2Error(m)))) => m@
                == e@,
            _ => false,
        },
{
    match power {
        Ok(level) => match battery_percentage(level) {
            Some(p) => {
                let data: [u8; 1] = [p];
                let reading = HardwareReading::new(Endpoint::Rx, &data);
                assert(data@ =~= seq![p]);
                Ok(reading)
            },
            None => Err(
                ButtplugDeviceError::DeviceSpecificError(
                    HardwareSpecificError::SDL2Error("SDL2 couldn't read joystick battery level".to_owned()),
                ),
            ),
        },
        Err(e) => Err(ButtplugDeviceError::DeviceSpecificError(HardwareSpecificError::SDL2Error(e))),
    }
}

/// The rumble an SDL2 joystick is asked for by a write, which must be to `TxVibrate`.
pub fn sdl2_rumble(cmd: &HardwareWriteCmd) -> (r: Result<(u16, u16), ButtplugDeviceError>)
    requires
        cmd@.endpoint == Endpoint::TxVibrate ==> cmd@.data.len() >= 4,
    ensures
        match r {
            Ok((low, high)) => cmd@.endpoint == Endpoint::TxVibrate && low == cmd@.data[0] + 256
                * cmd@.data[1] && high == cmd@.data[2] + 256 * cmd@.data[3],
            Err(ButtplugDeviceError::InvalidEndpoint(e)) => cmd@.endpoint != Endpoint::TxVibrate && e
                == cmd@.endpoint,
            Err(_) => false,
        },
{
    if cmd.endpoint() != Endpoint::TxVibrate {
        return Err(ButtplugDeviceError::InvalidEndpoint(cmd.endpoint()));
    }
    Ok(rumble_speeds(cmd.data().as_slice()))
}

/// Endpoints of an SDL2 joystick: rumble and battery.
pub fn sdl2_endpoints() -> (r: Vec<Endpoint>)
    ensures
        r@ == seq![Endpoint::TxVibrate, Endpoint::RxBLEBattery],
{
    let mut v: Vec<Endpoint> = Vec::new();
    v.push(Endpoint::TxVibrate);
    v.push(Endpoint::RxBLEBattery);
    assert(v@ =~= seq![Endpoint::TxVibrate, Endpoint::RxBLEBattery]);
    v
}

/// The joysticks the SDL2 manager has announced, by instance id.
#[derive(Debug)]
pub struct Sdl2Joysticks {
    ids: Vec<u32>,
}

impl View for Sdl2Joysticks {
    type V = Set<u32>;

    closed spec fn view(&self) -> Set<u32> {
        self.ids@.to_set()
    }
}

impl Sdl2Joysticks {
    pub fn new() -> (r: Self)
        ensures
            r@ == Set::<u32>::empty(),
    {
        let r = Sdl2Joysticks { ids: Vec::new() };
        assert(r@ =~= Set::<u32>::empty());
        r
    }

    /// Whether a newly added joystick is worth opening: someone listens for devices and a scan
    /// is on.
    pub fn accepts_new_joystick(sender_closed: bool, scanning: bool) -> (r: bool)
        ensures
            r == (!sender_closed && scanning),
    {
        !sender_closed && scanning
    }

    /// Records an opened joystick that can rumble, and gives the address it is announced under
    /// (its instance id in decimal); one that cannot rumble is skipped.
    pub fn register(&mut self, id: u32, has_rumble: bool) -> (r: Option<String>)
        ensures
            has_rumble ==> (r matches Some(a) && a@ == decimal(id as nat) && final(self)@ == old(self)@.insert(id)),
            !has_rumble ==> r is None && final(self)@ == old(self)@,
    {
        if !has_rumble {
            return None;
        }
        let ghost before = self.ids@;
        self.ids.push(id);
        proof {
            before.lemma_push_to_set_commute(id);
        }
        Some(decimal_string(id as u64))
    }

    /// Forgets a joystick that went away; if it was announced, gives the address whose device is
    /// now disconnected.
    pub fn remove(&mut self, id: u32) -> (r: Option<String>)
        ensures
            final(self)@ == old(self)@.remove(id),
            old(self)@.contains(id) ==> (r matches Some(a) && a@ == decimal(id as nat)),
            !old(self)@.contains(id) ==> r is None,
    {
        let ghost before = self.ids@;
        let mut kept: Vec<u32> = Vec::new();
        let mut found = false;
        let mut i: usize = 0;
        while i < self.ids.len()
            invariant
                i <= before.len(),
                self.ids@ == before,
                kept@.to_set() == before.subrange(0, i as int).to_set().remove(id),
                found == before.subrange(0, i as int).to_set().contains(id),
            decreases before.len() - i,
        {
            let x = self.ids[i];
            proof {
                assert(before.subrange(0, i + 1) =~= before.subrange(0, i as int).push(x));
                before.subrange(0, i as int).lemma_push_to_set_commute(x);
            }
            if x == id {
                found = true;
                assert(kept@.to_set() =~= before.subrange(0, i + 1).to_set().remove(id));
            } else {
                let ghost k0 = kept@;
                kept.push(x);
                proof {
                    k0.lemma_push_to_set_commute(x);
                    assert(kept@.to_set() =~= before.subrange(0, i + 1).to_set().remove(id));
                }
            }
            i = i + 1;
        }
        assert(before.subrange(0, before.len() as int) =~= before);
        self.ids = kept;
        if found {
            Some(decimal_string(id as u64))
        } else {
            None
        }
    }
}

/// An SDL2 event, as the event loop hands it on: a joystick was added (with, when it could be
/// opened, its instance id and whether it can rumble), a joystick went away, SDL quits, or
/// anything else.
#[derive(Debug, Clone, Copy)]
pub enum Sdl2Event {
    JoystickAdded(Option<(u32, bool)>),
    JoystickRemoved(u32),
    Quit,
    Other,
}

/// What the event loop does for an event: announce a device at an address, report the device
/// at an address disconnected, stop, or nothing.
#[derive(Debug)]
pub enum Sdl2Action {
    Announce(String),
    Disconnect(String),
    Stop,
    Nothing,
}

/// One polled SDL2 event. An added joystick is announced when someone listens, a scan is on,
/// it could be opened and it can rumble; a removed joystick that was announced is reported
/// disconnected; SDL quitting stops the loop; anything else is ignored.
pub fn sdl2_event_action(event: Sdl2Event, sender_closed: bool, scanning: bool, joysticks: &mut Sdl2Joysticks) -> (r:
    Sdl2Action)
    ensures
        match event {
            Sdl2Event::JoystickAdded(Some((id, has_rumble))) => if !sender_closed && scanning && has_rumble {
                r matches Sdl2Action::Announce(a) && a@ == decimal(id as nat) && final(joysticks)@ == old(
                    joysticks,
                )@.insert(id)
            } else {
                r is Nothing && final(joysticks)@ == old(joysticks)@
            },
            Sdl2Event::JoystickAdded(None) => r is Nothing && final(joysticks)@ == old(joysticks)@,
            Sdl2Event::JoystickRemoved(id) => final(joysticks)@ == old(joysticks)@.remove(id) && if old(
                joysticks,
            )@.contains(id) {
                r matches Sdl2Action::Disconnect(a) && a@ == decimal(id as nat)
            } else {
                r is Nothing
            },
            Sdl2Event::Quit => r is Stop && final(joysticks)@ == old(joysticks)@,
            Sdl2Event::Other => r is Nothing && final(joysticks)@ == old(joysticks)@,
        },
{
    match event {
        Sdl2Event::JoystickAdded(opened) => {
            if !Sdl2Joysticks::accepts_new_joystick(sender_closed, scanning) {
                return Sdl2Action::Nothing;
            }
            match opened {
                Some((id, has_rumble)) => match joysticks.register(id, has_rumble) {
                    Some(a) => Sdl2Action::Announce(a),
                    None => Sdl2Action::Nothing,
                },
                None => Sdl2Action::Nothing,
            }
        },
        Sdl2Event::JoystickRemoved(id) => match joysticks.remove(id) {
            Some(a) => Sdl2Action::Disconnect(a),
            None => Sdl2Action::Nothing,
        },
        Sdl2Event::Quit => Sdl2Action::Stop,
        Sdl2Event::Other => Sdl2Action::Nothing,
    }
}

/// The SDL2 manager's scanning flag. Joystick events are always watched; the flag decides
/// whether joysticks that come are reported, so starting a scan sets it and stopping clears it.
#[derive(Debug)]
pub struct SDL2DeviceCommunicationManager {
    scanning_status: bool,
}

impl SDL2DeviceCommunicationManager {
    pub fn new() -> (r: Self)
        ensures
            !r.spec_scanning_status(),
    {
        SDL2DeviceCommunicationManager { scanning_status: false }
    }

    pub closed spec fn spec_scanning_status(&self) -> bool {
        self.scanning_status
    }

    pub fn start_scanning(&mut self)
        ensures
            final(self).spec_scanning_status(),
    {
        self.scanning_status = true;
    }

    pub fn stop_scanning(&mut self)
        ensures
            !final(self).spec_scanning_status(),
    {
        self.scanning_status = false;
    }

    pub fn scanning_status(&self) -> (r: bool)
        ensures
            r == self.spec_scanning_status(),
    {
        self.scanning_status
    }

    /// Joystick events are always watched, so the manager can always scan.
    pub fn can_scan(&self) -> (r: bool)
        ensures
            r,
    {
        true
    }
}

/// Builds the SDL2 manager.
#[derive(Debug, Default, Clone, Copy)]
pub struct SDL2DeviceCommunicationManagerBuilder {}

/// One of the four XInput controller slots.
#[derive(Debug, Clone, Copy, PartialEq, Eq, Structural)]
pub enum XInputControllerIndex {
    XInputController1,
    XInputController2,
    XInputController3,
    XInputController4,
}

/// The slot number XInput uses for a controller.
pub open spec fn spec_slot(i: XInputControllerIndex) -> u32 {
    match i {
        XInputControllerIndex::XInputController1 => 0,
        XInputControllerIndex::XInputController2 => 1,
        XInputControllerIndex::XInputController3 => 2,
        XInputControllerIndex::XInputController4 => 3,
    }
}

impl XInputControllerIndex {
    /// The slot number XInput uses for this controller.
    pub fn slot(&self) -> (r: u32)
        ensures
            r == spec_slot(*self),
    {
        match self {
            XInputControllerIndex::XInputController1 => 0,
            XInputControllerIndex::XInputController2 => 1,
            XInputControllerIndex::XInputController3 => 2,
            XInputControllerIndex::XInputController4 => 3,
        }
    }

    /// The controller's name, which is also the address of its device: `XInputController`
    /// followed by the slot number plus one.
    pub fn name(&self) -> (r: String)
        ensures
            r@ == "XInputController"@ + decimal((spec_slot(*self) + 1) as nat),
    {
        let mut s = String::from_str("XInputController");
        proof {
            reveal_strlit("XInputController");
        }
        let n = decimal_string((self.slot() + 1) as u64);
        s.append(n.as_str());
        s
    }

    /// The four controller slots, in order.
    pub fn all() -> (r: Vec<XInputControllerIndex>)
        ensures
            r@ == seq![
                XInputControllerIndex::XInputController1,
                XInputControllerIndex::XInputController2,
                XInputControllerIndex::XInputController3,
                XInputControllerIndex::XInputController4,
            ],
    {
        let mut v: Vec<XInputControllerIndex> = Vec::new();
        v.push(XInputControllerIndex::XInputController1);
        v.push(XInputControllerIndex::XInputController2);
        v.push(XInputControllerIndex::XInputController3);
        v.push(XInputControllerIndex::XInputController4);
        assert(v@ =~= seq![
            XInputControllerIndex::XInputController1,
            XInputControllerIndex::XInputController2,
            XInputControllerIndex::XInputController3,
            XInputControllerIndex::XInputController4,
        ]);
        v
    }
}

/// The address of the device in an XInput slot: the controller's name.
pub fn create_address(index: XInputControllerIndex) -> (r: String)
    ensures
        r@ == "XInputController"@ + decimal((spec_slot(index) + 1) as nat),
{
    index.name()
}

/// Connects to the gamepad in an XInput slot.
#[derive(Debug, Clone, Copy)]
pub struct XInputHardwareConnector {
    index: XInputControllerIndex,
}

impl XInputHardwareConnector {
    pub fn new(index: XInputControllerIndex) -> (r: Self)
        ensures
            r.spec_index() == index,
    {
        XInputHardwareConnector { index }
    }

    pub closed spec fn spec_index(&self) -> XInputControllerIndex {
        self.index
    }

    pub fn index(&self) -> (r: XInputControllerIndex)
        ensures
            r == self.spec_index(),
    {
        self.index
    }

    /// XInput gamepads are matched by the XInput specifier.
    pub fn specifier(&self) -> (r: ProtocolCommunicationSpecifier)
        ensures
            r@ == SpecifierView::XInput,
    {
        ProtocolCommunicationSpecifier::XInput(XInputSpecifier::default())
    }

    /// Endpoints of an XInput gamepad: it writes on `Tx` and reads on `Rx`.
    pub fn endpoints(&self) -> (r: Vec<Endpoint>)
        ensures
            r@ == seq![Endpoint::Tx, Endpoint::Rx],
    {
        let mut v: Vec<Endpoint> = Vec::new();
        v.push(Endpoint::Tx);
        v.push(Endpoint::Rx);
        assert(v@ =~= seq![Endpoint::Tx, Endpoint::Rx]);
        v
    }
}

/// The battery reading of an XInput gamepad: its battery level byte on `Rx`.
pub fn xinput_battery_reading(level: u8) -> (r: HardwareReading)
    ensures
        r@ == (Endpoint::Rx, seq![level]),
{
    let data: [u8; 1] = [level];
    let r = HardwareReading::new(Endpoint::Rx, &data);
    assert(data@ =~= seq![level]);
    r
}

/// Builds the XInput manager.
#[derive(Debug, Default, Clone, Copy)]
pub struct XInputDeviceCommunicationManagerBuilder {}

} // verus!
