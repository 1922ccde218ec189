//! The device manager: its bookkeeping of connecting and connected devices, and its decisions
//! on scanning.
use vstd::prelude::*;
use crate::assoc::{assoc_map, keys_unique, lemma_assoc_at, pairs_view};
use crate::concurrent::{
    devices_entries, devices_get, devices_held, devices_insert, devices_new, devices_remove, string_set_contains,
    string_set_insert, string_set_new, string_set_remove, strings_held,
};
use crate::configuration::{
    spec_address_allowed, spec_device_index, specializers_found, specializers_view, DeviceConfigurationManager,
    ProtocolSpecializer, SpecializerView,
};
use crate::errors::ButtplugDeviceError;
use crate::messages::Endpoint;
use crate::identifiers::{UserDeviceIdentifier, UserIdView};
use crate::message_attributes::{clone_opt_string, opt_string_view};
use crate::specifier::ProtocolCommunicationSpecifier;
use crate::text::strings_view;
use dashmap::{DashMap, DashSet};

verus! {

/// What the manager tells of a connected device: its identifier and the name to show for it.
#[derive(Debug)]
pub struct DeviceInfo {
    pub identifier: UserDeviceIdentifier,
    pub display_name: Option<String>,
}

/// Abstract value of a connected device.
pub struct ManagedDeviceView {
    pub identifier: UserIdView,
    pub name: Seq<char>,
    pub display_name: Option<Seq<char>>,
}

/// A connected device, as the manager keeps it.
#[derive(Debug)]
pub struct ManagedDevice {
    pub identifier: UserDeviceIdentifier,
    pub name: String,
    pub display_name: Option<String>,
}

impl View for ManagedDevice {
    type V = ManagedDeviceView;

    open spec fn view(&self) -> ManagedDeviceView {
        ManagedDeviceView {
            identifier: self.identifier@,
            name: self.name@,
            display_name: opt_string_view(self.display_name),
        }
    }
}

impl Clone for ManagedDevice {
    fn clone(&self) -> (r: Self)
        ensures
            r@ == self@,
    {
        ManagedDevice {
            identifier: self.identifier.clone(),
            name: self.name.clone(),
            display_name: clone_opt_string(&self.display_name),
        }
    }
}

/// What a device reports to the manager: it connected, data arrived at one of its endpoints, or
/// the device at an address went away.
#[derive(Debug)]
pub enum ButtplugDeviceEvent {
    Connected(ManagedDevice),
    Notification(String, Endpoint, Vec<u8>),
    Disconnected(String),
}

/// Abstract value of the manager's bookkeeping.
pub struct ManagerView {
    pub scanning_in_progress: bool,
    pub connecting: Set<Seq<char>>,
    pub devices: Map<u32, ManagedDeviceView>,
}

/// The device manager's bookkeeping: whether a scan is in progress, the addresses of devices
/// being connected, and the connected devices by index.
#[derive(Debug)]
pub struct DeviceManagerState {
    scanning_in_progress: bool,
    connecting: DashSet<String>,
    devices: DashMap<u32, ManagedDevice>,
}

impl View for DeviceManagerState {
    type V = ManagerView;

    closed spec fn view(&self) -> ManagerView {
        ManagerView {
            scanning_in_progress: self.scanning_in_progress,
            connecting: strings_held(self.connecting),
            devices: devices_held(self.devices),
        }
    }
}

/// Whether a connected device is at `address`.
pub open spec fn address_connected(devices: Map<u32, ManagedDeviceView>, address: Seq<char>) -> bool {
    exists|i: u32| #[trigger] devices.dom().contains(i) && devices[i].identifier.address == address
}

/// Whether a device found at `address` goes on to connecting: its address is allowed, and no
/// device is connected or connecting there.
pub open spec fn found_proceeds(allowed: bool, s: ManagerView, address: Seq<char>) -> bool {
    allowed && !address_connected(s.devices, address) && !s.connecting.contains(address)
}

/// The bookkeeping once a device found at `address` goes on to connecting.
pub open spec fn after_found(s: ManagerView, address: Seq<char>) -> ManagerView {
    ManagerView { connecting: s.connecting.insert(address), ..s }
}

/// Whether a manager's report that its scan finished is passed on: a scan is in progress and no
/// manager still scans.
pub open spec fn finish_reported(s: ManagerView, any_manager_scanning: bool) -> bool {
    s.scanning_in_progress && !any_manager_scanning
}

/// The bookkeeping after a manager reported its scan finished.
pub open spec fn after_finish_report(s: ManagerView, any_manager_scanning: bool) -> ManagerView {
    ManagerView { scanning_in_progress: s.scanning_in_progress && any_manager_scanning, ..s }
}

impl DeviceManagerState {
    pub fn new() -> (r: Self)
        ensures
            r@ == (ManagerView {
                scanning_in_progress: false,
                connecting: Set::empty(),
                devices: Map::empty(),
            }),
    {
        let r = DeviceManagerState { scanning_in_progress: false, connecting: string_set_new(), devices: devices_new() };
        assert(r@.devices =~= Map::<u32, ManagedDeviceView>::empty());
        r
    }

    /// A scan has started.
    pub fn scanning_started(&mut self)
        ensures
            final(self)@ == (ManagerView { scanning_in_progress: true, ..old(self)@ }),
    {
        self.scanning_in_progress = true;
    }

    /// A manager reports its scan finished; says whether to tell that scanning finished, which
    /// happens once every manager has finished a scan that is in progress.
    pub fn scanning_finished(&mut self, any_manager_scanning: bool) -> (r: bool)
        ensures
            r == finish_reported(old(self)@, any_manager_scanning),
            final(self)@ == after_finish_report(old(self)@, any_manager_scanning),
    {
        if !self.scanning_in_progress {
            return false;
        }
        if any_manager_scanning {
            return false;
        }
        self.scanning_in_progress = false;
        true
    }

    /// The index of a connected device at `address`, if there is one.
    fn index_at(&self, address: &str) -> (r: Option<u32>)
        ensures
            match r {
                Some(i) => self@.devices.dom().contains(i) && self@.devices[i].identifier.address == address@,
                None => !address_connected(self@.devices, address@),
            },
    {
        let entries = devices_entries(&self.devices);
        let ghost dv = pairs_view(entries@);
        let a = address.to_owned();
        let mut i: usize = 0;
        while i < entries.len()
            invariant
                i <= entries@.len(),
                dv == pairs_view(entries@),
                keys_unique(dv),
                assoc_map(dv) == self@.devices,
                a@ == address@,
                forall|t: int| 0 <= t < i ==> dv[t].1.identifier.address != address@,
            decreases entries@.len() - i,
        {
            assert(dv[i as int].1.identifier.address == entries@[i as int].1.identifier@.address);
            if *entries[i].1.identifier.address() == a {
                proof {
                    lemma_assoc_at(dv, i as int);
                }
                return Some(entries[i].0);
            }
            i = i + 1;
        }
        proof {
            if address_connected(self@.devices, address@) {
                let k = choose|k: u32| #[trigger] self@.devices.dom().contains(k) && self@.devices[k].identifier.address
                    == address@;
                let t = choose|t: int| 0 <= t < dv.len() && dv[t].0 == k;
                lemma_assoc_at(dv, t);
                assert(dv[t].1.identifier.address != address@);
            }
        }
        None
    }

    /// A communication manager found a device at `address`, matched by `specifier`. It is let
    /// through when its address is allowed, no connected device is at that address and none is
    /// being connected there; its address is then recorded as connecting, and the protocols
    /// that may drive it are returned (none when no protocol's specifiers match).
    pub fn device_found(
        &mut self,
        dcm: &DeviceConfigurationManager,
        address: &str,
        specifier: &ProtocolCommunicationSpecifier,
    ) -> (r: Option<Vec<ProtocolSpecializer>>)
        requires
            dcm.well_formed(),
        ensures
            ({
                let proceed = found_proceeds(
                    spec_address_allowed(dcm@.user_definitions, address@),
                    old(self)@,
                    address@,
                );
                &&& proceed ==> final(self)@ == after_found(old(self)@, address@)
                &&& !proceed ==> final(self)@ == old(self)@
                &&& match r {
                    Some(s) => proceed && s@.len() > 0 && specializers_found(dcm@, specifier@, specializers_view(s@)),
                    None => !proceed || specializers_found(dcm@, specifier@, Seq::empty()),
                }
            }),
    {
        if !dcm.address_allowed(address) {
            return None;
        }
        if self.index_at(address).is_some() {
            return None;
        }
        if string_set_contains(&self.connecting, address) {
            return None;
        }
        string_set_insert(&mut self.connecting, address.to_owned());
        let specializers = dcm.protocol_specializers(specifier);
        if specializers.len() == 0 {
            assert(specializers_view(specializers@) =~= Seq::<SpecializerView>::empty());
            None
        } else {
            Some(specializers)
        }
    }

    /// A connection attempt at `address` ended, whatever its outcome.
    pub fn connection_attempt_finished(&mut self, address: &str)
        ensures
            final(self)@ == (ManagerView {
                connecting: old(self)@.connecting.remove(address@),
                ..old(self)@
            }),
    {
        let _ = string_set_remove(&mut self.connecting, address);
    }

    /// A device connected. It takes the index the configuration manager gives its identifier;
    /// a device that held that index is evicted (and returned, to be disconnected). Returns the
    /// index, under which the device is announced as added.
    pub fn device_connected(&mut self, dcm: &DeviceConfigurationManager, device: ManagedDevice) -> (r: (
        u32,
        Option<ManagedDevice>,
    ))
        requires
            dcm.well_formed(),
            dcm@.user_definitions.dom().len() < u32::MAX,
        ensures
            r.0 == spec_device_index(dcm@.user_definitions, device@.identifier),
            final(self)@.devices == old(self)@.devices.insert(r.0, device@),
            match r.1 {
                Some(d) => old(self)@.devices.dom().contains(r.0) && old(self)@.devices[r.0] == d@,
                None => !old(self)@.devices.dom().contains(r.0),
            },
            final(self)@.scanning_in_progress == old(self)@.scanning_in_progress,
            final(self)@.connecting == old(self)@.connecting,
    {
        let index = dcm.device_index(&device.identifier);
        let evicted = devices_remove(&mut self.devices, index);
        let _ = devices_insert(&mut self.devices, index, device);
        assert(old(self)@.devices.remove(index).insert(index, device@) =~= old(self)@.devices.insert(index, device@));
        (index, evicted)
    }

    /// The device at `address` disconnected: a connected device there is removed, and its index
    /// returned (to announce it removed).
    pub fn device_disconnected(&mut self, address: &str) -> (r: Option<u32>)
        ensures
            final(self)@.scanning_in_progress == old(self)@.scanning_in_progress,
            final(self)@.connecting == old(self)@.connecting,
            match r {
                Some(index) => old(self)@.devices.dom().contains(index) && old(self)@.devices[index].identifier.address
                    == address@ && final(self)@.devices == old(self)@.devices.remove(index),
                None => !address_connected(old(self)@.devices, address@) && final(self)@ == old(self)@,
            },
    {
        match self.index_at(address) {
            Some(index) => {
                let _ = devices_remove(&mut self.devices, index);
                Some(index)
            },
            None => None,
        }
    }

    /// What the manager tells of the device at `index`; there must be one.
    pub fn device_info(&self, index: u32) -> (r: Result<DeviceInfo, ButtplugDeviceError>)
        ensures
            match r {
                Ok(info) => self@.devices.dom().contains(index) && info.identifier@ == self@.devices[index].identifier
                    && opt_string_view(info.display_name) == self@.devices[index].display_name,
                Err(ButtplugDeviceError::DeviceNotAvailable(i)) => i == index && !self@.devices.dom().contains(index),
                Err(_) => false,
            },
    {
        match devices_get(&self.devices, index) {
            Some(d) => Ok(DeviceInfo { identifier: d.identifier, display_name: d.display_name }),
            None => Err(ButtplugDeviceError::DeviceNotAvailable(index)),
        }
    }
}

/// A device found again while it is being connected, or while connected, is ignored: once a
/// device found at an address goes on to connecting, finding it again does not.
pub proof fn lemma_found_device_connects_once(s: ManagerView, address: Seq<char>, allowed: bool, allowed_again: bool)
    requires
        found_proceeds(allowed, s, address),
    ensures
        !found_proceeds(allowed_again, after_found(s, address), address),
{
}

/// What the manager tells of an index is the device that last connected under it, until that
/// device disconnects: connecting `d` under `index` makes the index report `d`, and the device's
/// address counts as connected.
pub proof fn lemma_connected_device_reported(s: ManagerView, index: u32, d: ManagedDeviceView)
    ensures
        ({
            let after = s.devices.insert(index, d);
            &&& after.dom().contains(index)
            &&& after[index] == d
            &&& address_connected(after, d.identifier.address)
            &&& !after.remove(index).dom().contains(index)
        }),
{
    let after = s.devices.insert(index, d);
    assert(after.dom().contains(index) && after[index].identifier.address == d.identifier.address);
}

/// Once scanning has been reported finished, further reports say nothing until a new scan
/// starts.
pub proof fn lemma_scanning_finished_reported_once(s: ManagerView, any_scanning: bool, any_scanning_later: bool)
    requires
        finish_reported(s, any_scanning),
    ensures
        !finish_reported(after_finish_report(s, any_scanning), any_scanning_later),
{
}

/// What starting a scan comes to.
#[derive(Debug, Clone, Copy, PartialEq, Eq, Structural)]
pub enum ScanStart {
    /// No communication manager is registered.
    NoDeviceCommManagers,
    /// A manager still scans; nothing is done.
    AlreadyScanning,
    /// Every manager is told to scan, and the event loop that scanning started.
    Start,
}

/// What starting a scan comes to, given how many communication managers there are and whether
/// any of them still scans.
pub fn start_scanning_decision(manager_count: usize, any_scanning: bool) -> (r: ScanStart)
    ensures
        manager_count == 0 ==> r == ScanStart::NoDeviceCommManagers,
        manager_count > 0 && any_scanning ==> r == ScanStart::AlreadyScanning,
        manager_count > 0 && !any_scanning ==> r == ScanStart::Start,
{
    if manager_count == 0 {
        ScanStart::NoDeviceCommManagers
    } else if any_scanning {
        ScanStart::AlreadyScanning
    } else {
        ScanStart::Start
    }
}

/// What stopping a scan comes to.
#[derive(Debug, Clone, Copy, PartialEq, Eq, Structural)]
pub enum ScanStop {
    /// No communication manager is registered.
    NoDeviceCommManagers,
    /// No manager scans: scanning has already stopped, which is an error.
    AlreadyStopped,
    /// Every manager is told to stop.
    Stop,
}

/// What stopping a scan comes to, given how many communication managers there are and whether
/// any of them still scans.
pub fn stop_scanning_decision(manager_count: usize, any_scanning: bool) -> (r: ScanStop)
    ensures
        manager_count == 0 ==> r == ScanStop::NoDeviceCommManagers,
        manager_count > 0 && !any_scanning ==> r == ScanStop::AlreadyStopped,
        manager_count > 0 && any_scanning ==> r == ScanStop::Stop,
{
    if manager_count == 0 {
        ScanStop::NoDeviceCommManagers
    } else if !any_scanning {
        ScanStop::AlreadyStopped
    } else {
        ScanStop::Stop
    }
}

/// Whether a communication manager is one of those that fight over Lovense devices: the
/// Bluetooth LE manager and the two Lovense dongle managers.
pub open spec fn may_collide(name: Seq<char>) -> bool {
    name == "BtlePlugCommunicationManager"@ || name == "LovenseSerialDongleCommunicationManager"@
        || name == "LovenseHIDDongleCommunicationManager"@
}

/// The names, in order, of the managers (name, whether it can scan) that may collide and can
/// scan.
pub open spec fn colliding_spec(managers: Seq<(Seq<char>, bool)>) -> Seq<Seq<char>>
    decreases managers.len(),
{
    if managers.len() == 0 {
        Seq::empty()
    } else {
        let prev = colliding_spec(managers.drop_last());
        if may_collide(managers.last().0) && managers.last().1 {
            prev.push(managers.last().0)
        } else {
            prev
        }
    }
}

/// The managers that may fight over devices (see `colliding_spec`); a warning is due when there
/// is more than one.
pub fn colliding_managers(managers: &[(String, bool)]) -> (r: Vec<String>)
    ensures
        strings_view(r@) == colliding_spec(managers@.map_values(|m: (String, bool)| (m.0@, m.1))),
{
    let ghost mv = managers@.map_values(|m: (String, bool)| (m.0@, m.1));
    let a = String::from_str("BtlePlugCommunicationManager");
    let b = String::from_str("LovenseSerialDongleCommunicationManager");
    let c = String::from_str("LovenseHIDDongleCommunicationManager");
    let mut out: Vec<String> = Vec::new();
    let mut i: usize = 0;
    while i < managers.len()
        invariant
            i <= managers@.len(),
            mv == managers@.map_values(|m: (String, bool)| (m.0@, m.1)),
            a@ == "BtlePlugCommunicationManager"@,
            b@ == "LovenseSerialDongleCommunicationManager"@,
            c@ == "LovenseHIDDongleCommunicationManager"@,
            strings_view(out@) == colliding_spec(mv.subrange(0, i as int)),
        decreases managers@.len() - i,
    {
        let (name, can_scan) = &managers[i];
        proof {
            assert(mv.subrange(0, i + 1).drop_last() =~= mv.subrange(0, i as int));
            assert(mv.subrange(0, i + 1).last() == (name@, *can_scan));
        }
        if (*name == a || *name == b || *name == c) && *can_scan {
            let ghost o = strings_view(out@);
            out.push(name.clone());
            assert(strings_view(out@) =~= o.push(name@));
        }
        i = i + 1;
    }
    assert(mv.subrange(0, managers@.len() as int) =~= mv);
    out
}

} // verus!
