//! HID devices: which of the listed devices are announced, and how they are matched.
use vstd::prelude::*;
use crate::message_attributes::opt_string_view;
use crate::messages::Endpoint;
use crate::specifier::{HIDSpecifier, ProtocolCommunicationSpecifier, SpecifierView};

verus! {

/// A device as the HID layer lists it: its serial number and product string, if it has them.
#[derive(Debug)]
pub struct HidDeviceListing {
    pub serial_number: Option<String>,
    pub product_string: Option<String>,
}

/// Abstract value of a listing: serial number and product string.
pub type ListingView = (Option<Seq<char>>, Option<Seq<char>>);

/// Abstract values of listings.
pub open spec fn listings_view(s: Seq<HidDeviceListing>) -> Seq<ListingView> {
    s.map_values(|d: HidDeviceListing| (opt_string_view(d.serial_number), opt_string_view(d.product_string)))
}

/// Whether a listing among `devs` has serial number `serial`.
pub open spec fn serial_listed(devs: Seq<ListingView>, serial: Seq<char>) -> bool {
    exists|i: int| 0 <= i < devs.len() && devs[i].0 == Some(serial)
}

/// The devices announced from a listing, as (name, address) pairs in order: each device with a
/// serial number not seen earlier in the listing, named by its product string and addressed by
/// its serial number. Devices without serial number are skipped.
pub open spec fn hid_announcements(devs: Seq<ListingView>) -> Seq<(Seq<char>, Seq<char>)>
    decreases devs.len(),
{
    if devs.len() == 0 {
        Seq::empty()
    } else {
        let prev = hid_announcements(devs.drop_last());
        match devs.last().0 {
            None => prev,
            Some(serial) => if serial_listed(devs.drop_last(), serial) {
                prev
            } else {
                prev.push((devs.last().1->Some_0, serial))
            },
        }
    }
}

/// Whether a device that would be announced has no product string to name it by.
pub open spec fn announcement_unnamed(devs: Seq<ListingView>) -> bool {
    exists|i: int|
        0 <= i < devs.len() && (#[trigger] devs[i].0 matches Some(serial) && !serial_listed(
            devs.subrange(0, i),
            serial,
        ) && devs[i].1 is None)
}

fn serial_seen_before(devices: &[HidDeviceListing], n: usize, serial: &String) -> (r: bool)
    requires
        n <= devices@.len(),
    ensures
        r == serial_listed(listings_view(devices@).subrange(0, n as int), serial@),
{
    let ghost pre = listings_view(devices@).subrange(0, n as int);
    let mut j: usize = 0;
    while j < n
        invariant
            j <= n,
            n <= devices@.len(),
            pre == listings_view(devices@).subrange(0, n as int),
            forall|t: int| 0 <= t < j ==> pre[t].0 != Some(serial@),
        decreases n - j,
    {
        assert(pre[j as int] == (opt_string_view(devices@[j as int].serial_number), opt_string_view(
            devices@[j as int].product_string,
        )));
        match &devices[j].serial_number {
            Some(s) => {
                if *s == *serial {
                    return true;
                }
            },
            None => {},
        }
        j = j + 1;
    }
    false
}

/// The devices to announce from a HID listing (see `hid_announcements`).
pub fn select_hid_devices(devices: &[HidDeviceListing]) -> (r: Vec<(String, String)>)
    requires
        !announcement_unnamed(listings_view(devices@)),
    ensures
        r@.len() == hid_announcements(listings_view(devices@)).len(),
        forall|k: int|
            0 <= k < r@.len() ==> (#[trigger] r@[k].0@, r@[k].1@) == hid_announcements(
                listings_view(devices@),
            )[k],
{
    let ghost lv = listings_view(devices@);
    let mut out: Vec<(String, String)> = Vec::new();
    let mut i: usize = 0;
    while i < devices.len()
        invariant
            i <= devices@.len(),
            lv == listings_view(devices@),
            !announcement_unnamed(lv),
            out@.len() == hid_announcements(lv.subrange(0, i as int)).len(),
            forall|k: int|
                0 <= k < out@.len() ==> (#[trigger] out@[k].0@, out@[k].1@) == hid_announcements(
                    lv.subrange(0, i as int),
                )[k],
        decreases devices@.len() - i,
    {
        let d = &devices[i];
        let ghost pre = lv.subrange(0, i as int);
        let ghost next = lv.subrange(0, i + 1);
        proof {
            assert(next.drop_last() =~= pre);
            assert(next.last() == lv[i as int]);
            assert(lv[i as int] == (opt_string_view(d.serial_number), opt_string_view(d.product_string)));
        }
        match &d.serial_number {
            None => {},
            Some(serial) => {
                if !serial_seen_before(devices, i, serial) {
                    proof {
                        if lv[i as int].1 is None {
                            assert(lv[i as int].0 matches Some(x) && !serial_listed(lv.subrange(0, i as int), x));
                            assert(announcement_unnamed(lv));
                        }
                    }
                    let name = match &d.product_string {
                        Some(p) => p.clone(),
                        None => {
                            assert(false);
                            String::new()
                        },
                    };
                    out.push((name, serial.clone()));
                }
            },
        }
        i = i + 1;
    }
    assert(lv.subrange(0, devices@.len() as int) =~= lv);
    out
}

/// The specifier a HID device is matched by: its vendor and product ids.
pub fn hid_device_specifier(vendor_id: u16, product_id: u16) -> (r: ProtocolCommunicationSpecifier)
    ensures
        r@ matches SpecifierView::HID(h) && h.spec_vendor_id() == vendor_id && h.spec_product_id()
            == product_id,
{
    ProtocolCommunicationSpecifier::HID(HIDSpecifier::new(vendor_id, product_id))
}

/// Endpoints of a HID device: it reads on `Rx` and writes on `Tx`.
pub fn hid_endpoints() -> (r: Vec<Endpoint>)
    ensures
        r@ == seq![Endpoint::Rx, Endpoint::Tx],
{
    let mut v: Vec<Endpoint> = Vec::new();
    v.push(Endpoint::Rx);
    v.push(Endpoint::Tx);
    assert(v@ =~= seq![Endpoint::Rx, Endpoint::Tx]);
    v
}

/// Builds the HID manager.
#[derive(Debug, Default, Clone, Copy)]
pub struct HidCommunicationManagerBuilder {}

} // verus!
