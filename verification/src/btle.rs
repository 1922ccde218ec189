//! Bluetooth LE discovery: which advertisements are announced as devices, and the decisions of
//! the task that drives the Bluetooth adapter.
use vstd::prelude::*;
use crate::assoc::{assoc_find, assoc_map, keys_unique, lemma_assoc_at, lemma_assoc_dom, lemma_assoc_len, pairs_view};
use crate::errors::ButtplugDeviceError;
use crate::message_attributes::opt_string_view;
use crate::text::{contains_seq, str_contains};

verus! {

/// Abstract value of an advertisement.
pub struct PeripheralView {
    pub name: Option<Seq<char>>,
    pub id: Seq<char>,
    pub manufacturer_data: Map<u16, Seq<u8>>,
    pub services: Seq<u128>,
}

/// What an advertisement says of a peripheral: its local name, its id (as the Bluetooth layer
/// prints it), its manufacturer data by company, and its advertised service UUIDs.
#[derive(Debug)]
pub struct PeripheralInfo {
    name: Option<String>,
    peripheral_id: String,
    manufacturer_data: Vec<(u16, Vec<u8>)>,
    services: Vec<u128>,
}

impl View for PeripheralInfo {
    type V = PeripheralView;

    closed spec fn view(&self) -> PeripheralView {
        PeripheralView {
            name: opt_string_view(self.name),
            id: self.peripheral_id@,
            manufacturer_data: assoc_map(pairs_view(self.manufacturer_data@)),
            services: self.services@,
        }
    }
}

fn clone_company_data(v: &[(u16, Vec<u8>)]) -> (r: Vec<(u16, Vec<u8>)>)
    ensures
        pairs_view(r@) == pairs_view(v@),
{
    let mut r: Vec<(u16, Vec<u8>)> = Vec::new();
    let mut i: usize = 0;
    while i < v.len()
        invariant
            i <= v@.len(),
            r@.len() == i,
            forall|t: int| 0 <= t < i ==> #[trigger] r@[t].0 == v@[t].0 && r@[t].1@ == v@[t].1@,
        decreases v@.len() - i,
    {
        let (c, d) = &v[i];
        r.push((*c, crate::specifier::byte_vec(d.as_slice())));
        i = i + 1;
    }
    assert(pairs_view(r@) =~= pairs_view(v@));
    r
}

impl Clone for PeripheralInfo {
    fn clone(&self) -> (r: Self)
        ensures
            r@ == self@,
    {
        proof {
            use_type_invariant(self);
        }
        PeripheralInfo {
            name: crate::message_attributes::clone_opt_string(&self.name),
            peripheral_id: self.peripheral_id.clone(),
            manufacturer_data: clone_company_data(self.manufacturer_data.as_slice()),
            services: crate::specifier::u128_vec(self.services.as_slice()),
        }
    }
}

impl PeripheralInfo {
    #[verifier::type_invariant]
    spec fn companies_unique(self) -> bool {
        keys_unique(pairs_view(self.manufacturer_data@))
    }

    /// The advertisement's information; manufacturer data comes by company, one entry per
    /// company.
    pub fn new(
        name: Option<String>,
        peripheral_id: String,
        manufacturer_data: Vec<(u16, Vec<u8>)>,
        services: Vec<u128>,
    ) -> (r: Self)
        requires
            keys_unique(pairs_view(manufacturer_data@)),
        ensures
            r@ == (PeripheralView {
                name: opt_string_view(name),
                id: peripheral_id@,
                manufacturer_data: assoc_map(pairs_view(manufacturer_data@)),
                services: services@,
            }),
    {
        PeripheralInfo { name, peripheral_id, manufacturer_data, services }
    }

    pub fn name(&self) -> (r: &Option<String>)
        ensures
            opt_string_view(*r) == self@.name,
    {
        &self.name
    }

    pub fn peripheral_id(&self) -> (r: &String)
        ensures
            r@ == self@.id,
    {
        &self.peripheral_id
    }

    pub fn services(&self) -> (r: &Vec<u128>)
        ensures
            r@ == self@.services,
    {
        &self.services
    }

    pub fn manufacturer_data(&self) -> (r: &Vec<(u16, Vec<u8>)>)
        ensures
            assoc_map(pairs_view(r@)) == self@.manufacturer_data,
            keys_unique(pairs_view(r@)),
    {
        proof {
            use_type_invariant(self);
        }
        &self.manufacturer_data
    }
}

fn bytes_equal(a: &[u8], b: &[u8]) -> (r: bool)
    ensures
        r == (a@ == b@),
{
    if a.len() != b.len() {
        return false;
    }
    let mut i: usize = 0;
    while i < a.len()
        invariant
            i <= a@.len(),
            a@.len() == b@.len(),
            forall|t: int| 0 <= t < i ==> a@[t] == b@[t],
        decreases a@.len() - i,
    {
        if a[i] != b[i] {
            return false;
        }
        i = i + 1;
    }
    assert(a@ =~= b@);
    true
}

fn u128s_equal(a: &[u128], b: &[u128]) -> (r: bool)
    ensures
        r == (a@ == b@),
{
    if a.len() != b.len() {
        return false;
    }
    let mut i: usize = 0;
    while i < a.len()
        invariant
            i <= a@.len(),
            a@.len() == b@.len(),
            forall|t: int| 0 <= t < i ==> a@[t] == b@[t],
        decreases a@.len() - i,
    {
        if a[i] != b[i] {
            return false;
        }
        i = i + 1;
    }
    assert(a@ =~= b@);
    true
}

fn opt_strings_equal(a: &Option<String>, b: &Option<String>) -> (r: bool)
    ensures
        r == (opt_string_view(*a) == opt_string_view(*b)),
{
    match (a, b) {
        (Some(x), Some(y)) => *x == *y,
        (None, None) => true,
        _ => false,
    }
}

/// Whether two lists of company data, each listing a company once, describe the same data.
fn company_data_equal(a: &[(u16, Vec<u8>)], b: &[(u16, Vec<u8>)]) -> (r: bool)
    requires
        keys_unique(pairs_view(a@)),
        keys_unique(pairs_view(b@)),
    ensures
        r == (assoc_map(pairs_view(a@)) == assoc_map(pairs_view(b@))),
{
    let ghost pa = pairs_view(a@);
    let ghost pb = pairs_view(b@);
    proof {
        lemma_assoc_len(pa);
        lemma_assoc_len(pb);
        lemma_assoc_dom(pa);
        lemma_assoc_dom(pb);
    }
    if a.len() != b.len() {
        return false;
    }
    let mut i: usize = 0;
    while i < a.len()
        invariant
            i <= a@.len(),
            a@.len() == b@.len(),
            pa == pairs_view(a@),
            pb == pairs_view(b@),
            keys_unique(pa),
            keys_unique(pb),
            forall|t: int|
                0 <= t < i ==> assoc_map(pb).dom().contains(#[trigger] pa[t].0) && assoc_map(pb)[pa[t].0]
                    == pa[t].1,
        decreases a@.len() - i,
    {
        let (company, data) = &a[i];
        assert(pa[i as int] == (*company, data@));
        match assoc_find(b, company) {
            Some(j) => {
                proof {
                    lemma_assoc_at(pb, j as int);
                }
                if !bytes_equal(data.as_slice(), b[j].1.as_slice()) {
                    proof {
                        lemma_assoc_at(pa, i as int);
                    }
                    return false;
                }
            },
            None => {
                proof {
                    lemma_assoc_at(pa, i as int);
                }
                return false;
            },
        }
        i = i + 1;
    }
    proof {
        let ma = assoc_map(pa);
        let mb = assoc_map(pb);
        assert(ma.dom().subset_of(mb.dom())) by {
            assert forall|k: u16| ma.dom().contains(k) implies mb.dom().contains(k) by {
                let t = choose|t: int| 0 <= t < pa.len() && pa[t].0 == k;
                assert(mb.dom().contains(pa[t].0));
            }
        }
        vstd::set_lib::lemma_subset_equality(ma.dom(), mb.dom());
        assert forall|k: u16| ma.dom().contains(k) implies ma[k] == mb[k] by {
            let t = choose|t: int| 0 <= t < pa.len() && pa[t].0 == k;
            lemma_assoc_at(pa, t);
            assert(mb[pa[t].0] == pa[t].1);
        }
        assert(ma =~= mb);
    }
    true
}

/// Whether two advertisements say the same of the same peripheral.
pub fn same_peripheral(a: &PeripheralInfo, b: &PeripheralInfo) -> (r: bool)
    ensures
        r == (a@ == b@),
{
    proof {
        use_type_invariant(a);
        use_type_invariant(b);
    }
    opt_strings_equal(&a.name, &b.name) && a.peripheral_id == b.peripheral_id && company_data_equal(
        a.manufacturer_data.as_slice(),
        b.manufacturer_data.as_slice(),
    ) && u128s_equal(a.services.as_slice(), b.services.as_slice())
}

/// The name a peripheral is announced under: its local name, or nothing when it has none.
pub open spec fn announced_name(p: PeripheralView) -> Seq<char> {
    match p.name {
        Some(n) => n,
        None => Seq::empty(),
    }
}

/// Whether an advertisement is announced: it has a name or advertises a service, and the same
/// advertisement has not been announced already.
pub open spec fn announces(tried: Seq<PeripheralView>, p: PeripheralView) -> bool {
    (announced_name(p).len() > 0 || p.services.len() > 0) && !tried.contains(p)
}

/// The advertisements announced since scanning last started.
#[derive(Debug)]
pub struct TriedPeripherals {
    tried: Vec<PeripheralInfo>,
}

impl View for TriedPeripherals {
    type V = Seq<PeripheralView>;

    closed spec fn view(&self) -> Seq<PeripheralView> {
        self.tried@.map_values(|p: PeripheralInfo| p@)
    }
}

impl TriedPeripherals {
    pub fn new() -> (r: Self)
        ensures
            r@ == Seq::<PeripheralView>::empty(),
    {
        let r = TriedPeripherals { tried: Vec::new() };
        assert(r@ =~= Seq::<PeripheralView>::empty());
        r
    }

    fn contains(&self, p: &PeripheralInfo) -> (r: bool)
        ensures
            r == self@.contains(p@),
    {
        let mut i: usize = 0;
        while i < self.tried.len()
            invariant
                i <= self.tried@.len(),
                forall|t: int| 0 <= t < i ==> self.tried@[t]@ != p@,
            decreases self.tried@.len() - i,
        {
            if same_peripheral(&self.tried[i], p) {
                assert(self@[i as int] == p@);
                return true;
            }
            i = i + 1;
        }
        assert(!self@.contains(p@)) by {
            if self@.contains(p@) {
                let t = choose|t: int| 0 <= t < self@.len() && self@[t] == p@;
                assert(self.tried@[t]@ == p@);
            }
        }
        false
    }

    /// Records a new advertisement and gives the (name, address) to announce it under, the
    /// address being the peripheral's id; an advertisement without name and services, or one
    /// already announced, is ignored.
    pub fn maybe_add(&mut self, info: PeripheralInfo) -> (r: Option<(String, String)>)
        ensures
            announces(old(self)@, info@) ==> (r matches Some((n, a)) && n@ == announced_name(info@) && a@
                == info@.id && final(self)@ == old(self)@.push(info@)),
            !announces(old(self)@, info@) ==> r is None && final(self)@ == old(self)@,
    {
        let name = match &info.name {
            Some(n) => n.clone(),
            None => String::new(),
        };
        assert(name@ == announced_name(info@));
        if (!name.as_str().is_empty() || info.services.len() > 0) && !self.contains(&info) {
            let address = info.peripheral_id.clone();
            let ghost before = self@;
            let ghost iv = info@;
            self.tried.push(info);
            assert(self@ =~= before.push(iv));
            Some((name, address))
        } else {
            None
        }
    }

    /// Forgets the advertisements of a peripheral that disconnected.
    pub fn forget(&mut self, peripheral_id: &str)
        ensures
            final(self)@ == old(self)@.filter(|p: PeripheralView| p.id != peripheral_id@),
    {
        let id = peripheral_id.to_owned();
        let ghost before = self@;
        let ghost pred = |p: PeripheralView| p.id != peripheral_id@;
        let mut kept: Vec<PeripheralInfo> = Vec::new();
        let mut i: usize = 0;
        assert(before.subrange(0, 0).filter(pred) =~= Seq::<PeripheralView>::empty()) by {
            reveal(Seq::filter);
        }
        assert(kept@.map_values(|p: PeripheralInfo| p@) =~= Seq::<PeripheralView>::empty());
        while i < self.tried.len()
            invariant
                i <= self.tried@.len(),
                id@ == peripheral_id@,
                before == self@,
                pred == (|p: PeripheralView| p.id != peripheral_id@),
                kept@.map_values(|p: PeripheralInfo| p@) == before.subrange(0, i as int).filter(pred),
            decreases self.tried@.len() - i,
        {
            let ghost k0 = kept@.map_values(|p: PeripheralInfo| p@);
            proof {
                assert(before.subrange(0, i + 1) =~= before.subrange(0, i as int).push(before[i as int]));
                before.subrange(0, i as int).lemma_filter_push(before[i as int], pred);
                assert(before[i as int] == self.tried@[i as int]@);
            }
            if self.tried[i].peripheral_id != id {
                let c = self.tried[i].clone();
                kept.push(c);
                assert(kept@.map_values(|p: PeripheralInfo| p@) =~= k0.push(before[i as int]));
            }
            i = i + 1;
        }
        assert(before.subrange(0, before.len() as int) =~= before);
        self.tried = kept;
    }

    /// Forgets every advertisement, as a new scan starts.
    pub fn clear(&mut self)
        ensures
            final(self)@ == Seq::<PeripheralView>::empty(),
    {
        self.tried = Vec::new();
        assert(self@ =~= Seq::<PeripheralView>::empty());
    }
}

} // verus!

verus! {

/// A command to the task that drives the Bluetooth adapter.
#[derive(Debug, Clone, Copy, PartialEq, Eq, Structural)]
pub enum BtleplugAdapterCommand {
    StartScanning,
    StopScanning,
}

/// What the adapter task waits for: an advertisement seen or updated, a peripheral gone, some
/// other adapter event, a command, or the end of either stream.
#[derive(Debug)]
pub enum AdapterEvent {
    Discovered(PeripheralInfo),
    Updated(PeripheralInfo),
    Disconnected(String),
    Other,
    EventStreamClosed,
    Command(BtleplugAdapterCommand),
    CommandStreamClosed,
}

/// Abstract value of an adapter event.
pub enum AdapterEventView {
    Discovered(PeripheralView),
    Updated(PeripheralView),
    Disconnected(Seq<char>),
    Other,
    EventStreamClosed,
    Command(BtleplugAdapterCommand),
    CommandStreamClosed,
}

impl View for AdapterEvent {
    type V = AdapterEventView;

    open spec fn view(&self) -> AdapterEventView {
        match self {
            AdapterEvent::Discovered(p) => AdapterEventView::Discovered(p@),
            AdapterEvent::Updated(p) => AdapterEventView::Updated(p@),
            AdapterEvent::Disconnected(id) => AdapterEventView::Disconnected(id@),
            AdapterEvent::Other => AdapterEventView::Other,
            AdapterEvent::EventStreamClosed => AdapterEventView::EventStreamClosed,
            AdapterEvent::Command(c) => AdapterEventView::Command(*c),
            AdapterEvent::CommandStreamClosed => AdapterEventView::CommandStreamClosed,
        }
    }
}

/// The advertisements remembered after one adapter event (see `adapter_step`).
pub open spec fn tried_after(tried: Seq<PeripheralView>, e: AdapterEventView) -> Seq<PeripheralView> {
    match e {
        AdapterEventView::Discovered(p) => if announces(tried, p) {
            tried.push(p)
        } else {
            tried
        },
        AdapterEventView::Updated(p) => if announces(tried, p) {
            tried.push(p)
        } else {
            tried
        },
        AdapterEventView::Disconnected(id) => tried.filter(|q: PeripheralView| q.id != id),
        AdapterEventView::Command(BtleplugAdapterCommand::StartScanning) => Seq::empty(),
        _ => tried,
    }
}

/// Whether the event makes the adapter task announce the advertisement `p`.
pub open spec fn announced_by(tried: Seq<PeripheralView>, e: AdapterEventView, p: PeripheralView) -> bool {
    match e {
        AdapterEventView::Discovered(q) => q == p && announces(tried, q),
        AdapterEventView::Updated(q) => q == p && announces(tried, q),
        _ => false,
    }
}

/// How many of the events, run in order from the remembered advertisements `tried`, announce
/// the advertisement `p`.
pub open spec fn announcements(tried: Seq<PeripheralView>, events: Seq<AdapterEventView>, p: PeripheralView) -> nat
    decreases events.len(),
{
    if events.len() == 0 {
        0
    } else {
        (if announced_by(tried, events[0], p) {
            1nat
        } else {
            0nat
        }) + announcements(tried_after(tried, events[0]), events.drop_first(), p)
    }
}

/// Whether the event lets the adapter task forget `p`: its peripheral disconnected, or a new
/// scan starts.
pub open spec fn forgets(e: AdapterEventView, p: PeripheralView) -> bool {
    ||| e matches AdapterEventView::Disconnected(id) && id == p.id
    ||| e == AdapterEventView::Command(BtleplugAdapterCommand::StartScanning)
}

/// What the adapter task does: announce a device (name, address), start or stop the adapter's
/// scan, or end.
#[derive(Debug)]
pub enum AdapterAction {
    DeviceFound(String, String),
    StartScan,
    StopScan,
    Exit,
}

/// One step of the adapter task: advertisements are announced once each (see `announces`) until
/// their peripheral disconnects or a new scan starts; starting a scan forgets every advertisement.
pub fn adapter_step(tried: &mut TriedPeripherals, event: AdapterEvent) -> (r: Option<AdapterAction>)
    ensures
        final(tried)@ == tried_after(old(tried)@, event@),
        (r matches Some(AdapterAction::DeviceFound(_, _))) <==> exists|p: PeripheralView| #[trigger] announced_by(
            old(tried)@,
            event@,
            p,
        ),
        match event {
            AdapterEvent::Discovered(p) | AdapterEvent::Updated(p) => if announces(old(tried)@, p@) {
                r matches Some(AdapterAction::DeviceFound(n, a)) && n@ == announced_name(p@) && a@ == p@.id
                    && final(tried)@ == old(tried)@.push(p@)
            } else {
                r is None && final(tried)@ == old(tried)@
            },
            AdapterEvent::Disconnected(id) => r is None && final(tried)@ == old(tried)@.filter(
                |q: PeripheralView| q.id != id@,
            ),
            AdapterEvent::Other => r is None && final(tried)@ == old(tried)@,
            AdapterEvent::Command(BtleplugAdapterCommand::StartScanning) => r matches Some(
                AdapterAction::StartScan,
            ) && final(tried)@ == Seq::<PeripheralView>::empty(),
            AdapterEvent::Command(BtleplugAdapterCommand::StopScanning) => r matches Some(
                AdapterAction::StopScan,
            ) && final(tried)@ == old(tried)@,
            AdapterEvent::EventStreamClosed | AdapterEvent::CommandStreamClosed => r matches Some(
                AdapterAction::Exit,
            ) && final(tried)@ == old(tried)@,
        },
{
    match event {
        AdapterEvent::Discovered(p) | AdapterEvent::Updated(p) => {
            let ghost pv = p@;
            let ghost before = tried@;
            match tried.maybe_add(p) {
                Some((n, a)) => {
                    assert(announced_by(before, event@, pv));
                    Some(AdapterAction::DeviceFound(n, a))
                },
                None => None,
            }
        },
        AdapterEvent::Disconnected(id) => {
            tried.forget(id.as_str());
            None
        },
        AdapterEvent::Other => None,
        AdapterEvent::Command(BtleplugAdapterCommand::StartScanning) => {
            tried.clear();
            Some(AdapterAction::StartScan)
        },
        AdapterEvent::Command(BtleplugAdapterCommand::StopScanning) => Some(AdapterAction::StopScan),
        AdapterEvent::EventStreamClosed | AdapterEvent::CommandStreamClosed => Some(AdapterAction::Exit),
    }
}

/// An advertisement announced once is not announced again while it is remembered.
pub proof fn lemma_announced_once(tried: Seq<PeripheralView>, p: PeripheralView)
    requires
        announces(tried, p),
    ensures
        !announces(tried.push(p), p),
{
    assert(tried.push(p)[tried.len() as int] == p);
}

/// Once remembered, an advertisement is not announced again by any run of events that does not
/// let the task forget it.
proof fn lemma_remembered_not_announced(tried: Seq<PeripheralView>, events: Seq<AdapterEventView>, p: PeripheralView)
    requires
        tried.contains(p),
        forall|k: int| 0 <= k < events.len() ==> !forgets(#[trigger] events[k], p),
    ensures
        announcements(tried, events, p) == 0,
    decreases events.len(),
{
    if events.len() > 0 {
        let e = events[0];
        assert(!forgets(e, p));
        let t2 = tried_after(tried, e);
        assert(t2.contains(p)) by {
            let i = choose|i: int| 0 <= i < tried.len() && tried[i] == p;
            match e {
                AdapterEventView::Discovered(q) => {
                    if announces(tried, q) {
                        assert(t2[i] == p);
                    }
                },
                AdapterEventView::Updated(q) => {
                    if announces(tried, q) {
                        assert(t2[i] == p);
                    }
                },
                AdapterEventView::Disconnected(id) => {
                    tried.lemma_filter_contains(|q: PeripheralView| q.id != id, i);
                },
                _ => {},
            }
        }
        let rest = events.drop_first();
        assert forall|k: int| 0 <= k < rest.len() implies !forgets(#[trigger] rest[k], p) by {
            assert(rest[k] == events[k + 1]);
        }
        lemma_remembered_not_announced(t2, rest, p);
    }
}

/// Until the adapter task may forget an advertisement (its peripheral disconnects, or a new scan
/// starts), it announces that advertisement at most once, whatever other events come between.
pub proof fn lemma_announced_at_most_once(tried: Seq<PeripheralView>, events: Seq<AdapterEventView>, p: PeripheralView)
    requires
        forall|k: int| 0 <= k < events.len() ==> !forgets(#[trigger] events[k], p),
    ensures
        announcements(tried, events, p) <= 1,
    decreases events.len(),
{
    if events.len() > 0 {
        let e = events[0];
        let t2 = tried_after(tried, e);
        let rest = events.drop_first();
        assert forall|k: int| 0 <= k < rest.len() implies !forgets(#[trigger] rest[k], p) by {
            assert(rest[k] == events[k + 1]);
        }
        if announced_by(tried, e, p) {
            assert(t2[tried.len() as int] == p);
            lemma_remembered_not_announced(t2, rest, p);
        } else {
            lemma_announced_at_most_once(t2, rest, p);
        }
    }
}

/// Builds the Bluetooth LE manager; devices it finds may be set to need keepalive writes.
#[derive(Debug, Default, Clone, Copy)]
pub struct BtlePlugCommunicationManagerBuilder {
    require_keepalive: bool,
}

impl BtlePlugCommunicationManagerBuilder {
    pub closed spec fn spec_require_keepalive(&self) -> bool {
        self.require_keepalive
    }

    pub fn requires_keepalive(&mut self, require: bool) -> (r: &mut Self)
        ensures
            r.spec_require_keepalive() == require,
            *final(self) == *final(r),
    {
        self.require_keepalive = require;
        self
    }

    pub fn require_keepalive(&self) -> (r: bool)
        ensures
            r == self.spec_require_keepalive(),
    {
        self.require_keepalive
    }
}

/// The Bluetooth LE manager's flags: whether it scans, and whether an adapter was found.
#[derive(Debug)]
pub struct BtleScanState {
    scanning: bool,
    adapter_connected: bool,
}

impl BtleScanState {
    /// A new manager neither scans nor has an adapter.
    pub fn new() -> (r: Self)
        ensures
            !r.spec_scanning(),
            !r.spec_adapter_connected(),
    {
        BtleScanState { scanning: false, adapter_connected: false }
    }

    pub closed spec fn spec_scanning(&self) -> bool {
        self.scanning
    }

    pub closed spec fn spec_adapter_connected(&self) -> bool {
        self.adapter_connected
    }

    /// Starting a scan sets the flag at once, so that scanning is not reported finished early.
    pub fn start_scanning(&mut self)
        ensures
            final(self).spec_scanning(),
            final(self).spec_adapter_connected() == old(self).spec_adapter_connected(),
    {
        self.scanning = true;
    }

    /// The start request could not reach the adapter task: the scan did not start.
    pub fn start_request_failed(&mut self) -> (r: ButtplugDeviceError)
        ensures
            !final(self).spec_scanning(),
            final(self).spec_adapter_connected() == old(self).spec_adapter_connected(),
            r matches ButtplugDeviceError::DeviceConnectionError(m) && m@
                == "Cannot send start scanning request to event loop."@,
    {
        self.scanning = false;
        ButtplugDeviceError::DeviceConnectionError(
            "Cannot send start scanning request to event loop.".to_owned(),
        )
    }

    /// Any stop request counts as the end of the scan.
    pub fn stop_scanning(&mut self)
        ensures
            !final(self).spec_scanning(),
            final(self).spec_adapter_connected() == old(self).spec_adapter_connected(),
    {
        self.scanning = false;
    }

    /// The adapter task starts by assuming an adapter is there.
    pub fn adapter_search_started(&mut self)
        ensures
            final(self).spec_adapter_connected(),
            final(self).spec_scanning() == old(self).spec_scanning(),
    {
        self.adapter_connected = true;
    }

    /// Records whether the adapter search found an adapter; says whether the loss of the adapter
    /// is news (it is reported once).
    pub fn adapter_search_result(&mut self, found: bool) -> (r: bool)
        ensures
            found ==> final(self).spec_adapter_connected() == old(self).spec_adapter_connected() && !r,
            !found ==> !final(self).spec_adapter_connected() && r == old(self).spec_adapter_connected(),
            final(self).spec_scanning() == old(self).spec_scanning(),
    {
        if found {
            false
        } else {
            let news = self.adapter_connected;
            self.adapter_connected = false;
            news
        }
    }

    pub fn scanning_status(&self) -> (r: bool)
        ensures
            r == self.spec_scanning(),
    {
        self.scanning
    }

    /// The manager can scan while it has an adapter.
    pub fn can_scan(&self) -> (r: bool)
        ensures
            r == self.spec_adapter_connected(),
    {
        self.adapter_connected
    }
}

/// The maker of a Windows Bluetooth adapter, read from the vendor id in its device id.
pub open spec fn spec_adapter_manufacturer(device_id: Seq<char>) -> Seq<char> {
    if contains_seq(device_id, "VID_0A12"@) {
        "Cambridge Silicon Radio (CSR)"@
    } else if contains_seq(device_id, "VID_0A5C"@) {
        "Broadcom"@
    } else if contains_seq(device_id, "VID_8087"@) {
        "Intel"@
    } else if contains_seq(device_id, "VID_0BDA"@) {
        "RealTek"@
    } else if contains_seq(device_id, "VID_0B05"@) {
        "Asus"@
    } else if contains_seq(device_id, "VID_13D3"@) {
        "IMC"@
    } else if contains_seq(device_id, "VID_10D7"@) {
        "Actions Semi"@
    } else {
        "Unknown Manufacturer"@
    }
}

/// The maker of a Windows Bluetooth adapter (see `spec_adapter_manufacturer`).
pub fn adapter_manufacturer(device_id: &str) -> (r: &'static str)
    ensures
        r@ == spec_adapter_manufacturer(device_id@),
{
    if str_contains(device_id, "VID_0A12") {
        "Cambridge Silicon Radio (CSR)"
    } else if str_contains(device_id, "VID_0A5C") {
        "Broadcom"
    } else if str_contains(device_id, "VID_8087") {
        "Intel"
    } else if str_contains(device_id, "VID_0BDA") {
        "RealTek"
    } else if str_contains(device_id, "VID_0B05") {
        "Asus"
    } else if str_contains(device_id, "VID_13D3") {
        "IMC"
    } else if str_contains(device_id, "VID_10D7") {
        "Actions Semi"
    } else {
        "Unknown Manufacturer"
    }
}

} // verus!
