//! Communication specifiers: how a protocol recognises the hardware it can drive, and how a
//! specifier built from a discovered device is matched against a protocol's specifiers.
use vstd::prelude::*;
use vstd::std_specs::cmp::PartialEqSpecImpl;
use crate::messages::Endpoint;
use crate::text::{
    chars_prefix, clone_strings, contains_u128, dedup_strings, dedup_u128, insert_string, insert_u128,
    is_prefix, string_chars, strings_view,
};

verus! {

/// Abstract value of a manufacturer data entry of a Bluetooth LE advertisement.
pub struct ManufacturerDataView {
    pub company: u16,
    pub data: Option<Seq<u8>>,
}

/// Manufacturer data from a Bluetooth LE advertisement, or expected in one.
#[derive(Debug)]
pub struct BluetoothLEManufacturerData {
    company: u16,
    data: Option<Vec<u8>>,
}

/// Abstract value of optional bytes.
pub open spec fn opt_bytes_view(o: Option<Vec<u8>>) -> Option<Seq<u8>> {
    match o {
        Some(v) => Some(v@),
        None => None,
    }
}

impl View for BluetoothLEManufacturerData {
    type V = ManufacturerDataView;

    closed spec fn view(&self) -> ManufacturerDataView {
        ManufacturerDataView { company: self.company, data: opt_bytes_view(self.data) }
    }
}

/// Copies bytes into a new vector.
pub fn byte_vec(b: &[u8]) -> (v: Vec<u8>)
    ensures
        v@ == b@,
{
    let mut v: Vec<u8> = Vec::new();
    let mut i: usize = 0;
    while i < b.len()
        invariant
            i <= b@.len(),
            v@ == b@.subrange(0, i as int),
        decreases b@.len() - i,
    {
        v.push(b[i]);
        i = i + 1;
    }
    assert(v@ =~= b@);
    v
}

fn clone_opt_bytes(o: &Option<Vec<u8>>) -> (r: Option<Vec<u8>>)
    ensures
        opt_bytes_view(r) == opt_bytes_view(*o),
{
    match o {
        Some(v) => Some(byte_vec(v.as_slice())),
        None => None,
    }
}

impl Clone for BluetoothLEManufacturerData {
    fn clone(&self) -> (r: Self)
        ensures
            r@ == self@,
    {
        BluetoothLEManufacturerData { company: self.company, data: clone_opt_bytes(&self.data) }
    }
}

/// Whether `needle` occurs in `hay` starting at some position of `hay`.
pub open spec fn occurs_in(needle: Seq<u8>, hay: Seq<u8>) -> bool {
    exists|k: int|
        0 <= k < hay.len() && k + needle.len() <= hay.len() && #[trigger] hay.subrange(
            k,
            k + needle.len(),
        ) == needle
}

/// Whether two manufacturer data entries describe the same manufacturer data. Companies must
/// agree. An entry without data matches any data of its company; data of equal length must be
/// equal; otherwise the shorter must occur in the longer.
pub open spec fn manufacturer_data_matches(a: ManufacturerDataView, b: ManufacturerDataView) -> bool {
    a.company == b.company && match (a.data, b.data) {
        (Some(d), Some(o)) => if d.len() == o.len() {
            d == o
        } else if d.len() < o.len() {
            occurs_in(d, o)
        } else {
            occurs_in(o, d)
        },
        _ => true,
    }
}

/// Whether `needle` occurs in `hay` at position `k`.
fn bytes_match_at(hay: &[u8], k: usize, needle: &[u8]) -> (r: bool)
    requires
        k <= hay@.len(),
    ensures
        r == (k + needle@.len() <= hay@.len() && hay@.subrange(k as int, k + needle@.len())
            == needle@),
{
    if needle.len() > hay.len() - k {
        return false;
    }
    let hl = hay.len();
    let mut j: usize = 0;
    while j < needle.len()
        invariant
            hl == hay@.len(),
            k + needle@.len() <= hay@.len(),
            j <= needle@.len(),
            forall|t: int| 0 <= t < j ==> hay@[k + t] == needle@[t],
        decreases needle@.len() - j,
    {
        assert(k + j < hay@.len());
        if hay[k + j] != needle[j] {
            assert(hay@.subrange(k as int, k + needle@.len())[j as int] != needle@[j as int]);
            return false;
        }
        j = j + 1;
    }
    assert(hay@.subrange(k as int, k + needle@.len()) =~= needle@);
    true
}

/// Whether `needle` occurs in `hay`, trying each start position of `hay` in turn.
fn bytes_occur_in(needle: &[u8], hay: &[u8]) -> (r: bool)
    ensures
        r == occurs_in(needle@, hay@),
{
    let mut k: usize = 0;
    while k < hay.len()
        invariant
            k <= hay@.len(),
            forall|t: int|
                0 <= t < k ==> !(t + needle@.len() <= hay@.len() && #[trigger] hay@.subrange(
                    t,
                    t + needle@.len(),
                ) == needle@),
        decreases hay@.len() - k,
    {
        if bytes_match_at(hay, k, needle) {
            return true;
        }
        k = k + 1;
    }
    false
}

impl BluetoothLEManufacturerData {
    pub fn new(company: u16, data: &Option<Vec<u8>>) -> (r: Self)
        ensures
            r@ == (ManufacturerDataView { company, data: opt_bytes_view(*data) }),
    {
        BluetoothLEManufacturerData { company, data: clone_opt_bytes(data) }
    }

    pub fn company(&self) -> (r: u16)
        ensures
            r == self@.company,
    {
        self.company
    }

    pub fn data(&self) -> (r: &Option<Vec<u8>>)
        ensures
            opt_bytes_view(*r) == self@.data,
    {
        &self.data
    }

    pub fn set_company(&mut self, company: u16)
        ensures
            final(self)@ == (ManufacturerDataView { company, ..old(self)@ }),
    {
        self.company = company;
    }

    pub fn set_data(&mut self, data: Option<Vec<u8>>)
        ensures
            final(self)@ == (ManufacturerDataView { data: opt_bytes_view(data), ..old(self)@ }),
    {
        self.data = data;
    }
}

impl PartialEq for BluetoothLEManufacturerData {
    fn eq(&self, other: &Self) -> (r: bool) {
        if self.company != other.company {
            return false;
        }
        match (&self.data, &other.data) {
            (Some(data), Some(other_data)) => {
                if data.len() == other_data.len() {
                    let same = bytes_match_at(data.as_slice(), 0, other_data.as_slice());
                    proof {
                        assert(data@.subrange(0, data@.len() as int) =~= data@);
                    }
                    same
                } else if data.len() < other_data.len() {
                    bytes_occur_in(data.as_slice(), other_data.as_slice())
                } else {
                    bytes_occur_in(other_data.as_slice(), data.as_slice())
                }
            },
            _ => true,
        }
    }
}

impl PartialEqSpecImpl for BluetoothLEManufacturerData {
    open spec fn obeys_eq_spec() -> bool {
        true
    }

    open spec fn eq_spec(&self, other: &Self) -> bool {
        manufacturer_data_matches(self@, other@)
    }
}

/// Matching manufacturer data does not depend on which side is which.
pub proof fn lemma_manufacturer_data_matches_symmetric(a: ManufacturerDataView, b: ManufacturerDataView)
    ensures
        manufacturer_data_matches(a, b) == manufacturer_data_matches(b, a),
{
}

/// Entries of different companies never match; an entry without data matches any entry of its
/// company; data of equal length match only when they are equal; and data of different lengths
/// match exactly when the shorter appears, in one piece, within the longer.
pub proof fn lemma_manufacturer_data_match_cases(a: ManufacturerDataView, b: ManufacturerDataView)
    ensures
        a.company != b.company ==> !manufacturer_data_matches(a, b),
        a.company == b.company && (a.data is None || b.data is None) ==> manufacturer_data_matches(a, b),
        a.data is Some && b.data is Some && a.data->Some_0.len() == b.data->Some_0.len() ==> (
        manufacturer_data_matches(a, b) <==> a.company == b.company && a.data->Some_0 == b.data->Some_0),
        a.data is Some && b.data is Some && a.data->Some_0.len() < b.data->Some_0.len() ==> (
        manufacturer_data_matches(a, b) <==> a.company == b.company && exists|k: int|
            0 <= k && k + a.data->Some_0.len() <= b.data->Some_0.len() && #[trigger] b.data->Some_0.subrange(
                k,
                k + a.data->Some_0.len(),
            ) == a.data->Some_0),
{
    if a.data is Some && b.data is Some && a.data->Some_0.len() < b.data->Some_0.len() && a.company == b.company {
        let d = a.data->Some_0;
        let o = b.data->Some_0;
        if exists|k: int| 0 <= k && k + d.len() <= o.len() && #[trigger] o.subrange(k, k + d.len()) == d {
            let k = choose|k: int| 0 <= k && k + d.len() <= o.len() && #[trigger] o.subrange(k, k + d.len()) == d;
            let w = if k < o.len() {
                k
            } else {
                0
            };
            assert(o.subrange(w, w + d.len()) =~= d);
            assert(0 <= w < o.len() && w + d.len() <= o.len());
            assert(occurs_in(d, o));
        }
        if occurs_in(d, o) {
            let k = choose|k: int| 0 <= k < o.len() && k + d.len() <= o.len() && #[trigger] o.subrange(k, k + d.len()) == d;
            assert(o.subrange(k, k + d.len()) == d);
        }
    }
}

/// Every manufacturer data entry matches itself.
pub proof fn lemma_manufacturer_data_matches_reflexive(a: ManufacturerDataView)
    ensures
        manufacturer_data_matches(a, a),
{
}

} // verus!

verus! {

/// Abstract value of a GATT service description: its UUID and, for each endpoint, the UUID of
/// the characteristic that serves it.
pub type ServiceView = (u128, Seq<(Endpoint, u128)>);

/// A GATT service that a protocol expects, with the characteristic serving each endpoint.
#[derive(Debug)]
pub struct BluetoothLEService {
    pub uuid: u128,
    pub characteristics: Vec<(Endpoint, u128)>,
}

impl View for BluetoothLEService {
    type V = ServiceView;

    open spec fn view(&self) -> ServiceView {
        (self.uuid, self.characteristics@)
    }
}

fn clone_characteristics(v: &[(Endpoint, u128)]) -> (r: Vec<(Endpoint, u128)>)
    ensures
        r@ == v@,
{
    let mut r: Vec<(Endpoint, u128)> = Vec::new();
    let mut i: usize = 0;
    while i < v.len()
        invariant
            i <= v@.len(),
            r@ == v@.subrange(0, i as int),
        decreases v@.len() - i,
    {
        let (e, u) = v[i];
        r.push((e, u));
        i = i + 1;
    }
    assert(r@ =~= v@);
    r
}

impl Clone for BluetoothLEService {
    fn clone(&self) -> (r: Self)
        ensures
            r@ == self@,
    {
        BluetoothLEService {
            uuid: self.uuid,
            characteristics: clone_characteristics(self.characteristics.as_slice()),
        }
    }
}

/// Abstract values of a list of services.
pub open spec fn services_view(s: Seq<BluetoothLEService>) -> Seq<ServiceView> {
    s.map_values(|x: BluetoothLEService| x@)
}

/// No two services of the list share a UUID.
pub open spec fn service_keys_unique(s: Seq<ServiceView>) -> bool {
    forall|i: int, j: int| 0 <= i < s.len() && 0 <= j < s.len() && i != j ==> s[i].0 != s[j].0
}

/// The characteristics listed for the service with UUID `k`, if the list has that service.
pub open spec fn service_lookup(s: Seq<ServiceView>, k: u128) -> Option<Seq<(Endpoint, u128)>> {
    if exists|i: int| 0 <= i < s.len() && s[i].0 == k {
        Some(s[choose|i: int| 0 <= i < s.len() && s[i].0 == k].1)
    } else {
        None
    }
}

proof fn lemma_lookup_at(s: Seq<ServiceView>, i: int)
    requires
        service_keys_unique(s),
        0 <= i < s.len(),
    ensures
        service_lookup(s, s[i].0) == Some(s[i].1),
{
}

fn clone_services(v: &[BluetoothLEService]) -> (r: Vec<BluetoothLEService>)
    ensures
        services_view(r@) == services_view(v@),
{
    let mut r: Vec<BluetoothLEService> = Vec::new();
    let mut i: usize = 0;
    while i < v.len()
        invariant
            i <= v@.len(),
            r@.len() == i,
            forall|j: int| 0 <= j < i ==> #[trigger] r@[j]@ == v@[j]@,
        decreases v@.len() - i,
    {
        r.push(v[i].clone());
        i = i + 1;
    }
    assert(services_view(r@) =~= services_view(v@));
    r
}

/// Records `service`, replacing the entry with the same UUID if there is one.
fn insert_service(v: &mut Vec<BluetoothLEService>, service: BluetoothLEService)
    requires
        service_keys_unique(services_view(old(v)@)),
    ensures
        service_keys_unique(services_view(final(v)@)),
        forall|k: u128|
            #[trigger] service_lookup(services_view(final(v)@), k) == if k == service.uuid {
                Some(service.characteristics@)
            } else {
                service_lookup(services_view(old(v)@), k)
            },
{
    let ghost before = services_view(v@);
    let mut i: usize = 0;
    while i < v.len()
        invariant
            i <= v@.len(),
            v@ == old(v)@,
            before == services_view(v@),
            service_keys_unique(before),
            forall|j: int| 0 <= j < i ==> v@[j].uuid != service.uuid,
        decreases v@.len() - i,
    {
        if v[i].uuid == service.uuid {
            let ghost sv = service@;
            assert(before[i as int].0 == sv.0);
            v.set(i, service);
            proof {
                let after = services_view(v@);
                assert(after =~= before.update(i as int, sv));
                assert(service_keys_unique(after));
                assert forall|k: u128| #[trigger] service_lookup(after, k) == if k == sv.0 {
                    Some(sv.1)
                } else {
                    service_lookup(before, k)
                } by {
                    if k == sv.0 {
                        lemma_lookup_at(after, i as int);
                    } else {
                        if exists|j: int| 0 <= j < before.len() && before[j].0 == k {
                            let j = choose|j: int| 0 <= j < before.len() && before[j].0 == k;
                            lemma_lookup_at(before, j);
                            lemma_lookup_at(after, j);
                        } else {
                            assert(!exists|j: int| 0 <= j < after.len() && after[j].0 == k) by {
                                if exists|j: int| 0 <= j < after.len() && after[j].0 == k {
                                    let j = choose|j: int| 0 <= j < after.len() && after[j].0 == k;
                                    assert(before[j].0 == k);
                                }
                            }
                        }
                    }
                }
            }
            return;
        }
        i = i + 1;
    }
    let ghost sv = service@;
    v.push(service);
    proof {
        let after = services_view(v@);
        assert(after =~= before.push(sv));
        assert(service_keys_unique(after));
        assert forall|k: u128| #[trigger] service_lookup(after, k) == if k == sv.0 {
            Some(sv.1)
        } else {
            service_lookup(before, k)
        } by {
            if k == sv.0 {
                lemma_lookup_at(after, before.len() as int);
            } else {
                if exists|j: int| 0 <= j < before.len() && before[j].0 == k {
                    let j = choose|j: int| 0 <= j < before.len() && before[j].0 == k;
                    lemma_lookup_at(before, j);
                    lemma_lookup_at(after, j);
                } else {
                    assert(!exists|j: int| 0 <= j < after.len() && after[j].0 == k) by {
                        if exists|j: int| 0 <= j < after.len() && after[j].0 == k {
                            let j = choose|j: int| 0 <= j < after.len() && after[j].0 == k;
                            assert(before[j].0 == k);
                        }
                    }
                }
            }
        }
    }
}

} // verus!

verus! {

/// Abstract value of a Bluetooth LE specifier.
pub struct BleSpecifierView {
    pub names: Seq<Seq<char>>,
    pub manufacturer_data: Seq<ManufacturerDataView>,
    pub advertised_services: Seq<u128>,
    pub services: Seq<ServiceView>,
}

/// Names and advertised services are sets (no repetitions) and each service UUID is listed once.
pub open spec fn ble_well_formed(v: BleSpecifierView) -> bool {
    &&& v.names.no_duplicates()
    &&& v.advertised_services.no_duplicates()
    &&& service_keys_unique(v.services)
}

/// Abstract values of a list of manufacturer data entries.
pub open spec fn manufacturer_data_view(s: Seq<BluetoothLEManufacturerData>) -> Seq<
    ManufacturerDataView,
> {
    s.map_values(|x: BluetoothLEManufacturerData| x@)
}

/// Whether some name is in both lists.
pub open spec fn names_intersect(a: Seq<Seq<char>>, b: Seq<Seq<char>>) -> bool {
    exists|i: int, j: int| 0 <= i < a.len() && 0 <= j < b.len() && a[i] == b[j]
}

/// Whether a name ends with the wildcard character `*`.
pub open spec fn is_wildcard(n: Seq<char>) -> bool {
    n.len() > 0 && n.last() == '*'
}

/// Wildcard matching of two names: if the first ends with `*`, the second must start with the
/// first without its `*`; otherwise, if the second ends with `*`, the first must start with the
/// second without its `*`; two names without `*` never match here.
pub open spec fn wildcard_match(n: Seq<char>, o: Seq<char>) -> bool {
    if is_wildcard(n) {
        is_prefix(n.drop_last(), o)
    } else if is_wildcard(o) {
        is_prefix(o.drop_last(), n)
    } else {
        false
    }
}

/// Whether some pair of names, the first from `a` and the second from `b`, matches by wildcard.
pub open spec fn names_wildcard_match(a: Seq<Seq<char>>, b: Seq<Seq<char>>) -> bool {
    exists|i: int, j: int|
        0 <= i < a.len() && 0 <= j < b.len() && #[trigger] wildcard_match(a[i], b[j])
}

/// Whether both lists are non-empty and some entry of `a` is matched by an entry of `b`.
pub open spec fn manufacturer_data_intersect(
    a: Seq<ManufacturerDataView>,
    b: Seq<ManufacturerDataView>,
) -> bool {
    a.len() > 0 && b.len() > 0 && exists|i: int, j: int|
        0 <= i < a.len() && 0 <= j < b.len() && #[trigger] manufacturer_data_matches(b[j], a[i])
}

/// Whether some UUID is in both lists.
pub open spec fn uuids_intersect(a: Seq<u128>, b: Seq<u128>) -> bool {
    exists|i: int, j: int| 0 <= i < a.len() && 0 <= j < b.len() && a[i] == b[j]
}

/// Whether two Bluetooth LE specifiers describe the same device: a shared name, a wildcard
/// name match, matching manufacturer data or a shared advertised service.
pub open spec fn ble_matches(a: BleSpecifierView, b: BleSpecifierView) -> bool {
    ||| names_intersect(a.names, b.names)
    ||| names_wildcard_match(a.names, b.names)
    ||| manufacturer_data_intersect(a.manufacturer_data, b.manufacturer_data)
    ||| uuids_intersect(a.advertised_services, b.advertised_services)
}

/// Specifier for Bluetooth LE devices: advertised names (a trailing `*` is a wildcard),
/// manufacturer data, advertised services, and the services a protocol expects.
#[derive(Debug)]
pub struct BluetoothLESpecifier {
    names: Vec<String>,
    manufacturer_data: Vec<BluetoothLEManufacturerData>,
    advertised_services: Vec<u128>,
    services: Vec<BluetoothLEService>,
}

impl View for BluetoothLESpecifier {
    type V = BleSpecifierView;

    closed spec fn view(&self) -> BleSpecifierView {
        BleSpecifierView {
            names: strings_view(self.names@),
            manufacturer_data: manufacturer_data_view(self.manufacturer_data@),
            advertised_services: self.advertised_services@,
            services: services_view(self.services@),
        }
    }
}

fn clone_manufacturer_data(v: &[BluetoothLEManufacturerData]) -> (r: Vec<
    BluetoothLEManufacturerData,
>)
    ensures
        manufacturer_data_view(r@) == manufacturer_data_view(v@),
{
    let mut r: Vec<BluetoothLEManufacturerData> = Vec::new();
    let mut i: usize = 0;
    while i < v.len()
        invariant
            i <= v@.len(),
            r@.len() == i,
            forall|j: int| 0 <= j < i ==> #[trigger] r@[j]@ == v@[j]@,
        decreases v@.len() - i,
    {
        r.push(v[i].clone());
        i = i + 1;
    }
    assert(manufacturer_data_view(r@) =~= manufacturer_data_view(v@));
    r
}

pub fn u128_vec(v: &[u128]) -> (r: Vec<u128>)
    ensures
        r@ == v@,
{
    let mut r: Vec<u128> = Vec::new();
    let mut i: usize = 0;
    while i < v.len()
        invariant
            i <= v@.len(),
            r@ == v@.subrange(0, i as int),
        decreases v@.len() - i,
    {
        r.push(v[i]);
        i = i + 1;
    }
    assert(r@ =~= v@);
    r
}

impl Clone for BluetoothLESpecifier {
    fn clone(&self) -> (r: Self)
        ensures
            r@ == self@,
    {
        BluetoothLESpecifier {
            names: clone_strings(self.names.as_slice()),
            manufacturer_data: clone_manufacturer_data(self.manufacturer_data.as_slice()),
            advertised_services: u128_vec(self.advertised_services.as_slice()),
            services: clone_services(self.services.as_slice()),
        }
    }
}

/// Whether two lists of names share a name.
fn names_intersect_exec(a: &[String], b: &[String]) -> (r: bool)
    ensures
        r == names_intersect(strings_view(a@), strings_view(b@)),
{
    let ghost av = strings_view(a@);
    let ghost bv = strings_view(b@);
    let mut i: usize = 0;
    while i < a.len()
        invariant
            i <= a@.len(),
            av == strings_view(a@),
            bv == strings_view(b@),
            forall|x: int, y: int| 0 <= x < i && 0 <= y < bv.len() ==> av[x] != bv[y],
        decreases a@.len() - i,
    {
        let mut j: usize = 0;
        while j < b.len()
            invariant
                i < a@.len(),
                j <= b@.len(),
                av == strings_view(a@),
                bv == strings_view(b@),
                forall|x: int, y: int| 0 <= x < i && 0 <= y < bv.len() ==> av[x] != bv[y],
                forall|y: int| 0 <= y < j ==> av[i as int] != bv[y],
            decreases b@.len() - j,
        {
            if a[i] == b[j] {
                assert(av[i as int] == bv[j as int]);
                return true;
            }
            j = j + 1;
        }
        i = i + 1;
    }
    false
}

/// Wildcard matching of two names, as `wildcard_match` states it.
fn wildcard_matches(n: &String, o: &String) -> (r: bool)
    ensures
        r == wildcard_match(n@, o@),
{
    let nc = string_chars(n.as_str());
    let oc = string_chars(o.as_str());
    if nc.len() > 0 && nc[nc.len() - 1] == '*' {
        assert(nc@.drop_last() =~= nc@.subrange(0, nc@.len() - 1));
        chars_prefix(nc.as_slice(), nc.len() - 1, oc.as_slice())
    } else if oc.len() > 0 && oc[oc.len() - 1] == '*' {
        assert(oc@.drop_last() =~= oc@.subrange(0, oc@.len() - 1));
        chars_prefix(oc.as_slice(), oc.len() - 1, nc.as_slice())
    } else {
        false
    }
}

/// Whether some pair of names matches by wildcard.
fn names_wildcard_exec(a: &[String], b: &[String]) -> (r: bool)
    ensures
        r == names_wildcard_match(strings_view(a@), strings_view(b@)),
{
    let ghost av = strings_view(a@);
    let ghost bv = strings_view(b@);
    let mut i: usize = 0;
    while i < a.len()
        invariant
            i <= a@.len(),
            av == strings_view(a@),
            bv == strings_view(b@),
            forall|x: int, y: int|
                0 <= x < i && 0 <= y < bv.len() ==> !#[trigger] wildcard_match(av[x], bv[y]),
        decreases a@.len() - i,
    {
        let mut j: usize = 0;
        while j < b.len()
            invariant
                i < a@.len(),
                j <= b@.len(),
                av == strings_view(a@),
                bv == strings_view(b@),
                forall|x: int, y: int|
                    0 <= x < i && 0 <= y < bv.len() ==> !#[trigger] wildcard_match(av[x], bv[y]),
                forall|y: int| 0 <= y < j ==> !#[trigger] wildcard_match(av[i as int], bv[y]),
            decreases b@.len() - j,
        {
            if wildcard_matches(&a[i], &b[j]) {
                assert(wildcard_match(av[i as int], bv[j as int]));
                return true;
            }
            j = j + 1;
        }
        i = i + 1;
    }
    false
}

/// Whether both lists are non-empty and some entry of `a` is matched by an entry of `b`.
fn manufacturer_data_intersect_exec(
    a: &[BluetoothLEManufacturerData],
    b: &[BluetoothLEManufacturerData],
) -> (r: bool)
    ensures
        r == manufacturer_data_intersect(manufacturer_data_view(a@), manufacturer_data_view(b@)),
{
    let ghost av = manufacturer_data_view(a@);
    let ghost bv = manufacturer_data_view(b@);
    if a.len() == 0 || b.len() == 0 {
        return false;
    }
    let mut i: usize = 0;
    while i < a.len()
        invariant
            i <= a@.len(),
            a@.len() > 0 && b@.len() > 0,
            av == manufacturer_data_view(a@),
            bv == manufacturer_data_view(b@),
            forall|x: int, y: int|
                0 <= x < i && 0 <= y < bv.len() ==> !#[trigger] manufacturer_data_matches(
                    bv[y],
                    av[x],
                ),
        decreases a@.len() - i,
    {
        let mut j: usize = 0;
        while j < b.len()
            invariant
                i < a@.len(),
                j <= b@.len(),
                av == manufacturer_data_view(a@),
                bv == manufacturer_data_view(b@),
                forall|x: int, y: int|
                    0 <= x < i && 0 <= y < bv.len() ==> !#[trigger] manufacturer_data_matches(
                        bv[y],
                        av[x],
                    ),
                forall|y: int|
                    0 <= y < j ==> !#[trigger] manufacturer_data_matches(bv[y], av[i as int]),
            decreases b@.len() - j,
        {
            if b[j] == a[i] {
                assert(manufacturer_data_matches(bv[j as int], av[i as int]));
                return true;
            }
            j = j + 1;
        }
        i = i + 1;
    }
    false
}

/// Whether two UUID lists share a UUID.
fn uuids_intersect_exec(a: &[u128], b: &[u128]) -> (r: bool)
    ensures
        r == uuids_intersect(a@, b@),
{
    let mut i: usize = 0;
    while i < a.len()
        invariant
            i <= a@.len(),
            forall|x: int, y: int| 0 <= x < i && 0 <= y < b@.len() ==> a@[x] != b@[y],
        decreases a@.len() - i,
    {
        if contains_u128(b, a[i]) {
            let ghost y = choose|y: int| 0 <= y < b@.len() && b@[y] == a@[i as int];
            assert(a@[i as int] == b@[y]);
            return true;
        }
        i = i + 1;
    }
    false
}

impl PartialEq for BluetoothLESpecifier {
    fn eq(&self, other: &Self) -> (r: bool) {
        if names_intersect_exec(self.names.as_slice(), other.names.as_slice()) {
            return true;
        }
        if names_wildcard_exec(self.names.as_slice(), other.names.as_slice()) {
            return true;
        }
        if manufacturer_data_intersect_exec(
            self.manufacturer_data.as_slice(),
            other.manufacturer_data.as_slice(),
        ) {
            return true;
        }
        uuids_intersect_exec(self.advertised_services.as_slice(), other.advertised_services.as_slice())
    }
}

impl PartialEqSpecImpl for BluetoothLESpecifier {
    open spec fn obeys_eq_spec() -> bool {
        true
    }

    open spec fn eq_spec(&self, other: &Self) -> bool {
        ble_matches(self@, other@)
    }
}

} // verus!

verus! {

/// What a list of services, read front to back with later entries replacing earlier ones of the
/// same UUID, records for UUID `k`.
pub open spec fn service_lookup_last(s: Seq<ServiceView>, k: u128) -> Option<Seq<(Endpoint, u128)>>
    decreases s.len(),
{
    if s.len() == 0 {
        None
    } else if s.last().0 == k {
        Some(s.last().1)
    } else {
        service_lookup_last(s.drop_last(), k)
    }
}

proof fn lemma_lookup_unique_is_last(s: Seq<ServiceView>, k: u128)
    requires
        service_keys_unique(s),
    ensures
        service_lookup(s, k) == service_lookup_last(s, k),
    decreases s.len(),
{
    if s.len() > 0 {
        let p = s.drop_last();
        assert(service_keys_unique(p));
        lemma_lookup_unique_is_last(p, k);
        if s.last().0 == k {
            lemma_lookup_at(s, s.len() - 1);
        } else {
            if exists|i: int| 0 <= i < s.len() && s[i].0 == k {
                let i = choose|i: int| 0 <= i < s.len() && s[i].0 == k;
                lemma_lookup_at(s, i);
                assert(p[i] == s[i]);
                lemma_lookup_at(p, i);
            } else {
                assert(!exists|i: int| 0 <= i < p.len() && p[i].0 == k) by {
                    if exists|i: int| 0 <= i < p.len() && p[i].0 == k {
                        let i = choose|i: int| 0 <= i < p.len() && p[i].0 == k;
                        assert(s[i].0 == k);
                    }
                }
            }
        }
    }
}

/// Records every service of `list` in `v`, later ones replacing earlier ones of the same UUID.
fn insert_services(v: &mut Vec<BluetoothLEService>, list: &[BluetoothLEService])
    requires
        service_keys_unique(services_view(old(v)@)),
    ensures
        service_keys_unique(services_view(final(v)@)),
        forall|k: u128|
            #[trigger] service_lookup(services_view(final(v)@), k) == match service_lookup_last(
                services_view(list@),
                k,
            ) {
                Some(c) => Some(c),
                None => service_lookup(services_view(old(v)@), k),
            },
{
    let ghost lv = services_view(list@);
    let mut i: usize = 0;
    while i < list.len()
        invariant
            i <= list@.len(),
            lv == services_view(list@),
            service_keys_unique(services_view(v@)),
            forall|k: u128|
                #[trigger] service_lookup(services_view(v@), k) == match service_lookup_last(
                    lv.subrange(0, i as int),
                    k,
                ) {
                    Some(c) => Some(c),
                    None => service_lookup(services_view(old(v)@), k),
                },
        decreases list@.len() - i,
    {
        let s = list[i].clone();
        proof {
            assert(lv.subrange(0, i + 1).drop_last() =~= lv.subrange(0, i as int));
            assert(lv.subrange(0, i + 1).last() == s@);
        }
        insert_service(v, s);
        i = i + 1;
    }
    assert(lv.subrange(0, list@.len() as int) =~= lv);
}

impl BluetoothLESpecifier {
    /// A specifier with the given names, manufacturer data, advertised services and expected
    /// services; repeated names and advertised services are kept once, and a service listed twice
    /// keeps its later description.
    pub fn new(
        names: Vec<String>,
        manufacturer_data: Vec<BluetoothLEManufacturerData>,
        advertised_services: Vec<u128>,
        services: Vec<BluetoothLEService>,
    ) -> (r: Self)
        ensures
            ble_well_formed(r@),
            r@.names.to_set() == strings_view(names@).to_set(),
            r@.manufacturer_data == manufacturer_data_view(manufacturer_data@),
            r@.advertised_services.to_set() == advertised_services@.to_set(),
            forall|k: u128|
                #[trigger] service_lookup(r@.services, k) == service_lookup_last(
                    services_view(services@),
                    k,
                ),
    {
        let mut service_list: Vec<BluetoothLEService> = Vec::new();
        insert_services(&mut service_list, services.as_slice());
        BluetoothLESpecifier {
            names: dedup_strings(names.as_slice()),
            manufacturer_data,
            advertised_services: dedup_u128(advertised_services.as_slice()),
            services: service_list,
        }
    }

    /// The specifier of an advertisement: its one name, its manufacturer data (company and data
    /// for each entry) and its advertised services; it expects no services.
    pub fn new_from_device(
        name: &str,
        manufacturer_data: &[(u16, Vec<u8>)],
        advertised_services: &[u128],
    ) -> (r: Self)
        ensures
            ble_well_formed(r@),
            r@.names == seq![name@],
            r@.manufacturer_data.len() == manufacturer_data@.len(),
            forall|i: int|
                0 <= i < manufacturer_data@.len() ==> #[trigger] r@.manufacturer_data[i] == (
                ManufacturerDataView {
                    company: manufacturer_data@[i].0,
                    data: Some(manufacturer_data@[i].1@),
                }),
            r@.advertised_services.to_set() == advertised_services@.to_set(),
            r@.services.len() == 0,
    {
        let mut name_set: Vec<String> = Vec::new();
        name_set.push(name.to_owned());
        let mut data_vec: Vec<BluetoothLEManufacturerData> = Vec::new();
        let mut i: usize = 0;
        while i < manufacturer_data.len()
            invariant
                i <= manufacturer_data@.len(),
                data_vec@.len() == i,
                forall|j: int|
                    0 <= j < i ==> #[trigger] data_vec@[j]@ == (ManufacturerDataView {
                        company: manufacturer_data@[j].0,
                        data: Some(manufacturer_data@[j].1@),
                    }),
            decreases manufacturer_data@.len() - i,
        {
            let (company, data) = &manufacturer_data[i];
            data_vec.push(
                BluetoothLEManufacturerData { company: *company, data: Some(byte_vec(data.as_slice())) },
            );
            i = i + 1;
        }
        let r = BluetoothLESpecifier {
            names: name_set,
            manufacturer_data: data_vec,
            advertised_services: dedup_u128(advertised_services),
            services: Vec::new(),
        };
        assert(r@.names =~= seq![name@]);
        r
    }

    /// Extends this specifier with another: names and advertised services become the unions,
    /// and the other's services are added, replacing services with the same UUID. Manufacturer
    /// data stays as it was.
    pub fn merge(&mut self, other: BluetoothLESpecifier)
        requires
            ble_well_formed(old(self)@),
            ble_well_formed(other@),
        ensures
            ble_well_formed(final(self)@),
            final(self)@.names.to_set() == old(self)@.names.to_set() + other@.names.to_set(),
            final(self)@.advertised_services.to_set() == old(self)@.advertised_services.to_set()
                + other@.advertised_services.to_set(),
            final(self)@.manufacturer_data == old(self)@.manufacturer_data,
            forall|k: u128|
                #[trigger] service_lookup(final(self)@.services, k) == match service_lookup(
                    other@.services,
                    k,
                ) {
                    Some(c) => Some(c),
                    None => service_lookup(old(self)@.services, k),
                },
    {
        let ghost old_self = self@;
        let ghost other_view = other@;
        let BluetoothLESpecifier { names, manufacturer_data: _, advertised_services, services } =
            other;
        let mut i: usize = 0;
        while i < names.len()
            invariant
                i <= names@.len(),
                other_view.names == strings_view(names@),
                strings_view(self.names@).no_duplicates(),
                strings_view(self.names@).to_set() == old_self.names.to_set() + strings_view(
                    names@.subrange(0, i as int),
                ).to_set(),
                self@.advertised_services == old_self.advertised_services,
                self@.manufacturer_data == old_self.manufacturer_data,
                self@.services == old_self.services,
            decreases names@.len() - i,
        {
            insert_string(&mut self.names, names[i].clone());
            proof {
                assert(strings_view(names@.subrange(0, i + 1)) =~= strings_view(
                    names@.subrange(0, i as int),
                ).push(names@[i as int]@));
                strings_view(names@.subrange(0, i as int)).lemma_push_to_set_commute(
                    names@[i as int]@,
                );
            }
            i = i + 1;
        }
        assert(names@.subrange(0, names@.len() as int) =~= names@);
        let mut j: usize = 0;
        while j < advertised_services.len()
            invariant
                j <= advertised_services@.len(),
                other_view.advertised_services == advertised_services@,
                strings_view(self.names@).no_duplicates(),
                self@.names.to_set() == old_self.names.to_set() + other_view.names.to_set(),
                self.advertised_services@.no_duplicates(),
                self.advertised_services@.to_set() == old_self.advertised_services.to_set()
                    + advertised_services@.subrange(0, j as int).to_set(),
                self@.manufacturer_data == old_self.manufacturer_data,
                self@.services == old_self.services,
            decreases advertised_services@.len() - j,
        {
            insert_u128(&mut self.advertised_services, advertised_services[j]);
            proof {
                assert(advertised_services@.subrange(0, j + 1) =~= advertised_services@.subrange(
                    0,
                    j as int,
                ).push(advertised_services@[j as int]));
                advertised_services@.subrange(0, j as int).lemma_push_to_set_commute(
                    advertised_services@[j as int],
                );
            }
            j = j + 1;
        }
        assert(advertised_services@.subrange(0, advertised_services@.len() as int)
            =~= advertised_services@);
        proof {
            assert forall|k: u128|
                service_lookup(other_view.services, k) == service_lookup_last(
                    services_view(services@),
                    k,
                ) by {
                lemma_lookup_unique_is_last(other_view.services, k);
            }
        }
        insert_services(&mut self.services, services.as_slice());
    }

    pub fn names(&self) -> (r: &Vec<String>)
        ensures
            strings_view(r@) == self@.names,
    {
        &self.names
    }

    pub fn manufacturer_data(&self) -> (r: &Vec<BluetoothLEManufacturerData>)
        ensures
            manufacturer_data_view(r@) == self@.manufacturer_data,
    {
        &self.manufacturer_data
    }

    pub fn advertised_services(&self) -> (r: &Vec<u128>)
        ensures
            r@ == self@.advertised_services,
    {
        &self.advertised_services
    }

    pub fn services(&self) -> (r: &Vec<BluetoothLEService>)
        ensures
            services_view(r@) == self@.services,
    {
        &self.services
    }
}

/// Whether no name of `a` and no name of `b` both end with the wildcard `*`.
pub open spec fn no_double_wildcards(a: BleSpecifierView, b: BleSpecifierView) -> bool {
    forall|i: int, j: int|
        0 <= i < a.names.len() && 0 <= j < b.names.len() ==> !(is_wildcard(a.names[i])
            && is_wildcard(b.names[j]))
}

/// Matching two Bluetooth LE specifiers does not depend on which side is which, as long as no
/// name of one and name of the other both end with a wildcard.
pub proof fn lemma_ble_matches_symmetric(a: BleSpecifierView, b: BleSpecifierView)
    requires
        no_double_wildcards(a, b),
    ensures
        ble_matches(a, b) == ble_matches(b, a),
{
    if names_intersect(a.names, b.names) {
        let (i, j) = choose|i: int, j: int|
            0 <= i < a.names.len() && 0 <= j < b.names.len() && a.names[i] == b.names[j];
        assert(b.names[j] == a.names[i]);
    }
    if names_intersect(b.names, a.names) {
        let (i, j) = choose|i: int, j: int|
            0 <= i < b.names.len() && 0 <= j < a.names.len() && b.names[i] == a.names[j];
        assert(a.names[j] == b.names[i]);
    }
    if names_wildcard_match(a.names, b.names) {
        let (i, j) = choose|i: int, j: int|
            0 <= i < a.names.len() && 0 <= j < b.names.len() && #[trigger] wildcard_match(
                a.names[i],
                b.names[j],
            );
        assert(wildcard_match(b.names[j], a.names[i]));
    }
    if names_wildcard_match(b.names, a.names) {
        let (i, j) = choose|i: int, j: int|
            0 <= i < b.names.len() && 0 <= j < a.names.len() && #[trigger] wildcard_match(
                b.names[i],
                a.names[j],
            );
        assert(!(is_wildcard(a.names[j]) && is_wildcard(b.names[i])));
        assert(wildcard_match(a.names[j], b.names[i]));
    }
    if manufacturer_data_intersect(a.manufacturer_data, b.manufacturer_data) {
        let (i, j) = choose|i: int, j: int|
            0 <= i < a.manufacturer_data.len() && 0 <= j < b.manufacturer_data.len()
                && #[trigger] manufacturer_data_matches(
                b.manufacturer_data[j],
                a.manufacturer_data[i],
            );
        lemma_manufacturer_data_matches_symmetric(b.manufacturer_data[j], a.manufacturer_data[i]);
        assert(manufacturer_data_matches(a.manufacturer_data[i], b.manufacturer_data[j]));
    }
    if manufacturer_data_intersect(b.manufacturer_data, a.manufacturer_data) {
        let (i, j) = choose|i: int, j: int|
            0 <= i < b.manufacturer_data.len() && 0 <= j < a.manufacturer_data.len()
                && #[trigger] manufacturer_data_matches(
                a.manufacturer_data[j],
                b.manufacturer_data[i],
            );
        lemma_manufacturer_data_matches_symmetric(a.manufacturer_data[j], b.manufacturer_data[i]);
        assert(manufacturer_data_matches(b.manufacturer_data[i], a.manufacturer_data[j]));
    }
    if uuids_intersect(a.advertised_services, b.advertised_services) {
        let (i, j) = choose|i: int, j: int|
            0 <= i < a.advertised_services.len() && 0 <= j < b.advertised_services.len()
                && a.advertised_services[i] == b.advertised_services[j];
        assert(b.advertised_services[j] == a.advertised_services[i]);
    }
    if uuids_intersect(b.advertised_services, a.advertised_services) {
        let (i, j) = choose|i: int, j: int|
            0 <= i < b.advertised_services.len() && 0 <= j < a.advertised_services.len()
                && b.advertised_services[i] == a.advertised_services[j];
        assert(a.advertised_services[j] == b.advertised_services[i]);
    }
}

} // verus!

verus! {

/// Specifier of a HID device: its vendor and product ids.
#[derive(Debug, Clone, Copy, PartialEq, Eq, Structural)]
pub struct HIDSpecifier {
    vendor_id: u16,
    product_id: u16,
}

impl HIDSpecifier {
    pub fn new(vendor_id: u16, product_id: u16) -> (r: Self)
        ensures
            r.spec_vendor_id() == vendor_id,
            r.spec_product_id() == product_id,
    {
        HIDSpecifier { vendor_id, product_id }
    }

    pub closed spec fn spec_vendor_id(&self) -> u16 {
        self.vendor_id
    }

    pub closed spec fn spec_product_id(&self) -> u16 {
        self.product_id
    }

    pub fn vendor_id(&self) -> (r: u16)
        ensures
            r == self.spec_vendor_id(),
    {
        self.vendor_id
    }

    pub fn product_id(&self) -> (r: u16)
        ensures
            r == self.spec_product_id(),
    {
        self.product_id
    }

    pub fn set_vendor_id(&mut self, vendor_id: u16)
        ensures
            final(self).spec_vendor_id() == vendor_id,
            final(self).spec_product_id() == old(self).spec_product_id(),
    {
        self.vendor_id = vendor_id;
    }

    pub fn set_product_id(&mut self, product_id: u16)
        ensures
            final(self).spec_product_id() == product_id,
            final(self).spec_vendor_id() == old(self).spec_vendor_id(),
    {
        self.product_id = product_id;
    }
}

/// A HID specifier is its two ids: two specifiers are equal exactly when their vendor ids and
/// their product ids are, so specifiers built from equal ids are equal.
pub proof fn lemma_hid_specifier_is_its_ids(a: HIDSpecifier, b: HIDSpecifier)
    ensures
        (a == b) <==> (a.spec_vendor_id() == b.spec_vendor_id() && a.spec_product_id() == b.spec_product_id()),
{
}

/// Specifier of a USB device: its vendor and product ids.
#[derive(Debug, Clone, Copy, PartialEq, Eq, Structural)]
pub struct USBSpecifier {
    vendor_id: u16,
    product_id: u16,
}

impl USBSpecifier {
    pub fn new_from_ids(vendor_id: u16, product_id: u16) -> (r: Self)
        ensures
            r.spec_vendor_id() == vendor_id,
            r.spec_product_id() == product_id,
    {
        USBSpecifier { vendor_id, product_id }
    }

    pub closed spec fn spec_vendor_id(&self) -> u16 {
        self.vendor_id
    }

    pub closed spec fn spec_product_id(&self) -> u16 {
        self.product_id
    }

    pub fn vendor_id(&self) -> (r: u16)
        ensures
            r == self.spec_vendor_id(),
    {
        self.vendor_id
    }

    pub fn product_id(&self) -> (r: u16)
        ensures
            r == self.spec_product_id(),
    {
        self.product_id
    }

    pub fn set_vendor_id(&mut self, vendor_id: u16)
        ensures
            final(self).spec_vendor_id() == vendor_id,
            final(self).spec_product_id() == old(self).spec_product_id(),
    {
        self.vendor_id = vendor_id;
    }

    pub fn set_product_id(&mut self, product_id: u16)
        ensures
            final(self).spec_product_id() == product_id,
            final(self).spec_vendor_id() == old(self).spec_vendor_id(),
    {
        self.product_id = product_id;
    }
}

/// A USB specifier is its two ids: two specifiers are equal exactly when their vendor ids and
/// their product ids are, so specifiers built from equal ids are equal.
pub proof fn lemma_usb_specifier_is_its_ids(a: USBSpecifier, b: USBSpecifier)
    ensures
        (a == b) <==> (a.spec_vendor_id() == b.spec_vendor_id() && a.spec_product_id() == b.spec_product_id()),
{
}

/// Abstract value of a serial specifier.
pub struct SerialSpecifierView {
    pub baud_rate: u32,
    pub data_bits: u8,
    pub stop_bits: u8,
    pub parity: char,
    pub port: Seq<char>,
}

/// Specifier of a serial device: the port it sits on and how the port is configured.
#[derive(Debug)]
pub struct SerialSpecifier {
    baud_rate: u32,
    data_bits: u8,
    stop_bits: u8,
    parity: char,
    port: String,
}

impl View for SerialSpecifier {
    type V = SerialSpecifierView;

    closed spec fn view(&self) -> SerialSpecifierView {
        SerialSpecifierView {
            baud_rate: self.baud_rate,
            data_bits: self.data_bits,
            stop_bits: self.stop_bits,
            parity: self.parity,
            port: self.port@,
        }
    }
}

impl Default for SerialSpecifier {
    fn default() -> (r: Self)
        ensures
            r@ == (SerialSpecifierView {
                baud_rate: 0,
                data_bits: 0,
                stop_bits: 0,
                parity: '\0',
                port: Seq::<char>::empty(),
            }),
    {
        SerialSpecifier { baud_rate: 0, data_bits: 0, stop_bits: 0, parity: '\0', port: String::new() }
    }
}

impl Clone for SerialSpecifier {
    fn clone(&self) -> (r: Self)
        ensures
            r@ == self@,
    {
        SerialSpecifier {
            baud_rate: self.baud_rate,
            data_bits: self.data_bits,
            stop_bits: self.stop_bits,
            parity: self.parity,
            port: self.port.clone(),
        }
    }
}

impl SerialSpecifier {
    /// The specifier of a port known only by its name; the rest of the configuration is that of
    /// the default specifier.
    pub fn new_from_name(port: &str) -> (r: Self)
        ensures
            r@ == (SerialSpecifierView {
                baud_rate: 0,
                data_bits: 0,
                stop_bits: 0,
                parity: '\0',
                port: port@,
            }),
    {
        SerialSpecifier {
            baud_rate: 0,
            data_bits: 0,
            stop_bits: 0,
            parity: '\0',
            port: port.to_owned(),
        }
    }

    pub fn baud_rate(&self) -> (r: u32)
        ensures
            r == self@.baud_rate,
    {
        self.baud_rate
    }

    pub fn data_bits(&self) -> (r: u8)
        ensures
            r == self@.data_bits,
    {
        self.data_bits
    }

    pub fn stop_bits(&self) -> (r: u8)
        ensures
            r == self@.stop_bits,
    {
        self.stop_bits
    }

    pub fn parity(&self) -> (r: char)
        ensures
            r == self@.parity,
    {
        self.parity
    }

    pub fn port(&self) -> (r: &String)
        ensures
            r@ == self@.port,
    {
        &self.port
    }

    pub fn set_baud_rate(&mut self, baud_rate: u32)
        ensures
            final(self)@ == (SerialSpecifierView { baud_rate, ..old(self)@ }),
    {
        self.baud_rate = baud_rate;
    }

    pub fn set_data_bits(&mut self, data_bits: u8)
        ensures
            final(self)@ == (SerialSpecifierView { data_bits, ..old(self)@ }),
    {
        self.data_bits = data_bits;
    }

    pub fn set_stop_bits(&mut self, stop_bits: u8)
        ensures
            final(self)@ == (SerialSpecifierView { stop_bits, ..old(self)@ }),
    {
        self.stop_bits = stop_bits;
    }

    pub fn set_parity(&mut self, parity: char)
        ensures
            final(self)@ == (SerialSpecifierView { parity, ..old(self)@ }),
    {
        self.parity = parity;
    }

    pub fn set_port(&mut self, port: String)
        ensures
            final(self)@ == (SerialSpecifierView { port: port@, ..old(self)@ }),
    {
        self.port = port;
    }
}

impl PartialEq for SerialSpecifier {
    fn eq(&self, other: &Self) -> (r: bool) {
        self.port == other.port
    }
}

impl PartialEqSpecImpl for SerialSpecifier {
    open spec fn obeys_eq_spec() -> bool {
        true
    }

    /// Serial specifiers are the same when they name the same port.
    open spec fn eq_spec(&self, other: &Self) -> bool {
        self@.port == other@.port
    }
}

} // verus!

verus! {

/// Specifier of a device that connects over a websocket: the names it may announce itself by.
#[derive(Debug)]
pub struct WebsocketSpecifier {
    names: Vec<String>,
}

impl View for WebsocketSpecifier {
    type V = Set<Seq<char>>;

    /// The set of names.
    closed spec fn view(&self) -> Set<Seq<char>> {
        strings_view(self.names@).to_set()
    }
}

impl Default for WebsocketSpecifier {
    fn default() -> (r: Self)
        ensures
            r@ == Set::<Seq<char>>::empty(),
    {
        let r = WebsocketSpecifier { names: Vec::new() };
        assert(r@ =~= Set::<Seq<char>>::empty());
        r
    }
}

impl Clone for WebsocketSpecifier {
    fn clone(&self) -> (r: Self)
        ensures
            r@ == self@,
    {
        WebsocketSpecifier { names: clone_strings(self.names.as_slice()) }
    }
}

/// Whether two sets of names share a name.
pub open spec fn sets_intersect(a: Set<Seq<char>>, b: Set<Seq<char>>) -> bool {
    exists|n: Seq<char>| a.contains(n) && b.contains(n)
}

impl WebsocketSpecifier {
    /// The specifier for the given names.
    pub fn new(names: &Vec<String>) -> (r: Self)
        ensures
            r@ == strings_view(names@).to_set(),
    {
        WebsocketSpecifier { names: dedup_strings(names.as_slice()) }
    }

    /// Adds the other specifier's names.
    pub fn merge(&mut self, other: WebsocketSpecifier)
        ensures
            final(self)@ == old(self)@ + other@,
    {
        let ghost before = self@;
        let ghost added = strings_view(other.names@);
        let mut i: usize = 0;
        while i < other.names.len()
            invariant
                i <= other.names@.len(),
                added == strings_view(other.names@),
                self@ == before + added.subrange(0, i as int).to_set(),
            decreases other.names@.len() - i,
        {
            insert_string(&mut self.names, other.names[i].clone());
            proof {
                assert(added.subrange(0, i + 1) =~= added.subrange(0, i as int).push(added[i as int]));
                added.subrange(0, i as int).lemma_push_to_set_commute(added[i as int]);
                assert(self@ =~= before + added.subrange(0, i + 1).to_set());
            }
            i = i + 1;
        }
        assert(added.subrange(0, added.len() as int) =~= added);
    }

    pub fn names(&self) -> (r: &Vec<String>)
        ensures
            strings_view(r@).to_set() == self@,
    {
        &self.names
    }

    pub fn set_names(&mut self, names: Vec<String>)
        ensures
            final(self)@ == strings_view(names@).to_set(),
    {
        self.names = names;
    }
}

impl PartialEq for WebsocketSpecifier {
    fn eq(&self, other: &Self) -> (r: bool) {
        let r = names_intersect_exec(self.names.as_slice(), other.names.as_slice());
        proof {
            let a = strings_view(self.names@);
            let b = strings_view(other.names@);
            if r {
                let (i, j) = choose|i: int, j: int|
                    0 <= i < a.len() && 0 <= j < b.len() && a[i] == b[j];
                assert(self@.contains(a[i]) && other@.contains(a[i]));
            } else if sets_intersect(self@, other@) {
                let n = choose|n: Seq<char>| self@.contains(n) && other@.contains(n);
                let i = choose|i: int| 0 <= i < a.len() && a[i] == n;
                let j = choose|j: int| 0 <= j < b.len() && b[j] == n;
                assert(a[i] == b[j]);
            }
        }
        r
    }
}

impl PartialEqSpecImpl for WebsocketSpecifier {
    open spec fn obeys_eq_spec() -> bool {
        true
    }

    /// Websocket specifiers are the same when they share a name.
    open spec fn eq_spec(&self, other: &Self) -> bool {
        sets_intersect(self@, other@)
    }
}

/// Specifier of devices reached through the Lovense Connect service, which finds and names them
/// itself; any two such specifiers are the same.
#[derive(Debug)]
pub struct LovenseConnectServiceSpecifier {
    exists: bool,
}

impl Clone for LovenseConnectServiceSpecifier {
    fn clone(&self) -> (r: Self)
        ensures
            r.spec_exists() == self.spec_exists(),
    {
        LovenseConnectServiceSpecifier { exists: self.exists }
    }
}

impl Default for LovenseConnectServiceSpecifier {
    fn default() -> (r: Self)
        ensures
            r.spec_exists(),
    {
        LovenseConnectServiceSpecifier { exists: true }
    }
}

impl LovenseConnectServiceSpecifier {
    pub closed spec fn spec_exists(&self) -> bool {
        self.exists
    }
}

impl PartialEq for LovenseConnectServiceSpecifier {
    fn eq(&self, other: &Self) -> (r: bool) {
        true
    }
}

impl PartialEqSpecImpl for LovenseConnectServiceSpecifier {
    open spec fn obeys_eq_spec() -> bool {
        true
    }

    open spec fn eq_spec(&self, other: &Self) -> bool {
        true
    }
}

/// Specifier of XInput gamepads, which the XInput manager finds and names itself; any two such
/// specifiers are the same.
#[derive(Debug, Clone, Copy)]
pub struct XInputSpecifier {
    exists: bool,
}

impl Default for XInputSpecifier {
    fn default() -> (r: Self)
        ensures
            r.spec_exists(),
    {
        XInputSpecifier { exists: true }
    }
}

impl XInputSpecifier {
    pub closed spec fn spec_exists(&self) -> bool {
        self.exists
    }
}

impl PartialEq for XInputSpecifier {
    fn eq(&self, other: &Self) -> (r: bool) {
        true
    }
}

impl PartialEqSpecImpl for XInputSpecifier {
    open spec fn obeys_eq_spec() -> bool {
        true
    }

    open spec fn eq_spec(&self, other: &Self) -> bool {
        true
    }
}

} // verus!

verus! {

/// A communication specifier of any kind.
#[derive(Debug)]
pub enum ProtocolCommunicationSpecifier {
    BluetoothLE(BluetoothLESpecifier),
    HID(HIDSpecifier),
    USB(USBSpecifier),
    Serial(SerialSpecifier),
    XInput(XInputSpecifier),
    LovenseConnectService(LovenseConnectServiceSpecifier),
    Websocket(WebsocketSpecifier),
}

/// Abstract value of a communication specifier.
pub enum SpecifierView {
    BluetoothLE(BleSpecifierView),
    HID(HIDSpecifier),
    USB(USBSpecifier),
    Serial(SerialSpecifierView),
    XInput,
    LovenseConnectService,
    Websocket(Set<Seq<char>>),
}

impl View for ProtocolCommunicationSpecifier {
    type V = SpecifierView;

    open spec fn view(&self) -> SpecifierView {
        match self {
            ProtocolCommunicationSpecifier::BluetoothLE(s) => SpecifierView::BluetoothLE(s@),
            ProtocolCommunicationSpecifier::HID(s) => SpecifierView::HID(*s),
            ProtocolCommunicationSpecifier::USB(s) => SpecifierView::USB(*s),
            ProtocolCommunicationSpecifier::Serial(s) => SpecifierView::Serial(s@),
            ProtocolCommunicationSpecifier::XInput(_) => SpecifierView::XInput,
            ProtocolCommunicationSpecifier::LovenseConnectService(_) => {
                SpecifierView::LovenseConnectService
            },
            ProtocolCommunicationSpecifier::Websocket(s) => SpecifierView::Websocket(s@),
        }
    }
}

/// Whether a specifier describes the same hardware as another: both must be of the same kind and
/// match by that kind's rule.
pub open spec fn specifiers_match(a: SpecifierView, b: SpecifierView) -> bool {
    match (a, b) {
        (SpecifierView::BluetoothLE(x), SpecifierView::BluetoothLE(y)) => ble_matches(x, y),
        (SpecifierView::HID(x), SpecifierView::HID(y)) => x == y,
        (SpecifierView::USB(x), SpecifierView::USB(y)) => x == y,
        (SpecifierView::Serial(x), SpecifierView::Serial(y)) => x.port == y.port,
        (SpecifierView::XInput, SpecifierView::XInput) => true,
        (SpecifierView::LovenseConnectService, SpecifierView::LovenseConnectService) => true,
        (SpecifierView::Websocket(x), SpecifierView::Websocket(y)) => sets_intersect(x, y),
        _ => false,
    }
}

impl Clone for ProtocolCommunicationSpecifier {
    fn clone(&self) -> (r: Self)
        ensures
            r@ == self@,
    {
        match self {
            ProtocolCommunicationSpecifier::BluetoothLE(s) => ProtocolCommunicationSpecifier::BluetoothLE(s.clone()),
            ProtocolCommunicationSpecifier::HID(s) => ProtocolCommunicationSpecifier::HID(*s),
            ProtocolCommunicationSpecifier::USB(s) => ProtocolCommunicationSpecifier::USB(*s),
            ProtocolCommunicationSpecifier::Serial(s) => ProtocolCommunicationSpecifier::Serial(s.clone()),
            ProtocolCommunicationSpecifier::XInput(s) => ProtocolCommunicationSpecifier::XInput(*s),
            ProtocolCommunicationSpecifier::LovenseConnectService(s) => {
                ProtocolCommunicationSpecifier::LovenseConnectService(
                    LovenseConnectServiceSpecifier { exists: s.exists },
                )
            },
            ProtocolCommunicationSpecifier::Websocket(s) => ProtocolCommunicationSpecifier::Websocket(s.clone()),
        }
    }
}

impl PartialEq for ProtocolCommunicationSpecifier {
    fn eq(&self, other: &Self) -> (r: bool) {
        match (self, other) {
            (
                ProtocolCommunicationSpecifier::BluetoothLE(a),
                ProtocolCommunicationSpecifier::BluetoothLE(b),
            ) => a == b,
            (ProtocolCommunicationSpecifier::HID(a), ProtocolCommunicationSpecifier::HID(b)) => {
                a.vendor_id == b.vendor_id && a.product_id == b.product_id
            },
            (ProtocolCommunicationSpecifier::USB(a), ProtocolCommunicationSpecifier::USB(b)) => {
                a.vendor_id == b.vendor_id && a.product_id == b.product_id
            },
            (
                ProtocolCommunicationSpecifier::Serial(a),
                ProtocolCommunicationSpecifier::Serial(b),
            ) => a == b,
            (
                ProtocolCommunicationSpecifier::XInput(_),
                ProtocolCommunicationSpecifier::XInput(_),
            ) => true,
            (
                ProtocolCommunicationSpecifier::LovenseConnectService(_),
                ProtocolCommunicationSpecifier::LovenseConnectService(_),
            ) => true,
            (
                ProtocolCommunicationSpecifier::Websocket(a),
                ProtocolCommunicationSpecifier::Websocket(b),
            ) => a == b,
            _ => false,
        }
    }
}

impl PartialEqSpecImpl for ProtocolCommunicationSpecifier {
    open spec fn obeys_eq_spec() -> bool {
        true
    }

    open spec fn eq_spec(&self, other: &Self) -> bool {
        specifiers_match(self@, other@)
    }
}

/// Whether no name of `a` and no name of `b` both end with a wildcard, where both are Bluetooth LE
/// specifiers; specifiers of other kinds always qualify.
pub open spec fn specifiers_without_double_wildcards(a: SpecifierView, b: SpecifierView) -> bool {
    match (a, b) {
        (SpecifierView::BluetoothLE(x), SpecifierView::BluetoothLE(y)) => no_double_wildcards(x, y),
        _ => true,
    }
}

/// Matching two specifiers does not depend on which side is which, except for Bluetooth LE
/// specifiers where a wildcard name of one side faces a wildcard name of the other.
pub proof fn lemma_specifiers_match_symmetric(a: SpecifierView, b: SpecifierView)
    requires
        specifiers_without_double_wildcards(a, b),
    ensures
        specifiers_match(a, b) == specifiers_match(b, a),
{
    match (a, b) {
        (SpecifierView::BluetoothLE(x), SpecifierView::BluetoothLE(y)) => {
            lemma_ble_matches_symmetric(x, y);
        },
        _ => {},
    }
}

} // verus!
