//! The concurrent maps and sets of the `dashmap` crate that the configuration manager, the device
//! manager and the Lovense Connect manager keep their state in. Each kind of collection the
//! library keeps has a name for what it holds, and each method the library calls has a contract
//! over that name.
use vstd::prelude::*;
use dashmap::{DashMap, DashSet};
use crate::assoc::{assoc_map, keys_unique, pairs_view};
use crate::configuration::{entries_view, specs_view};
use crate::definitions::{UserDefinitionView, UserDeviceDefinition};
use crate::identifiers::{UserDeviceIdentifier, UserIdView};
use crate::manager::{ManagedDevice, ManagedDeviceView};
use crate::specifier::{ProtocolCommunicationSpecifier, SpecifierView};
use crate::text::strings_view;

verus! {

#[verifier::external_type_specification]
#[verifier::external_body]
#[verifier::reject_recursive_types(K)]
#[verifier::reject_recursive_types(V)]
#[verifier::reject_recursive_types(S)]
pub struct ExDashMap<K, V, S>(DashMap<K, V, S>);

#[verifier::external_type_specification]
#[verifier::external_body]
#[verifier::reject_recursive_types(K)]
#[verifier::reject_recursive_types(S)]
pub struct ExDashSet<K, S>(DashSet<K, S>);

/// The strings a set of strings holds.
pub uninterp spec fn strings_held(s: DashSet<String>) -> Set<Seq<char>>;

/// An empty set of strings (`DashSet::new`).
#[verifier::external_body]
pub(crate) fn string_set_new() -> (r: DashSet<String>)
    ensures
        strings_held(r) == Set::<Seq<char>>::empty(),
{
    DashSet::new()
}

/// Adds `value` to the set (`DashSet::insert`); says whether it was not there before.
#[verifier::external_body]
pub(crate) fn string_set_insert(s: &mut DashSet<String>, value: String) -> (r: bool)
    ensures
        strings_held(*final(s)) == strings_held(*old(s)).insert(value@),
        r == !strings_held(*old(s)).contains(value@),
{
    s.insert(value)
}

/// Whether the set holds `value` (`DashSet::contains`).
#[verifier::external_body]
pub(crate) fn string_set_contains(s: &DashSet<String>, value: &str) -> (r: bool)
    ensures
        r == strings_held(*s).contains(value@),
{
    s.contains(value)
}

/// Takes `value` out of the set (`DashSet::remove`), handing back the string it held.
#[verifier::external_body]
pub(crate) fn string_set_remove(s: &mut DashSet<String>, value: &str) -> (r: Option<String>)
    ensures
        strings_held(*final(s)) == strings_held(*old(s)).remove(value@),
        match r {
            Some(v) => v@ == value@ && strings_held(*old(s)).contains(value@),
            None => !strings_held(*old(s)).contains(value@),
        },
{
    s.remove(value)
}

/// Whether the set holds nothing (`DashSet::is_empty`).
#[verifier::external_body]
pub(crate) fn string_set_is_empty(s: &DashSet<String>) -> (r: bool)
    ensures
        r == (strings_held(*s) == Set::<Seq<char>>::empty()),
{
    s.is_empty()
}

/// The strings the set holds (`DashSet::iter`), each once, in an order the set leaves open.
#[verifier::external_body]
pub(crate) fn string_set_items(s: &DashSet<String>) -> (r: Vec<String>)
    ensures
        strings_view(r@).to_set() == strings_held(*s),
        strings_view(r@).no_duplicates(),
{
    s.iter().map(|k| k.key().clone()).collect()
}

} // verus!

verus! {

/// The specifier lists a map from protocol names holds, by name.
pub uninterp spec fn specifier_lists_held(m: DashMap<String, Vec<ProtocolCommunicationSpecifier>>) -> Map<
    Seq<char>,
    Seq<SpecifierView>,
>;

/// An empty map from protocol names to specifier lists (`DashMap::new`).
#[verifier::external_body]
pub(crate) fn specifier_lists_new() -> (r: DashMap<String, Vec<ProtocolCommunicationSpecifier>>)
    ensures
        specifier_lists_held(r).dom() == Set::<Seq<char>>::empty(),
{
    DashMap::new()
}

/// A copy of the list the map holds for `name` (`DashMap::get`).
#[verifier::external_body]
pub(crate) fn specifier_lists_get(m: &DashMap<String, Vec<ProtocolCommunicationSpecifier>>, name: &str) -> (r:
    Option<Vec<ProtocolCommunicationSpecifier>>)
    ensures
        match r {
            Some(list) => specifier_lists_held(*m).dom().contains(name@) && specs_view(list@)
                == specifier_lists_held(*m)[name@],
            None => !specifier_lists_held(*m).dom().contains(name@),
        },
{
    m.get(name).map(|list| list.value().clone())
}

/// Sets the list held for `name` (`DashMap::insert`); says whether the map held one before.
#[verifier::external_body]
pub(crate) fn specifier_lists_insert(
    m: &mut DashMap<String, Vec<ProtocolCommunicationSpecifier>>,
    name: String,
    list: Vec<ProtocolCommunicationSpecifier>,
) -> (r: bool)
    ensures
        specifier_lists_held(*final(m)) == specifier_lists_held(*old(m)).insert(name@, specs_view(list@)),
        r == specifier_lists_held(*old(m)).dom().contains(name@),
{
    m.insert(name, list).is_some()
}

/// Copies of the names and lists the map holds (`DashMap::iter`), each name once, in an order
/// the map leaves open.
#[verifier::external_body]
pub(crate) fn specifier_lists_entries(m: &DashMap<String, Vec<ProtocolCommunicationSpecifier>>) -> (r: Vec<
    (String, Vec<ProtocolCommunicationSpecifier>),
>)
    ensures
        keys_unique(entries_view(r@)),
        assoc_map(entries_view(r@)) == specifier_lists_held(*m),
{
    m.iter().map(|e| (e.key().clone(), e.value().clone())).collect()
}

/// The device definitions a map from device identifiers holds, by identifier. The map finds a
/// key by the identifier's `Hash` (derived, over its three fields) and `Eq` (which holds exactly
/// when the identifiers' views are equal); the contracts below rest on those two agreeing.
pub uninterp spec fn definitions_held(m: DashMap<UserDeviceIdentifier, UserDeviceDefinition>) -> Map<
    UserIdView,
    UserDefinitionView,
>;

/// An empty map from device identifiers to definitions (`DashMap::new`).
#[verifier::external_body]
pub(crate) fn definitions_new() -> (r: DashMap<UserDeviceIdentifier, UserDeviceDefinition>)
    ensures
        definitions_held(r).dom() == Set::<UserIdView>::empty(),
{
    DashMap::new()
}

/// A copy of the definition the map holds for `id` (`DashMap::get`).
#[verifier::external_body]
pub(crate) fn definitions_get(m: &DashMap<UserDeviceIdentifier, UserDeviceDefinition>, id: &UserDeviceIdentifier) -> (r:
    Option<UserDeviceDefinition>)
    ensures
        match r {
            Some(d) => definitions_held(*m).dom().contains(id@) && d@ == definitions_held(*m)[id@],
            None => !definitions_held(*m).dom().contains(id@),
        },
{
    m.get(id).map(|d| d.value().clone())
}

/// Sets the definition held for `id` (`DashMap::insert`); says whether the map held one before.
#[verifier::external_body]
pub(crate) fn definitions_insert(
    m: &mut DashMap<UserDeviceIdentifier, UserDeviceDefinition>,
    id: UserDeviceIdentifier,
    def: UserDeviceDefinition,
) -> (r: bool)
    ensures
        definitions_held(*final(m)) == definitions_held(*old(m)).insert(id@, def@),
        r == definitions_held(*old(m)).dom().contains(id@),
{
    m.insert(id, def).is_some()
}

/// Copies of the identifiers and definitions the map holds (`DashMap::iter`), each identifier
/// once, in an order the map leaves open.
#[verifier::external_body]
pub(crate) fn definitions_entries(m: &DashMap<UserDeviceIdentifier, UserDeviceDefinition>) -> (r: Vec<
    (UserDeviceIdentifier, UserDeviceDefinition),
>)
    ensures
        keys_unique(pairs_view(r@)),
        assoc_map(pairs_view(r@)) == definitions_held(*m),
{
    m.iter().map(|e| (e.key().clone(), e.value().clone())).collect()
}

} // verus!

verus! {

/// The connected devices a map from device indexes holds, by index.
pub uninterp spec fn devices_held(m: DashMap<u32, ManagedDevice>) -> Map<u32, ManagedDeviceView>;

/// An empty map from device indexes to devices (`DashMap::new`).
#[verifier::external_body]
pub(crate) fn devices_new() -> (r: DashMap<u32, ManagedDevice>)
    ensures
        devices_held(r).dom() == Set::<u32>::empty(),
{
    DashMap::new()
}

/// A copy of the device the map holds at `index` (`DashMap::get`).
#[verifier::external_body]
pub(crate) fn devices_get(m: &DashMap<u32, ManagedDevice>, index: u32) -> (r: Option<ManagedDevice>)
    ensures
        match r {
            Some(d) => devices_held(*m).dom().contains(index) && d@ == devices_held(*m)[index],
            None => !devices_held(*m).dom().contains(index),
        },
{
    m.get(&index).map(|d| d.value().clone())
}

/// Puts `device` at `index` (`DashMap::insert`), handing back the device that was there.
#[verifier::external_body]
pub(crate) fn devices_insert(m: &mut DashMap<u32, ManagedDevice>, index: u32, device: ManagedDevice) -> (r:
    Option<ManagedDevice>)
    ensures
        devices_held(*final(m)) == devices_held(*old(m)).insert(index, device@),
        match r {
            Some(d) => devices_held(*old(m)).dom().contains(index) && d@ == devices_held(*old(m))[index],
            None => !devices_held(*old(m)).dom().contains(index),
        },
{
    m.insert(index, device)
}

/// Takes the device at `index` out of the map (`DashMap::remove`).
#[verifier::external_body]
pub(crate) fn devices_remove(m: &mut DashMap<u32, ManagedDevice>, index: u32) -> (r: Option<ManagedDevice>)
    ensures
        devices_held(*final(m)) == devices_held(*old(m)).remove(index),
        match r {
            Some(d) => devices_held(*old(m)).dom().contains(index) && d@ == devices_held(*old(m))[index],
            None => !devices_held(*old(m)).dom().contains(index),
        },
{
    m.remove(&index).map(|(_, d)| d)
}

/// Copies of the indexes and devices the map holds (`DashMap::iter`), each index once, in an
/// order the map leaves open.
#[verifier::external_body]
pub(crate) fn devices_entries(m: &DashMap<u32, ManagedDevice>) -> (r: Vec<(u32, ManagedDevice)>)
    ensures
        keys_unique(pairs_view(r@)),
        assoc_map(pairs_view(r@)) == devices_held(*m),
{
    m.iter().map(|e| (*e.key(), e.value().clone())).collect()
}

} // verus!
