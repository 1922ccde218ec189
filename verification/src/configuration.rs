//! The device configuration manager: which protocols exist, which hardware each protocol drives,
//! what the configuration and the user say of each device, and which devices may connect.
use vstd::prelude::*;
use crate::assoc::{
    assoc_find, assoc_insert, assoc_map, has_key, keys_unique, lemma_assoc_at, lemma_assoc_exists,
    lemma_assoc_len, lemma_assoc_prefix, lemma_assoc_push, lemma_assoc_update, pairs_view,
};
use crate::concurrent::{
    definitions_entries, definitions_get, definitions_held, definitions_insert, definitions_new,
    specifier_lists_entries, specifier_lists_get, specifier_lists_held, specifier_lists_insert,
    specifier_lists_new,
};
use dashmap::DashMap;
use crate::definitions::{
    definition_from_base, definition_with_raw, BaseDefinitionView, BaseDeviceDefinition,
    UserDefinitionView, UserDeviceDefinition,
};
use crate::identifiers::{base_of, BaseDeviceIdentifier, BaseIdView, UserDeviceIdentifier, UserIdView};
use crate::messages::Endpoint;
use crate::specifier::{specifiers_match, ProtocolCommunicationSpecifier, SpecifierView};
use crate::text::{clone_strings, contains_string, strings_view};

verus! {

/// Abstract values of a list of specifiers.
pub open spec fn specs_view(s: Seq<ProtocolCommunicationSpecifier>) -> Seq<SpecifierView> {
    s.map_values(|x: ProtocolCommunicationSpecifier| x@)
}

/// Copies a list of specifiers.
pub fn clone_specifiers(s: &[ProtocolCommunicationSpecifier]) -> (r: Vec<ProtocolCommunicationSpecifier>)
    ensures
        specs_view(r@) == specs_view(s@),
{
    let mut r: Vec<ProtocolCommunicationSpecifier> = Vec::new();
    let mut i: usize = 0;
    while i < s.len()
        invariant
            i <= s@.len(),
            r@.len() == i,
            forall|j: int| 0 <= j < i ==> #[trigger] r@[j]@ == s@[j]@,
        decreases s@.len() - i,
    {
        r.push(s[i].clone());
        i = i + 1;
    }
    assert(specs_view(r@) =~= specs_view(s@));
    r
}

/// Abstract values of a list of protocol names, each with its specifiers.
pub open spec fn entries_view(s: Seq<(String, Vec<ProtocolCommunicationSpecifier>)>) -> Seq<
    (Seq<char>, Seq<SpecifierView>),
> {
    s.map_values(|p: (String, Vec<ProtocolCommunicationSpecifier>)| (p.0@, specs_view(p.1@)))
}

/// Copies a list of protocol names with their specifiers.
fn clone_entries(s: &[(String, Vec<ProtocolCommunicationSpecifier>)]) -> (r: Vec<
    (String, Vec<ProtocolCommunicationSpecifier>),
>)
    ensures
        entries_view(r@) == entries_view(s@),
{
    let mut r: Vec<(String, Vec<ProtocolCommunicationSpecifier>)> = Vec::new();
    let mut i: usize = 0;
    while i < s.len()
        invariant
            i <= s@.len(),
            r@.len() == i,
            forall|j: int|
                0 <= j < i ==> #[trigger] r@[j].0@ == s@[j].0@ && specs_view(r@[j].1@) == specs_view(
                    s@[j].1@,
                ),
        decreases s@.len() - i,
    {
        let (name, list) = &s[i];
        r.push((name.clone(), clone_specifiers(list.as_slice())));
        i = i + 1;
    }
    assert(entries_view(r@) =~= entries_view(s@));
    r
}

/// The specifiers listed for `name`, with `extra` appended.
pub open spec fn extended(m: Map<Seq<char>, Seq<SpecifierView>>, name: Seq<char>, extra: Seq<SpecifierView>) -> Seq<
    SpecifierView,
> {
    if m.dom().contains(name) {
        m[name] + extra
    } else {
        extra
    }
}

/// `list` with copies of `extra` appended.
fn appended(list: Vec<ProtocolCommunicationSpecifier>, extra: &[ProtocolCommunicationSpecifier]) -> (r: Vec<
    ProtocolCommunicationSpecifier,
>)
    ensures
        specs_view(r@) == specs_view(list@) + specs_view(extra@),
{
    let mut list = list;
    let ghost start = specs_view(list@);
    let mut j: usize = 0;
    while j < extra.len()
        invariant
            j <= extra@.len(),
            list@.len() == start.len() + j,
            forall|t: int| 0 <= t < start.len() ==> #[trigger] list@[t]@ == start[t],
            forall|t: int| 0 <= t < j ==> #[trigger] list@[start.len() + t]@ == extra@[t]@,
        decreases extra@.len() - j,
    {
        list.push(extra[j].clone());
        j = j + 1;
    }
    assert(specs_view(list@) =~= start + specs_view(extra@)) by {
        assert forall|t: int| 0 <= t < list@.len() implies #[trigger] specs_view(list@)[t] == (start + specs_view(
            extra@,
        ))[t] by {
            if t >= start.len() {
                assert(list@[start.len() + (t - start.len())]@ == extra@[t - start.len()]@);
            }
        }
    }
    list
}

/// Appends `specs` to the specifiers listed for `name`, listing `name` if it was not.
fn extend_entry(
    v: &mut Vec<(String, Vec<ProtocolCommunicationSpecifier>)>,
    name: &str,
    specs: &[ProtocolCommunicationSpecifier],
)
    requires
        keys_unique(entries_view(old(v)@)),
    ensures
        keys_unique(entries_view(final(v)@)),
        assoc_map(entries_view(final(v)@)) == assoc_map(entries_view(old(v)@)).insert(
            name@,
            extended(assoc_map(entries_view(old(v)@)), name@, specs_view(specs@)),
        ),
{
    let ghost before = entries_view(v@);
    let key = name.to_owned();
    let found = assoc_find(v.as_slice(), &key);
    match found {
        Some(i) => {
            let list = appended(clone_specifiers(v[i].1.as_slice()), specs);
            let ghost lv = specs_view(list@);
            v.set(i, (key, list));
            proof {
                assert(before[i as int].0 == name@);
                lemma_assoc_at(before, i as int);
                assert(entries_view(v@) =~= before.update(i as int, (before[i as int].0, lv)));
                lemma_assoc_update(before, i as int, lv);
            }
        },
        None => {
            let list = clone_specifiers(specs);
            let ghost lv = specs_view(list@);
            v.push((key, list));
            proof {
                assert(!has_key(before, name@)) by {
                    if has_key(before, name@) {
                        let j = choose|j: int| 0 <= j < before.len() && before[j].0 == name@;
                        assert(pairs_view(old(v)@)[j].0 == name@);
                    }
                }
                let after = entries_view(v@);
                assert(after =~= before.push((name@, lv)));
                assert(keys_unique(after)) by {
                    assert forall|x: int, y: int| 0 <= x < after.len() && 0 <= y < after.len() && x != y
                        implies after[x].0 != after[y].0 by {
                        if x < before.len() && y < before.len() {
                            assert(after[x] == before[x] && after[y] == before[y]);
                        } else if x < before.len() {
                            assert(after[x] == before[x]);
                        } else if y < before.len() {
                            assert(after[y] == before[y]);
                        }
                    }
                }
                lemma_assoc_push(before, (name@, lv));
            }
        },
    }
}

/// Abstract value of a protocol specializer.
pub struct SpecializerView {
    pub protocol: Seq<char>,
    pub specifiers: Seq<SpecifierView>,
}

/// A protocol that may drive a discovered device, with the specifiers it knows its hardware by.
#[derive(Debug)]
pub struct ProtocolSpecializer {
    protocol: String,
    specifiers: Vec<ProtocolCommunicationSpecifier>,
}

impl View for ProtocolSpecializer {
    type V = SpecializerView;

    closed spec fn view(&self) -> SpecializerView {
        SpecializerView { protocol: self.protocol@, specifiers: specs_view(self.specifiers@) }
    }
}

impl ProtocolSpecializer {
    pub fn new(specifiers: &[ProtocolCommunicationSpecifier], protocol: &str) -> (r: Self)
        ensures
            r@ == (SpecializerView { protocol: protocol@, specifiers: specs_view(specifiers@) }),
    {
        ProtocolSpecializer { protocol: protocol.to_owned(), specifiers: clone_specifiers(specifiers) }
    }

    pub fn protocol(&self) -> (r: &String)
        ensures
            r@ == self@.protocol,
    {
        &self.protocol
    }

    pub fn specifiers(&self) -> (r: &Vec<ProtocolCommunicationSpecifier>)
        ensures
            specs_view(r@) == self@.specifiers,
    {
        &self.specifiers
    }
}

/// Abstract values of a list of specializers.
pub open spec fn specializers_view(s: Seq<ProtocolSpecializer>) -> Seq<SpecializerView> {
    s.map_values(|x: ProtocolSpecializer| x@)
}

} // verus!

verus! {

/// Abstract value of a configuration manager builder.
pub struct BuilderView {
    pub skip_default_protocols: bool,
    pub allow_raw_messages: bool,
    pub communication_specifiers: Map<Seq<char>, Seq<SpecifierView>>,
    pub user_communication_specifiers: Map<Seq<char>, Seq<SpecifierView>>,
    pub base_device_definitions: Map<BaseIdView, BaseDefinitionView>,
    pub user_device_definitions: Map<UserIdView, UserDefinitionView>,
    pub protocols: Set<Seq<char>>,
}

/// Gathers protocols, specifiers and device definitions, and then builds a configuration
/// manager from them.
#[derive(Debug)]
pub struct DeviceConfigurationManagerBuilder {
    skip_default_protocols: bool,
    allow_raw_messages: bool,
    communication_specifiers: Vec<(String, Vec<ProtocolCommunicationSpecifier>)>,
    user_communication_specifiers: DashMap<String, Vec<ProtocolCommunicationSpecifier>>,
    base_device_definitions: Vec<(BaseDeviceIdentifier, BaseDeviceDefinition)>,
    user_device_definitions: DashMap<UserDeviceIdentifier, UserDeviceDefinition>,
    protocols: Vec<String>,
}

impl View for DeviceConfigurationManagerBuilder {
    type V = BuilderView;

    closed spec fn view(&self) -> BuilderView {
        BuilderView {
            skip_default_protocols: self.skip_default_protocols,
            allow_raw_messages: self.allow_raw_messages,
            communication_specifiers: assoc_map(entries_view(self.communication_specifiers@)),
            user_communication_specifiers: specifier_lists_held(self.user_communication_specifiers),
            base_device_definitions: assoc_map(pairs_view(self.base_device_definitions@)),
            user_device_definitions: definitions_held(self.user_device_definitions),
            protocols: strings_view(self.protocols@).to_set(),
        }
    }
}

impl DeviceConfigurationManagerBuilder {
    /// Each protocol and model is listed once.
    pub closed spec fn well_formed(&self) -> bool {
        &&& keys_unique(entries_view(self.communication_specifiers@))
        &&& keys_unique(pairs_view(self.base_device_definitions@))
    }
}

impl Default for DeviceConfigurationManagerBuilder {
    fn default() -> (r: Self)
        ensures
            r.well_formed(),
            r@ == (BuilderView {
                skip_default_protocols: false,
                allow_raw_messages: false,
                communication_specifiers: Map::empty(),
                user_communication_specifiers: Map::empty(),
                base_device_definitions: Map::empty(),
                user_device_definitions: Map::empty(),
                protocols: Set::empty(),
            }),
    {
        let r = DeviceConfigurationManagerBuilder {
            skip_default_protocols: false,
            allow_raw_messages: false,
            communication_specifiers: Vec::new(),
            user_communication_specifiers: specifier_lists_new(),
            base_device_definitions: Vec::new(),
            user_device_definitions: definitions_new(),
            protocols: Vec::new(),
        };
        assert(r@.communication_specifiers =~= Map::empty());
        assert(r@.user_communication_specifiers =~= Map::empty());
        assert(r@.base_device_definitions =~= Map::empty());
        assert(r@.user_device_definitions =~= Map::empty());
        assert(r@.protocols =~= Set::empty());
        r
    }
}

impl DeviceConfigurationManagerBuilder {
    /// Adds specifiers of the hardware protocol `protocol_name` drives, after those it already
    /// has.
    pub fn communication_specifier(
        &mut self,
        protocol_name: &str,
        specifier: &[ProtocolCommunicationSpecifier],
    ) -> (r: &mut Self)
        requires
            old(self).well_formed(),
        ensures
            r.well_formed(),
            r@ == (BuilderView {
                communication_specifiers: old(self)@.communication_specifiers.insert(
                    protocol_name@,
                    extended(old(self)@.communication_specifiers, protocol_name@, specs_view(specifier@)),
                ),
                ..old(self)@
            }),
            *final(self) == *final(r),
    {
        extend_entry(&mut self.communication_specifiers, protocol_name, specifier);
        self
    }
}

} // verus!

verus! {

impl DeviceConfigurationManagerBuilder {
    /// Sets the definition of the model `identifier`, replacing the one it had.
    pub fn protocol_features(
        &mut self,
        identifier: &BaseDeviceIdentifier,
        features: &BaseDeviceDefinition,
    ) -> (r: &mut Self)
        requires
            old(self).well_formed(),
        ensures
            r.well_formed(),
            r@ == (BuilderView {
                base_device_definitions: old(self)@.base_device_definitions.insert(
                    identifier@,
                    features@,
                ),
                ..old(self)@
            }),
            *final(self) == *final(r),
    {
        assoc_insert(&mut self.base_device_definitions, identifier.clone(), features.clone());
        self
    }

    /// Adds user-provided specifiers of the hardware protocol `protocol_name` drives, after those
    /// it already has.
    pub fn user_communication_specifier(
        &mut self,
        protocol_name: &str,
        specifier: &[ProtocolCommunicationSpecifier],
    ) -> (r: &mut Self)
        requires
            old(self).well_formed(),
        ensures
            r.well_formed(),
            r@ == (BuilderView {
                user_communication_specifiers: old(self)@.user_communication_specifiers.insert(
                    protocol_name@,
                    extended(
                        old(self)@.user_communication_specifiers,
                        protocol_name@,
                        specs_view(specifier@),
                    ),
                ),
                ..old(self)@
            }),
            *final(self) == *final(r),
    {
        let list = match specifier_lists_get(&self.user_communication_specifiers, protocol_name) {
            Some(list) => appended(list, specifier),
            None => clone_specifiers(specifier),
        };
        specifier_lists_insert(&mut self.user_communication_specifiers, protocol_name.to_owned(), list);
        self
    }

    /// Sets the user's definition of the device `identifier`, replacing the one it had.
    pub fn user_protocol_features(
        &mut self,
        identifier: &UserDeviceIdentifier,
        features: &UserDeviceDefinition,
    ) -> (r: &mut Self)
        requires
            old(self).well_formed(),
        ensures
            r.well_formed(),
            r@ == (BuilderView {
                user_device_definitions: old(self)@.user_device_definitions.insert(
                    identifier@,
                    features@,
                ),
                ..old(self)@
            }),
            *final(self) == *final(r),
    {
        definitions_insert(&mut self.user_device_definitions, identifier.clone(), features.clone());
        self
    }

    /// Registers the protocol named `identifier`.
    pub fn protocol_factory(&mut self, identifier: &str) -> (r: &mut Self)
        requires
            old(self).well_formed(),
        ensures
            r.well_formed(),
            r@ == (BuilderView { protocols: old(self)@.protocols.insert(identifier@), ..old(self)@ }),
            *final(self) == *final(r),
    {
        let ghost before = strings_view(self.protocols@);
        self.protocols.push(identifier.to_owned());
        proof {
            assert(strings_view(self.protocols@) =~= before.push(identifier@));
            before.lemma_push_to_set_commute(identifier@);
        }
        self
    }

    /// Leaves the protocols built into the library out of the manager.
    pub fn skip_default_protocols(&mut self) -> (r: &mut Self)
        requires
            old(self).well_formed(),
        ensures
            r.well_formed(),
            r@ == (BuilderView { skip_default_protocols: true, ..old(self)@ }),
            *final(self) == *final(r),
    {
        self.skip_default_protocols = true;
        self
    }

    /// Whether devices get raw access to their endpoints.
    pub fn allow_raw_messages(&mut self, allow: bool) -> (r: &mut Self)
        requires
            old(self).well_formed(),
        ensures
            r.well_formed(),
            r@ == (BuilderView { allow_raw_messages: allow, ..old(self)@ }),
            *final(self) == *final(r),
    {
        self.allow_raw_messages = allow;
        self
    }
}

} // verus!

verus! {

/// Abstract value of a configuration manager.
pub struct DcmView {
    pub allow_raw_messages: bool,
    pub protocols: Set<Seq<char>>,
    pub base_specifiers: Seq<(Seq<char>, Seq<SpecifierView>)>,
    pub user_specifiers: Map<Seq<char>, Seq<SpecifierView>>,
    pub base_definitions: Map<BaseIdView, BaseDefinitionView>,
    pub user_definitions: Map<UserIdView, UserDefinitionView>,
}

/// Correlates protocols with the devices they support: which protocols exist, the specifiers
/// each protocol knows its hardware by, and the definitions of device models and of particular
/// devices.
#[derive(Debug)]
pub struct DeviceConfigurationManager {
    allow_raw_messages: bool,
    protocols: Vec<String>,
    base_communication_specifiers: Vec<(String, Vec<ProtocolCommunicationSpecifier>)>,
    user_communication_specifiers: DashMap<String, Vec<ProtocolCommunicationSpecifier>>,
    base_device_definitions: Vec<(BaseDeviceIdentifier, BaseDeviceDefinition)>,
    user_device_definitions: DashMap<UserDeviceIdentifier, UserDeviceDefinition>,
}

impl View for DeviceConfigurationManager {
    type V = DcmView;

    closed spec fn view(&self) -> DcmView {
        DcmView {
            allow_raw_messages: self.allow_raw_messages,
            protocols: strings_view(self.protocols@).to_set(),
            base_specifiers: entries_view(self.base_communication_specifiers@),
            user_specifiers: specifier_lists_held(self.user_communication_specifiers),
            base_definitions: assoc_map(pairs_view(self.base_device_definitions@)),
            user_definitions: definitions_held(self.user_device_definitions),
        }
    }
}

impl DeviceConfigurationManager {
    /// Each protocol and model is listed once.
    pub closed spec fn well_formed(&self) -> bool {
        &&& keys_unique(entries_view(self.base_communication_specifiers@))
        &&& keys_unique(pairs_view(self.base_device_definitions@))
    }
}

/// The protocols a manager built by `b` knows: those built into the library (unless skipped) and
/// those registered with the builder.
pub open spec fn known_protocols(b: BuilderView, defaults: Set<Seq<char>>) -> Set<Seq<char>> {
    (if b.skip_default_protocols {
        Set::empty()
    } else {
        defaults
    }) + b.protocols
}

/// The model definitions whose protocol is known.
pub open spec fn base_definitions_known(
    m: Map<BaseIdView, BaseDefinitionView>,
    protocols: Set<Seq<char>>,
) -> Map<BaseIdView, BaseDefinitionView> {
    Map::new(|k: BaseIdView| m.dom().contains(k) && protocols.contains(k.protocol), |k: BaseIdView| m[k])
}

/// The device definitions whose protocol is known.
pub open spec fn user_definitions_known(
    m: Map<UserIdView, UserDefinitionView>,
    protocols: Set<Seq<char>>,
) -> Map<UserIdView, UserDefinitionView> {
    Map::new(|k: UserIdView| m.dom().contains(k) && protocols.contains(k.protocol), |k: UserIdView| m[k])
}

fn filter_base_definitions(
    src: &[(BaseDeviceIdentifier, BaseDeviceDefinition)],
    names: &[String],
) -> (r: Vec<(BaseDeviceIdentifier, BaseDeviceDefinition)>)
    requires
        keys_unique(pairs_view(src@)),
    ensures
        keys_unique(pairs_view(r@)),
        assoc_map(pairs_view(r@)) == base_definitions_known(
            assoc_map(pairs_view(src@)),
            strings_view(names@).to_set(),
        ),
{
    let ghost pv = pairs_view(src@);
    let ghost p = strings_view(names@).to_set();
    let mut out: Vec<(BaseDeviceIdentifier, BaseDeviceDefinition)> = Vec::new();
    let mut i: usize = 0;
    assert(assoc_map(pairs_view(out@)) =~= base_definitions_known(assoc_map(pv.subrange(0, 0)), p));
    while i < src.len()
        invariant
            i <= src@.len(),
            pv == pairs_view(src@),
            p == strings_view(names@).to_set(),
            keys_unique(pv),
            keys_unique(pairs_view(out@)),
            assoc_map(pairs_view(out@)) == base_definitions_known(assoc_map(pv.subrange(0, i as int)), p),
        decreases src@.len() - i,
    {
        let (k, v) = &src[i];
        proof {
            lemma_assoc_prefix(pv, i as int);
            assert(pv[i as int] == (k@, v@));
        }
        let ghost prev = assoc_map(pv.subrange(0, i as int));
        if contains_string(names, k.protocol()) {
            assoc_insert(&mut out, k.clone(), v.clone());
            assert(base_definitions_known(prev, p).insert(k@, v@) =~= base_definitions_known(
                prev.insert(k@, v@),
                p,
            ));
        } else {
            assert(base_definitions_known(prev, p) =~= base_definitions_known(prev.insert(k@, v@), p));
        }
        i = i + 1;
    }
    assert(pv.subrange(0, src@.len() as int) =~= pv);
    out
}

fn filter_user_definitions(
    src: &[(UserDeviceIdentifier, UserDeviceDefinition)],
    names: &[String],
) -> (r: Vec<(UserDeviceIdentifier, UserDeviceDefinition)>)
    requires
        keys_unique(pairs_view(src@)),
    ensures
        keys_unique(pairs_view(r@)),
        assoc_map(pairs_view(r@)) == user_definitions_known(
            assoc_map(pairs_view(src@)),
            strings_view(names@).to_set(),
        ),
{
    let ghost pv = pairs_view(src@);
    let ghost p = strings_view(names@).to_set();
    let mut out: Vec<(UserDeviceIdentifier, UserDeviceDefinition)> = Vec::new();
    let mut i: usize = 0;
    assert(assoc_map(pairs_view(out@)) =~= user_definitions_known(assoc_map(pv.subrange(0, 0)), p));
    while i < src.len()
        invariant
            i <= src@.len(),
            pv == pairs_view(src@),
            p == strings_view(names@).to_set(),
            keys_unique(pv),
            keys_unique(pairs_view(out@)),
            assoc_map(pairs_view(out@)) == user_definitions_known(assoc_map(pv.subrange(0, i as int)), p),
        decreases src@.len() - i,
    {
        let (k, v) = &src[i];
        proof {
            lemma_assoc_prefix(pv, i as int);
            assert(pv[i as int] == (k@, v@));
        }
        let ghost prev = assoc_map(pv.subrange(0, i as int));
        if contains_string(names, k.protocol()) {
            assoc_insert(&mut out, k.clone(), v.clone());
            assert(user_definitions_known(prev, p).insert(k@, v@) =~= user_definitions_known(
                prev.insert(k@, v@),
                p,
            ));
        } else {
            assert(user_definitions_known(prev, p) =~= user_definitions_known(prev.insert(k@, v@), p));
        }
        i = i + 1;
    }
    assert(pv.subrange(0, src@.len() as int) =~= pv);
    out
}

/// A map holding the listed names and specifier lists.
fn specifier_lists_from(entries: &[(String, Vec<ProtocolCommunicationSpecifier>)]) -> (r: DashMap<
    String,
    Vec<ProtocolCommunicationSpecifier>,
>)
    requires
        keys_unique(entries_view(entries@)),
    ensures
        specifier_lists_held(r) == assoc_map(entries_view(entries@)),
{
    let ghost ev = entries_view(entries@);
    let mut m = specifier_lists_new();
    let mut i: usize = 0;
    assert(specifier_lists_held(m) =~= assoc_map(ev.subrange(0, 0)));
    while i < entries.len()
        invariant
            i <= entries@.len(),
            ev == entries_view(entries@),
            keys_unique(ev),
            specifier_lists_held(m) == assoc_map(ev.subrange(0, i as int)),
        decreases entries@.len() - i,
    {
        let (name, list) = &entries[i];
        proof {
            lemma_assoc_prefix(ev, i as int);
            assert(ev[i as int] == (name@, specs_view(list@)));
        }
        specifier_lists_insert(&mut m, name.clone(), clone_specifiers(list.as_slice()));
        i = i + 1;
    }
    assert(ev.subrange(0, entries@.len() as int) =~= ev);
    m
}

/// A map holding the listed device identifiers and definitions.
fn definitions_from(entries: &[(UserDeviceIdentifier, UserDeviceDefinition)]) -> (r: DashMap<
    UserDeviceIdentifier,
    UserDeviceDefinition,
>)
    requires
        keys_unique(pairs_view(entries@)),
    ensures
        definitions_held(r) == assoc_map(pairs_view(entries@)),
{
    let ghost pv = pairs_view(entries@);
    let mut m = definitions_new();
    let mut i: usize = 0;
    assert(definitions_held(m) =~= assoc_map(pv.subrange(0, 0)));
    while i < entries.len()
        invariant
            i <= entries@.len(),
            pv == pairs_view(entries@),
            keys_unique(pv),
            definitions_held(m) == assoc_map(pv.subrange(0, i as int)),
        decreases entries@.len() - i,
    {
        let (k, v) = &entries[i];
        proof {
            lemma_assoc_prefix(pv, i as int);
            assert(pv[i as int] == (k@, v@));
        }
        definitions_insert(&mut m, k.clone(), v.clone());
        i = i + 1;
    }
    assert(pv.subrange(0, entries@.len() as int) =~= pv);
    m
}

impl DeviceConfigurationManagerBuilder {
    /// Builds the manager. It knows the protocols named in `default_protocols` (the protocols
    /// built into the library) unless they are skipped, and those registered here; it keeps the
    /// specifiers as they were given, and the model and device definitions whose protocol it
    /// knows.
    pub fn finish(&self, default_protocols: &[String]) -> (r: DeviceConfigurationManager)
        requires
            self.well_formed(),
        ensures
            r.well_formed(),
            r@.allow_raw_messages == self@.allow_raw_messages,
            r@.protocols == known_protocols(self@, strings_view(default_protocols@).to_set()),
            assoc_map(r@.base_specifiers) == self@.communication_specifiers,
            r@.user_specifiers == self@.user_communication_specifiers,
            r@.base_definitions == base_definitions_known(self@.base_device_definitions, r@.protocols),
            r@.user_definitions == user_definitions_known(self@.user_device_definitions, r@.protocols),
    {
        let mut names: Vec<String> = if self.skip_default_protocols {
            Vec::new()
        } else {
            clone_strings(default_protocols)
        };
        let ghost start = strings_view(names@);
        let mut i: usize = 0;
        while i < self.protocols.len()
            invariant
                i <= self.protocols@.len(),
                names@.len() == start.len() + i,
                forall|t: int| 0 <= t < start.len() ==> #[trigger] names@[t]@ == start[t],
                forall|t: int| 0 <= t < i ==> #[trigger] names@[start.len() + t]@ == self.protocols@[t]@,
            decreases self.protocols@.len() - i,
        {
            names.push(self.protocols[i].clone());
            i = i + 1;
        }
        proof {
            let all = strings_view(self.protocols@);
            assert(strings_view(names@) =~= start + all) by {
                assert forall|t: int| 0 <= t < names@.len() implies #[trigger] strings_view(names@)[t] == (
                start + all)[t] by {
                    if t >= start.len() {
                        assert(names@[start.len() + (t - start.len())]@ == self.protocols@[t - start.len()]@);
                    }
                }
            }
            vstd::seq_lib::seq_to_set_distributes_over_add(start, all);
            if self.skip_default_protocols {
                assert(start.to_set() =~= Set::empty());
            }
            assert(strings_view(names@).to_set() =~= known_protocols(
                self@,
                strings_view(default_protocols@).to_set(),
            ));
        }
        let base_device_definitions = filter_base_definitions(
            self.base_device_definitions.as_slice(),
            names.as_slice(),
        );
        let user_entries = definitions_entries(&self.user_device_definitions);
        let user_device_definitions = filter_user_definitions(user_entries.as_slice(), names.as_slice());
        let user_specifiers = specifier_lists_entries(&self.user_communication_specifiers);
        DeviceConfigurationManager {
            allow_raw_messages: self.allow_raw_messages,
            protocols: names,
            base_communication_specifiers: clone_entries(self.communication_specifiers.as_slice()),
            user_communication_specifiers: specifier_lists_from(user_specifiers.as_slice()),
            base_device_definitions,
            user_device_definitions: definitions_from(user_device_definitions.as_slice()),
        }
    }
}

} // verus!

verus! {

/// Whether some device definition keeps index `i`.
pub open spec fn index_used(m: Map<UserIdView, UserDefinitionView>, i: u32) -> bool {
    exists|k: UserIdView| #[trigger] m.dom().contains(k) && m[k].user_config.index == i
}

/// Whether `i` is the smallest index that no device definition keeps.
pub open spec fn is_smallest_free(m: Map<UserIdView, UserDefinitionView>, i: u32) -> bool {
    !index_used(m, i) && forall|j: u32| j < i ==> #[trigger] index_used(m, j)
}

/// The smallest index that no device definition keeps.
pub open spec fn smallest_free_index(m: Map<UserIdView, UserDefinitionView>) -> u32 {
    choose|i: u32| is_smallest_free(m, i)
}

/// The index of device `id`: the one its definition keeps, or else the smallest free one.
pub open spec fn spec_device_index(m: Map<UserIdView, UserDefinitionView>, id: UserIdView) -> u32 {
    if m.dom().contains(id) {
        m[id].user_config.index
    } else {
        smallest_free_index(m)
    }
}

/// If every index up to `k` is kept by some device, there are more than `k` devices.
proof fn lemma_used_prefix_bound(m: Map<UserIdView, UserDefinitionView>, k: u32)
    requires
        m.dom().finite(),
        forall|j: u32| j <= k ==> #[trigger] index_used(m, j),
    ensures
        k < m.dom().len(),
{
    let f = |key: UserIdView| m[key].user_config.index as int;
    let y = m.dom().map(f);
    vstd::set_lib::lemma_map_size_bound(m.dom(), y, f);
    vstd::set_lib::lemma_int_range(0, k + 1);
    assert(vstd::set_lib::set_int_range(0, k + 1).subset_of(y)) by {
        assert forall|x: int| #[trigger] vstd::set_lib::set_int_range(0, k + 1).contains(x) implies y.contains(x) by {
            let j = x as u32;
            assert(index_used(m, j));
            let key = choose|key: UserIdView| #[trigger] m.dom().contains(key) && m[key].user_config.index == j;
            assert(f(key) == x);
        }
    }
    vstd::set_lib::lemma_len_subset(vstd::set_lib::set_int_range(0, k + 1), y);
}

/// Below any free index there is a smallest free index.
proof fn lemma_smallest_free_below(m: Map<UserIdView, UserDefinitionView>, i: u32)
    requires
        !index_used(m, i),
    ensures
        is_smallest_free(m, smallest_free_index(m)),
        smallest_free_index(m) <= i,
    decreases i,
{
    if forall|j: u32| j < i ==> #[trigger] index_used(m, j) {
        assert(is_smallest_free(m, i));
        lemma_smallest_free_unique(m, i);
    } else {
        let j = choose|j: u32| j < i && !#[trigger] index_used(m, j);
        lemma_smallest_free_below(m, j);
    }
}

/// The smallest free index is the only index that is free with all smaller ones used.
proof fn lemma_smallest_free_unique(m: Map<UserIdView, UserDefinitionView>, i: u32)
    requires
        is_smallest_free(m, i),
    ensures
        smallest_free_index(m) == i,
{
    let c = smallest_free_index(m);
    assert(is_smallest_free(m, c));
    if c < i {
        assert(index_used(m, c));
    } else if c > i {
        assert(index_used(m, i));
    }
}

/// While fewer than `u32::MAX` devices are defined, a smallest free index exists.
pub proof fn lemma_smallest_free_exists(m: Map<UserIdView, UserDefinitionView>)
    requires
        m.dom().finite(),
        m.dom().len() < u32::MAX,
    ensures
        is_smallest_free(m, smallest_free_index(m)),
        smallest_free_index(m) <= m.dom().len(),
{
    let n = m.dom().len() as u32;
    if index_used(m, n) {
        if forall|j: u32| j <= n ==> #[trigger] index_used(m, j) {
            lemma_used_prefix_bound(m, n);
        }
        let j = choose|j: u32| j <= n && !#[trigger] index_used(m, j);
        lemma_smallest_free_below(m, j);
    } else {
        lemma_smallest_free_below(m, n);
    }
}

/// Whether some listed definition keeps index `index`.
fn index_in_use(v: &[(UserDeviceIdentifier, UserDeviceDefinition)], index: u32) -> (r: bool)
    ensures
        r == exists|i: int| 0 <= i < v@.len() && #[trigger] pairs_view(v@)[i].1.user_config.index == index,
{
    let mut i: usize = 0;
    while i < v.len()
        invariant
            i <= v@.len(),
            forall|j: int| 0 <= j < i ==> #[trigger] pairs_view(v@)[j].1.user_config.index != index,
        decreases v@.len() - i,
    {
        if v[i].1.user_config().index() == index {
            assert(pairs_view(v@)[i as int].1.user_config.index == index);
            return true;
        }
        i = i + 1;
    }
    false
}

impl DeviceConfigurationManager {
    /// The smallest index that no device definition keeps.
    fn free_index(&self) -> (r: u32)
        requires
            self.well_formed(),
            self@.user_definitions.dom().len() < u32::MAX,
        ensures
            r == smallest_free_index(self@.user_definitions),
    {
        let entries = definitions_entries(&self.user_device_definitions);
        let ghost s = pairs_view(entries@);
        let ghost m = assoc_map(s);
        proof {
            lemma_assoc_len(s);
            crate::assoc::lemma_assoc_dom(s);
        }
        let mut index: u32 = 0;
        while index_in_use(entries.as_slice(), index)
            invariant
                s == pairs_view(entries@),
                m == assoc_map(s),
                keys_unique(s),
                m.dom().finite(),
                m.dom().len() < u32::MAX,
                index <= m.dom().len(),
                forall|j: u32| j < index ==> #[trigger] index_used(m, j),
            decreases m.dom().len() - index,
        {
            proof {
                let p = |k: UserIdView, v: UserDefinitionView| v.user_config.index == index;
                lemma_assoc_exists(s, p);
                let i = choose|i: int| 0 <= i < s.len() && #[trigger] s[i].1.user_config.index == index;
                assert(p(s[i].0, s[i].1));
                assert(index_used(m, index));
                assert forall|j: u32| j <= index implies #[trigger] index_used(m, j) by {
                    if j < index {
                        assert(index_used(m, j));
                    }
                }
                lemma_used_prefix_bound(m, index);
            }
            index = index + 1;
        }
        proof {
            let p = |k: UserIdView, v: UserDefinitionView| v.user_config.index == index;
            lemma_assoc_exists(s, p);
            if index_used(m, index) {
                let k = choose|k: UserIdView| #[trigger] m.dom().contains(k) && m[k].user_config.index == index;
                assert(p(k, m[k]));
                let i = choose|i: int| 0 <= i < s.len() && #[trigger] p(s[i].0, s[i].1);
                assert(s[i].1.user_config.index == index);
            }
            assert(is_smallest_free(m, index));
            lemma_smallest_free_unique(m, index);
        }
        index
    }
}

} // verus!

verus! {

/// Whether a device at `address` may connect: it must not be denied, and when some device is on
/// the allow list, it must be on it too.
pub open spec fn spec_address_allowed(m: Map<UserIdView, UserDefinitionView>, address: Seq<char>) -> bool {
    let denied = exists|k: UserIdView|
        #[trigger] m.dom().contains(k) && k.address == address && m[k].user_config.deny;
    let allow_list = exists|k: UserIdView| #[trigger] m.dom().contains(k) && m[k].user_config.allow;
    let allowed = exists|k: UserIdView|
        #[trigger] m.dom().contains(k) && k.address == address && m[k].user_config.allow;
    !denied && (!allow_list || allowed)
}

impl DeviceConfigurationManager {
    /// Whether the device at `address` may connect (see `spec_address_allowed`).
    pub fn address_allowed(&self, address: &str) -> (r: bool)
        requires
            self.well_formed(),
        ensures
            r == spec_address_allowed(self@.user_definitions, address@),
    {
        let entries = definitions_entries(&self.user_device_definitions);
        let ghost s = pairs_view(entries@);
        let ghost m = assoc_map(s);
        let addr = address.to_owned();
        let mut denied = false;
        let mut allow_list = false;
        let mut allowed = false;
        let mut i: usize = 0;
        while i < entries.len()
            invariant
                i <= s.len(),
                s == pairs_view(entries@),
                addr@ == address@,
                denied == exists|j: int|
                    0 <= j < i && #[trigger] s[j].0.address == address@ && s[j].1.user_config.deny,
                allow_list == exists|j: int| 0 <= j < i && #[trigger] s[j].1.user_config.allow,
                allowed == exists|j: int|
                    0 <= j < i && #[trigger] s[j].0.address == address@ && s[j].1.user_config.allow,
            decreases s.len() - i,
        {
            let (k, v) = &entries[i];
            assert(s[i as int] == (k@, v@));
            let same = *k.address() == addr;
            let cfg = v.user_config();
            assert(same == (s[i as int].0.address == address@));
            assert(cfg@ == s[i as int].1.user_config);
            if same && cfg.deny() {
                denied = true;
            }
            if cfg.allow() {
                allow_list = true;
            }
            if same && cfg.allow() {
                allowed = true;
            }
            i = i + 1;
        }
        proof {
            let p1 = |k: UserIdView, v: UserDefinitionView| k.address == address@ && v.user_config.deny;
            let p2 = |k: UserIdView, v: UserDefinitionView| v.user_config.allow;
            let p3 = |k: UserIdView, v: UserDefinitionView| k.address == address@ && v.user_config.allow;
            lemma_assoc_exists(s, p1);
            lemma_assoc_exists(s, p2);
            lemma_assoc_exists(s, p3);
            if denied {
                let j = choose|j: int| 0 <= j < i && #[trigger] s[j].0.address == address@ && s[j].1.user_config.deny;
                assert(p1(s[j].0, s[j].1));
            }
            if allow_list {
                let j = choose|j: int| 0 <= j < i && #[trigger] s[j].1.user_config.allow;
                assert(p2(s[j].0, s[j].1));
            }
            if allowed {
                let j = choose|j: int| 0 <= j < i && #[trigger] s[j].0.address == address@ && s[j].1.user_config.allow;
                assert(p3(s[j].0, s[j].1));
            }
            if exists|k: UserIdView| #[trigger] m.dom().contains(k) && k.address == address@ && m[k].user_config.deny {
                let k = choose|k: UserIdView| #[trigger] m.dom().contains(k) && k.address == address@ && m[k].user_config.deny;
                assert(p1(k, m[k]));
            }
            if exists|k: UserIdView| #[trigger] m.dom().contains(k) && m[k].user_config.allow {
                let k = choose|k: UserIdView| #[trigger] m.dom().contains(k) && m[k].user_config.allow;
                assert(p2(k, m[k]));
            }
            if exists|k: UserIdView| #[trigger] m.dom().contains(k) && k.address == address@ && m[k].user_config.allow {
                let k = choose|k: UserIdView| #[trigger] m.dom().contains(k) && k.address == address@ && m[k].user_config.allow;
                assert(p3(k, m[k]));
            }
        }
        !denied && (!allow_list || allowed)
    }
}

} // verus!

verus! {

/// Whether a protocol's specifiers hold one that matches the specifier `s` of a discovered device.
pub open spec fn list_matches(list: Seq<SpecifierView>, s: SpecifierView) -> bool {
    exists|j: int| 0 <= j < list.len() && #[trigger] specifiers_match(list[j], s)
}

/// The entries, in order, of known protocols with a specifier that matches `s`.
pub open spec fn matching_entries(
    entries: Seq<(Seq<char>, Seq<SpecifierView>)>,
    protocols: Set<Seq<char>>,
    s: SpecifierView,
) -> Seq<SpecializerView>
    decreases entries.len(),
{
    if entries.len() == 0 {
        Seq::empty()
    } else {
        let prev = matching_entries(entries.drop_last(), protocols, s);
        let e = entries.last();
        if list_matches(e.1, s) && protocols.contains(e.0) {
            prev.push(SpecializerView { protocol: e.0, specifiers: e.1 })
        } else {
            prev
        }
    }
}

/// Whether `found` is what matching `s` against the manager `d` may give: the entries matched
/// through the user's specifiers, taken in some order in which each protocol comes once, then
/// those matched through the configuration's.
pub open spec fn specializers_found(d: DcmView, s: SpecifierView, found: Seq<SpecializerView>) -> bool {
    exists|user: Seq<(Seq<char>, Seq<SpecifierView>)>|
        keys_unique(user) && #[trigger] assoc_map(user) == d.user_specifiers && found == matching_entries(
            user,
            d.protocols,
            s,
        ) + matching_entries(d.base_specifiers, d.protocols, s)
}

fn list_contains(list: &[ProtocolCommunicationSpecifier], s: &ProtocolCommunicationSpecifier) -> (r: bool)
    ensures
        r == list_matches(specs_view(list@), s@),
{
    let ghost lv = specs_view(list@);
    let mut j: usize = 0;
    while j < list.len()
        invariant
            j <= list@.len(),
            lv == specs_view(list@),
            forall|t: int| 0 <= t < j ==> !#[trigger] specifiers_match(lv[t], s@),
        decreases list@.len() - j,
    {
        if list[j] == *s {
            assert(specifiers_match(lv[j as int], s@));
            return true;
        }
        j = j + 1;
    }
    false
}

fn collect_matching(
    entries: &[(String, Vec<ProtocolCommunicationSpecifier>)],
    names: &[String],
    s: &ProtocolCommunicationSpecifier,
    out: &mut Vec<ProtocolSpecializer>,
)
    ensures
        specializers_view(final(out)@) == specializers_view(old(out)@) + matching_entries(
            entries_view(entries@),
            strings_view(names@).to_set(),
            s@,
        ),
{
    let ghost ev = entries_view(entries@);
    let ghost p = strings_view(names@).to_set();
    let ghost start = specializers_view(out@);
    let mut i: usize = 0;
    assert(start + matching_entries(ev.subrange(0, 0), p, s@) =~= start);
    while i < entries.len()
        invariant
            i <= entries@.len(),
            ev == entries_view(entries@),
            p == strings_view(names@).to_set(),
            specializers_view(out@) == start + matching_entries(ev.subrange(0, i as int), p, s@),
        decreases entries@.len() - i,
    {
        let (name, list) = &entries[i];
        proof {
            assert(ev.subrange(0, i + 1).drop_last() =~= ev.subrange(0, i as int));
            assert(ev.subrange(0, i + 1).last() == ev[i as int]);
            assert(ev[i as int] == (name@, specs_view(list@)));
        }
        let ghost before = specializers_view(out@);
        if list_contains(list.as_slice(), s) && contains_string(names, name) {
            let sp = ProtocolSpecializer::new(list.as_slice(), name.as_str());
            out.push(sp);
            assert(specializers_view(out@) =~= before.push(sp@));
        }
        i = i + 1;
    }
    assert(ev.subrange(0, entries@.len() as int) =~= ev);
}

impl DeviceConfigurationManager {
    /// The known protocols with a specifier matching `specifier`: first those matched through
    /// the user's specifiers, then those matched through the configuration's (see
    /// `specializers_found`).
    pub fn protocol_specializers(&self, specifier: &ProtocolCommunicationSpecifier) -> (r: Vec<
        ProtocolSpecializer,
    >)
        ensures
            specializers_found(self@, specifier@, specializers_view(r@)),
    {
        let user = specifier_lists_entries(&self.user_communication_specifiers);
        let mut specializers: Vec<ProtocolSpecializer> = Vec::new();
        collect_matching(
            user.as_slice(),
            self.protocols.as_slice(),
            specifier,
            &mut specializers,
        );
        collect_matching(
            self.base_communication_specifiers.as_slice(),
            self.protocols.as_slice(),
            specifier,
            &mut specializers,
        );
        assert(specializers_view(Seq::<ProtocolSpecializer>::empty()) =~= Seq::<SpecializerView>::empty());
        assert(assoc_map(entries_view(user@)) == self@.user_specifiers);
        specializers
    }

    /// The configuration's specifiers of each protocol.
    pub fn protocol_device_configurations(&self) -> (r: Vec<(String, Vec<ProtocolCommunicationSpecifier>)>)
        ensures
            entries_view(r@) == self@.base_specifiers,
    {
        clone_entries(self.base_communication_specifiers.as_slice())
    }

    /// The user's specifiers of each protocol.
    /// The map is handed out for reading: its `&self` methods could change it behind the
    /// manager's back, and the manager's contracts describe only the changes it makes itself.
    pub fn user_communication_specifiers(&self) -> (r: &DashMap<String, Vec<ProtocolCommunicationSpecifier>>)
        ensures
            specifier_lists_held(*r) == self@.user_specifiers,
    {
        &self.user_communication_specifiers
    }

    /// The definitions of the devices the user has configured or that have connected.
    /// The map is handed out for reading: its `&self` methods could change it behind the
    /// manager's back, and the manager's contracts describe only the changes it makes itself.
    pub fn user_device_definitions(&self) -> (r: &DashMap<UserDeviceIdentifier, UserDeviceDefinition>)
        ensures
            definitions_held(*r) == self@.user_definitions,
    {
        &self.user_device_definitions
    }

    /// Whether devices get raw access to their endpoints.
    pub fn allow_raw_messages(&self) -> (r: bool)
        ensures
            r == self@.allow_raw_messages,
    {
        self.allow_raw_messages
    }
}

} // verus!

verus! {

/// The model identifier `id` falls back to when its own model has no definition: the
/// protocol's default model.
pub open spec fn default_model_of(id: UserIdView) -> BaseIdView {
    BaseIdView { protocol: id.protocol, attributes_identifier: None }
}

/// The definition the manager finds for device `id`: the user's definition of the device, or
/// else one made from the definition of its model, or else one made from the definition of its
/// protocol's default model; made definitions take the device's index.
pub open spec fn found_definition(d: DcmView, id: UserIdView) -> Option<UserDefinitionView> {
    if d.user_definitions.dom().contains(id) {
        Some(d.user_definitions[id])
    } else if d.base_definitions.dom().contains(base_of(id)) {
        Some(
            definition_from_base(
                d.base_definitions[base_of(id)],
                spec_device_index(d.user_definitions, id),
            ),
        )
    } else if d.base_definitions.dom().contains(default_model_of(id)) {
        Some(
            definition_from_base(
                d.base_definitions[default_model_of(id)],
                spec_device_index(d.user_definitions, id),
            ),
        )
    } else {
        None
    }
}

/// What looking up device `id` gives and how it leaves the manager: a found definition is kept
/// as the device's definition, and is handed out with raw access to `raw` added when the manager
/// allows raw messages.
pub open spec fn spec_device_definition(d: DcmView, id: UserIdView, raw: Seq<Endpoint>) -> (
    Option<UserDefinitionView>,
    DcmView,
) {
    match found_definition(d, id) {
        Some(def) => (
            Some(
                if d.allow_raw_messages {
                    definition_with_raw(def, raw)
                } else {
                    def
                },
            ),
            DcmView { user_definitions: d.user_definitions.insert(id, def), ..d },
        ),
        None => (None, d),
    }
}

/// Abstract value of an optional device definition.
pub open spec fn opt_definition_view(o: Option<UserDeviceDefinition>) -> Option<UserDefinitionView> {
    match o {
        Some(d) => Some(d@),
        None => None,
    }
}

impl DeviceConfigurationManager {
    /// The index of device `identifier`: the one its definition keeps, or else the smallest
    /// index no device keeps.
    pub fn device_index(&self, identifier: &UserDeviceIdentifier) -> (r: u32)
        requires
            self.well_formed(),
            self@.user_definitions.dom().len() < u32::MAX,
        ensures
            r == spec_device_index(self@.user_definitions, identifier@),
    {
        match definitions_get(&self.user_device_definitions, identifier) {
            Some(def) => def.user_config().index(),
            None => self.free_index(),
        }
    }

    /// The definition of device `identifier` (see `spec_device_definition`). A definition made
    /// from a model's is kept as the device's own, so that the device keeps its index.
    pub fn device_definition(&mut self, identifier: &UserDeviceIdentifier, raw_endpoints: &[Endpoint]) -> (r:
        Option<UserDeviceDefinition>)
        requires
            old(self).well_formed(),
            old(self)@.user_definitions.dom().len() < u32::MAX,
        ensures
            final(self).well_formed(),
            opt_definition_view(r) == spec_device_definition(old(self)@, identifier@, raw_endpoints@).0,
            final(self)@ == spec_device_definition(old(self)@, identifier@, raw_endpoints@).1,
    {
        let ghost d = self@;
        let mut features = match definitions_get(&self.user_device_definitions, identifier) {
            Some(def) => {
                assert(d.user_definitions.insert(identifier@, d.user_definitions[identifier@]) =~= d.user_definitions);
                def
            },
            None => {
                let base_id = BaseDeviceIdentifier::from_user_identifier(identifier);
                let found = match assoc_find(self.base_device_definitions.as_slice(), &base_id) {
                    Some(j) => Some(j),
                    None => {
                        let default_id = BaseDeviceIdentifier::new(identifier.protocol().as_str(), &None);
                        assert(default_id@ == default_model_of(identifier@));
                        let f = assoc_find(self.base_device_definitions.as_slice(), &default_id);
                        proof {
                            if f is None {
                                assert(!d.base_definitions.dom().contains(default_model_of(identifier@)));
                            }
                        }
                        f
                    },
                };
                let j = match found {
                    Some(j) => j,
                    None => {
                        return None;
                    },
                };
                proof {
                    lemma_assoc_at(pairs_view(self.base_device_definitions@), j as int);
                }
                let index = self.device_index(identifier);
                let def = UserDeviceDefinition::new_from_base_definition(
                    &self.base_device_definitions[j].1,
                    index,
                );
                definitions_insert(&mut self.user_device_definitions, identifier.clone(), def.clone());
                def
            },
        };
        if self.allow_raw_messages {
            features.add_raw_messages(raw_endpoints);
        }
        Some(features)
    }
}

} // verus!

verus! {

/// Looking a device up again gives the same definition and changes nothing: a device keeps its
/// definition, and so its index, from one connection to the next.
pub proof fn lemma_device_definition_stable(d: DcmView, id: UserIdView, raw: Seq<Endpoint>)
    requires
        found_definition(d, id) is Some,
    ensures
        spec_device_definition(spec_device_definition(d, id, raw).1, id, raw) == spec_device_definition(
            d,
            id,
            raw,
        ),
{
    let def = found_definition(d, id)->Some_0;
    let d1 = spec_device_definition(d, id, raw).1;
    assert(found_definition(d1, id) == Some(def));
    assert(d1.user_definitions.insert(id, def) =~= d1.user_definitions);
    if d.user_definitions.dom().contains(id) {
        assert(d.user_definitions.insert(id, def) =~= d.user_definitions);
    }
}

/// A device that has no definition of its own gets the smallest index that no defined device
/// keeps.
pub proof fn lemma_new_device_gets_smallest_free_index(d: DcmView, id: UserIdView)
    requires
        !d.user_definitions.dom().contains(id),
        found_definition(d, id) is Some,
        d.user_definitions.dom().finite(),
        d.user_definitions.dom().len() < u32::MAX,
    ensures
        is_smallest_free(d.user_definitions, found_definition(d, id)->Some_0.user_config.index),
{
    lemma_smallest_free_exists(d.user_definitions);
}

/// Whether no two defined devices keep the same index.
pub open spec fn indexes_distinct(m: Map<UserIdView, UserDefinitionView>) -> bool {
    forall|a: UserIdView, b: UserIdView|
        #[trigger] m.dom().contains(a) && #[trigger] m.dom().contains(b) && a != b ==> m[a].user_config.index
            != m[b].user_config.index
}

/// Looking a device up keeps the indexes of the defined devices distinct.
pub proof fn lemma_device_definition_keeps_indexes_distinct(d: DcmView, id: UserIdView, raw: Seq<Endpoint>)
    requires
        indexes_distinct(d.user_definitions),
        d.user_definitions.dom().finite(),
        d.user_definitions.dom().len() < u32::MAX,
    ensures
        indexes_distinct(spec_device_definition(d, id, raw).1.user_definitions),
{
    let m = d.user_definitions;
    let m1 = spec_device_definition(d, id, raw).1.user_definitions;
    if found_definition(d, id) is Some {
        if m.dom().contains(id) {
            assert(m.insert(id, m[id]) =~= m);
        } else {
            lemma_smallest_free_exists(m);
            let i = found_definition(d, id)->Some_0.user_config.index;
            assert forall|a: UserIdView, b: UserIdView|
                #[trigger] m1.dom().contains(a) && #[trigger] m1.dom().contains(b) && a != b implies m1[a].user_config.index
                    != m1[b].user_config.index by {
                if a == id {
                    assert(m.dom().contains(b));
                    if m[b].user_config.index == i {
                        assert(index_used(m, i));
                    }
                } else if b == id {
                    assert(m.dom().contains(a));
                    if m[a].user_config.index == i {
                        assert(index_used(m, i));
                    }
                }
            }
        }
    }
}

/// A device whose address is on the deny list may not connect, whatever the allow list says.
pub proof fn lemma_denied_address_refused(m: Map<UserIdView, UserDefinitionView>, k: UserIdView)
    requires
        m.dom().contains(k),
        m[k].user_config.deny,
    ensures
        !spec_address_allowed(m, k.address),
{
}

/// When no device is on the allow list or the deny list, every device may connect.
pub proof fn lemma_address_allowed_without_lists(m: Map<UserIdView, UserDefinitionView>, address: Seq<char>)
    requires
        forall|k: UserIdView| #[trigger] m.dom().contains(k) ==> !m[k].user_config.allow && !m[k].user_config.deny,
    ensures
        spec_address_allowed(m, address),
{
}

} // verus!
