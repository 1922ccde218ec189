//! Toys reached through the Lovense Connect app: where the app listens, which toys it reports,
//! and what a toy's status poll means.
use vstd::prelude::*;
use vstd::string::StringExecFns;
use crate::hardware::HardwareReading;
use crate::messages::Endpoint;
use crate::concurrent::{
    string_set_insert, string_set_is_empty, string_set_items, string_set_new, string_set_remove, strings_held,
};
use crate::text::{decimal, decimal_string, string_chars, string_from_chars, strings_view, utf8_text};
use dashmap::DashSet;

verus! {

/// The text of a domain name before its first dot (all of it when it has none).
pub open spec fn first_label(s: Seq<char>) -> Seq<char>
    decreases s.len(),
{
    if s.len() == 0 {
        s
    } else if s[0] == '.' {
        Seq::empty()
    } else {
        seq![s[0]] + first_label(s.drop_first())
    }
}

/// The text with each dash replaced by a dot.
pub open spec fn dashes_to_dots(s: Seq<char>) -> Seq<char> {
    s.map_values(|c: char| if c == '-' { '.' } else { c })
}

/// The address of the Lovense Connect app reported under `domain` with HTTP port `http_port`:
/// the app reports a domain such as `192-168-0-1.lovense.club`; its first label, with dashes
/// read as dots, is the app's IP address, which is used directly.
pub open spec fn spec_connect_host(domain: Seq<char>, http_port: u16) -> Seq<char> {
    "http://"@ + dashes_to_dots(first_label(domain)) + ":"@ + decimal(http_port as nat)
}

/// The address of the Lovense Connect app (see `spec_connect_host`).
pub fn lovense_connect_host(domain: &str, http_port: u16) -> (r: String)
    ensures
        r@ == spec_connect_host(domain@, http_port),
{
    let chars = string_chars(domain);
    let mut ip: Vec<char> = Vec::new();
    let mut i: usize = 0;
    assert(chars@.subrange(0, chars@.len() as int) =~= chars@);
    assert(chars@.subrange(0, 0) + first_label(chars@.subrange(0, chars@.len() as int)) =~= first_label(domain@));
    assert(ip@ =~= dashes_to_dots(chars@.subrange(0, 0)));
    while i < chars.len() && chars[i] != '.'
        invariant
            i <= chars@.len(),
            chars@ == domain@,
            forall|t: int| 0 <= t < i ==> chars@[t] != '.',
            ip@ == dashes_to_dots(chars@.subrange(0, i as int)),
            first_label(domain@) == chars@.subrange(0, i as int) + first_label(chars@.subrange(i as int, chars@.len() as int)),
        decreases chars@.len() - i,
    {
        let c = chars[i];
        ip.push(if c == '-' { '.' } else { c });
        proof {
            let rest = chars@.subrange(i as int, chars@.len() as int);
            assert(rest.drop_first() =~= chars@.subrange(i + 1, chars@.len() as int));
            assert(rest[0] == c);
            assert(chars@.subrange(0, i + 1) =~= chars@.subrange(0, i as int) + seq![c]);
            assert(ip@ =~= dashes_to_dots(chars@.subrange(0, i + 1)));
            assert(first_label(rest) == seq![c] + first_label(rest.drop_first()));
            assert(chars@.subrange(0, i as int) + first_label(rest) =~= chars@.subrange(0, i + 1)
                + first_label(chars@.subrange(i + 1, chars@.len() as int)));
        }
        i = i + 1;
    }
    proof {
        let rest = chars@.subrange(i as int, chars@.len() as int);
        if i < chars@.len() {
            assert(rest[0] == '.');
        } else {
            assert(rest.len() == 0);
        }
        assert(first_label(rest) =~= Seq::<char>::empty());
        assert(first_label(domain@) =~= chars@.subrange(0, i as int));
    }
    let mut s = String::from_str("http://");
    let ip_text = string_from_chars(ip.as_slice());
    s.append(ip_text.as_str());
    s.append(":");
    s.append(decimal_string(http_port as u64).as_str());
    s
}

/// A toy the Lovense Connect app reports.
#[derive(Debug)]
pub struct LovenseServiceToyInfo {
    pub id: String,
    pub name: String,
    pub connected: bool,
    pub battery: i8,
}

/// The toys to announce: those the app reports as connected, as (name, address) pairs in
/// order, the address being the toy's id.
pub open spec fn connected_toys_spec(toys: Seq<LovenseServiceToyInfo>) -> Seq<(Seq<char>, Seq<char>)>
    decreases toys.len(),
{
    if toys.len() == 0 {
        Seq::empty()
    } else {
        let prev = connected_toys_spec(toys.drop_last());
        if toys.last().connected {
            prev.push((toys.last().name@, toys.last().id@))
        } else {
            prev
        }
    }
}

/// The toys to announce (see `connected_toys_spec`).
pub fn connected_toys(toys: &[LovenseServiceToyInfo]) -> (r: Vec<(String, String)>)
    ensures
        r@.len() == connected_toys_spec(toys@).len(),
        forall|k: int| 0 <= k < r@.len() ==> (#[trigger] r@[k].0@, r@[k].1@) == connected_toys_spec(toys@)[k],
{
    let mut out: Vec<(String, String)> = Vec::new();
    let mut i: usize = 0;
    while i < toys.len()
        invariant
            i <= toys@.len(),
            out@.len() == connected_toys_spec(toys@.subrange(0, i as int)).len(),
            forall|k: int|
                0 <= k < out@.len() ==> (#[trigger] out@[k].0@, out@[k].1@) == connected_toys_spec(
                    toys@.subrange(0, i as int),
                )[k],
        decreases toys@.len() - i,
    {
        assert(toys@.subrange(0, i + 1).drop_last() =~= toys@.subrange(0, i as int));
        assert(toys@.subrange(0, i + 1).last() == toys@[i as int]);
        if toys[i].connected {
            out.push((toys[i].name.clone(), toys[i].id.clone()));
        }
        i = i + 1;
    }
    assert(toys@.subrange(0, toys@.len() as int) =~= toys@);
    out
}

/// What a status poll says of a toy.
#[derive(Debug, Clone, Copy, PartialEq, Eq, Structural)]
pub enum ToyStatus {
    /// The poll does not mention the toy; nothing changes.
    Unchanged,
    /// The toy is connected, with this battery level.
    Battery(u8),
    /// The toy or the app has gone away.
    Disconnected,
}

/// A battery level clamped to 0..=100.
pub open spec fn clamped_battery(b: i8) -> u8 {
    if b < 0 {
        0
    } else if b > 100 {
        100
    } else {
        b as u8
    }
}

/// What the toys listed by a poll say of toy `toy_id`: the first toy with that id decides, by
/// whether it is still connected and by its battery level; a list without it changes nothing.
pub open spec fn listed_toy_status(toys: Seq<LovenseServiceToyInfo>, toy_id: Seq<char>) -> ToyStatus
    decreases toys.len(),
{
    if toys.len() == 0 {
        ToyStatus::Unchanged
    } else if toys[0].id@ == toy_id {
        if toys[0].connected {
            ToyStatus::Battery(clamped_battery(toys[0].battery))
        } else {
            ToyStatus::Disconnected
        }
    } else {
        listed_toy_status(toys.drop_first(), toy_id)
    }
}

/// What a status poll says of toy `toy_id`: a failed poll means the app has gone away; else see
/// `listed_toy_status`.
pub open spec fn spec_toy_status(toy_id: Seq<char>, poll: Option<Seq<LovenseServiceToyInfo>>) -> ToyStatus {
    match poll {
        None => ToyStatus::Disconnected,
        Some(toys) => listed_toy_status(toys, toy_id),
    }
}

fn listed_status(toys: &[LovenseServiceToyInfo], toy_id: &str) -> (r: ToyStatus)
    ensures
        r == listed_toy_status(toys@, toy_id@),
{
    let id = toy_id.to_owned();
    let mut i: usize = 0;
    assert(toys@.subrange(0, toys@.len() as int) =~= toys@);
    while i < toys.len()
        invariant
            i <= toys@.len(),
            id@ == toy_id@,
            listed_toy_status(toys@, toy_id@) == listed_toy_status(
                toys@.subrange(i as int, toys@.len() as int),
                toy_id@,
            ),
        decreases toys@.len() - i,
    {
        let ghost rest = toys@.subrange(i as int, toys@.len() as int);
        assert(rest[0] == toys@[i as int]);
        if toys[i].id == id {
            if !toys[i].connected {
                return ToyStatus::Disconnected;
            }
            let b = toys[i].battery;
            let level: u8 = if b < 0 {
                0
            } else if b > 100 {
                100
            } else {
                b as u8
            };
            return ToyStatus::Battery(level);
        }
        assert(rest.drop_first() =~= toys@.subrange(i + 1, toys@.len() as int));
        i = i + 1;
    }
    ToyStatus::Unchanged
}

/// What a status poll says of toy `toy_id` (see `spec_toy_status`).
pub fn toy_status(toy_id: &str, poll: Option<&[LovenseServiceToyInfo]>) -> (r: ToyStatus)
    ensures
        r == spec_toy_status(
            toy_id@,
            match poll {
                Some(t) => Some(t@),
                None => None,
            },
        ),
{
    match poll {
        None => ToyStatus::Disconnected,
        Some(toys) => listed_status(toys, toy_id),
    }
}

/// The battery reading of a toy behind the app: its last known level as one byte on `Rx`.
pub fn battery_reading(level: u8) -> (r: HardwareReading)
    ensures
        r@ == (Endpoint::Rx, seq![level]),
{
    let data: [u8; 1] = [level];
    let r = HardwareReading::new(Endpoint::Rx, &data);
    assert(data@ =~= seq![level]);
    r
}

/// The request that carries a write to a toy behind the app: the app's address, a slash, and
/// the written bytes as text.
pub fn command_url(host: &str, data: &[u8]) -> (r: String)
    requires
        vstd::utf8::valid_utf8(data@),
    ensures
        r@ == host@ + "/"@ + vstd::utf8::decode_utf8(data@),
{
    let text = match utf8_text(data) {
        Some(t) => t,
        None => {
            assert(false);
            String::new()
        },
    };
    let mut s = host.to_owned();
    s.append("/");
    s.append(text.as_str());
    s
}

/// The addresses of the Lovense Connect apps known so far.
#[derive(Debug)]
pub struct KnownHosts {
    hosts: DashSet<String>,
}

impl View for KnownHosts {
    type V = Set<Seq<char>>;

    closed spec fn view(&self) -> Set<Seq<char>> {
        strings_held(self.hosts)
    }
}

impl KnownHosts {
    pub fn new() -> (r: Self)
        ensures
            r@ == Set::<Seq<char>>::empty(),
    {
        KnownHosts { hosts: string_set_new() }
    }

    pub fn is_empty(&self) -> (r: bool)
        ensures
            r == (self@ == Set::<Seq<char>>::empty()),
    {
        string_set_is_empty(&self.hosts)
    }

    pub fn insert(&mut self, host: String)
        ensures
            final(self)@ == old(self)@.insert(host@),
    {
        let _ = string_set_insert(&mut self.hosts, host);
    }

    /// Forgets an app that no longer answers.
    pub fn remove(&mut self, host: &str)
        ensures
            final(self)@ == old(self)@.remove(host@),
    {
        let _ = string_set_remove(&mut self.hosts, host);
    }

    /// The known addresses, each once.
    pub fn hosts(&self) -> (r: Vec<String>)
        ensures
            strings_view(r@).to_set() == self@,
            strings_view(r@).no_duplicates(),
    {
        string_set_items(&self.hosts)
    }
}

} // verus!
