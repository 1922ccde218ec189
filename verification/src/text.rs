//! Character-level helpers on strings: conversion to and from character vectors, prefix and
//! suffix tests, and decimal rendering of numbers.
use vstd::prelude::*;
use vstd::string::StrSliceExecFns;

verus! {

/// The characters of a string, in order.
pub fn string_chars(s: &str) -> (v: Vec<char>)
    ensures
        v@ == s@,
{
    let n = s.unicode_len();
    let mut v: Vec<char> = Vec::new();
    let mut i: usize = 0;
    while i < n
        invariant
            n == s@.len(),
            i <= n,
            v@ == s@.subrange(0, i as int),
        decreases n - i,
    {
        v.push(s.get_char(i));
        i = i + 1;
    }
    assert(v@ =~= s@);
    v
}

/// The text that `bytes` encode in UTF-8, or `None` when they are not valid UTF-8 (std's
/// `str::from_utf8`, which returns an error exactly for invalid UTF-8).
#[verifier::external_body]
pub(crate) fn utf8_text(bytes: &[u8]) -> (r: Option<String>)
    ensures
        match r {
            Some(s) => vstd::utf8::valid_utf8(bytes@) && s@ == vstd::utf8::decode_utf8(bytes@),
            None => !vstd::utf8::valid_utf8(bytes@),
        },
{
    match std::str::from_utf8(bytes) {
        Ok(s) => Some(s.to_owned()),
        Err(_) => None,
    }
}

/// The string made of the given characters, in order (std's `String::from_iter` over chars).
#[verifier::external_body]
pub(crate) fn string_from_chars(chars: &[char]) -> (s: String)
    ensures
        s@ == chars@,
{
    String::from_iter(chars.iter())
}

} // verus!

verus! {

/// Abstract values of a list of strings.
pub open spec fn strings_view(s: Seq<String>) -> Seq<Seq<char>> {
    s.map_values(|x: String| x@)
}

/// Copies a list of strings.
pub fn clone_strings(v: &[String]) -> (r: Vec<String>)
    ensures
        strings_view(r@) == strings_view(v@),
{
    let mut r: Vec<String> = Vec::new();
    let mut i: usize = 0;
    while i < v.len()
        invariant
            i <= v@.len(),
            r@.len() == i,
            forall|j: int| 0 <= j < i ==> #[trigger] r@[j]@ == v@[j]@,
        decreases v@.len() - i,
    {
        r.push(v[i].clone());
        i = i + 1;
    }
    assert(strings_view(r@) =~= strings_view(v@));
    r
}

/// Whether the list holds a string equal to `s`.
pub fn contains_string(v: &[String], s: &String) -> (r: bool)
    ensures
        r == strings_view(v@).contains(s@),
{
    let mut i: usize = 0;
    while i < v.len()
        invariant
            i <= v@.len(),
            forall|j: int| 0 <= j < i ==> v@[j]@ != s@,
        decreases v@.len() - i,
    {
        if v[i] == *s {
            assert(strings_view(v@)[i as int] == s@);
            return true;
        }
        i = i + 1;
    }
    assert(!strings_view(v@).contains(s@)) by {
        if strings_view(v@).contains(s@) {
            let j = choose|j: int| 0 <= j < strings_view(v@).len() && strings_view(v@)[j] == s@;
            assert(v@[j]@ == s@);
        }
    }
    false
}

/// Adds `s` to the list unless an equal string is already there; a list without repetitions
/// stays so.
pub fn insert_string(v: &mut Vec<String>, s: String)
    ensures
        strings_view(old(v)@).no_duplicates() ==> strings_view(final(v)@).no_duplicates(),
        strings_view(final(v)@).to_set() == strings_view(old(v)@).to_set().insert(s@),
{
    let ghost before = strings_view(v@);
    if !contains_string(v.as_slice(), &s) {
        v.push(s);
        proof {
            assert(strings_view(v@) =~= before.push(s@));
            assert(strings_view(v@).to_set() =~= before.to_set().insert(s@)) by {
                assert forall|x: Seq<char>| strings_view(v@).to_set().contains(x) <==> before.to_set().insert(
                    s@,
                ).contains(x) by {
                    if x == s@ {
                        assert(strings_view(v@)[before.len() as int] == s@);
                    } else if before.contains(x) {
                        let j = choose|j: int| 0 <= j < before.len() && before[j] == x;
                        assert(strings_view(v@)[j] == x);
                    } else if strings_view(v@).contains(x) {
                        let j = choose|j: int|
                            0 <= j < strings_view(v@).len() && strings_view(v@)[j] == x;
                        if j < before.len() {
                            assert(before[j] == x);
                        }
                    }
                }
            }
        }
    } else {
        proof {
            assert(before.to_set().insert(s@) =~= before.to_set());
        }
    }
}

/// The strings of `v` without repetitions, as a set equal to that of `v`.
pub fn dedup_strings(v: &[String]) -> (r: Vec<String>)
    ensures
        strings_view(r@).no_duplicates(),
        strings_view(r@).to_set() == strings_view(v@).to_set(),
{
    let mut r: Vec<String> = Vec::new();
    let mut i: usize = 0;
    proof {
        assert(strings_view(r@).to_set() =~= strings_view(v@.subrange(0, 0)).to_set());
    }
    while i < v.len()
        invariant
            i <= v@.len(),
            strings_view(r@).no_duplicates(),
            strings_view(r@).to_set() == strings_view(v@.subrange(0, i as int)).to_set(),
        decreases v@.len() - i,
    {
        insert_string(&mut r, v[i].clone());
        proof {
            assert(strings_view(v@.subrange(0, i + 1)) =~= strings_view(v@.subrange(0, i as int)).push(
                v@[i as int]@,
            ));
            strings_view(v@.subrange(0, i as int)).lemma_push_to_set_commute(v@[i as int]@);
        }
        i = i + 1;
    }
    assert(v@.subrange(0, v@.len() as int) =~= v@);
    r
}

} // verus!

verus! {

/// Whether `p` is a prefix of `s`.
pub open spec fn is_prefix(p: Seq<char>, s: Seq<char>) -> bool {
    p.len() <= s.len() && s.subrange(0, p.len() as int) == p
}

/// Whether the first `plen` characters of `p` are a prefix of `s`.
pub fn chars_prefix(p: &[char], plen: usize, s: &[char]) -> (r: bool)
    requires
        plen <= p@.len(),
    ensures
        r == is_prefix(p@.subrange(0, plen as int), s@),
{
    if plen > s.len() {
        return false;
    }
    let mut i: usize = 0;
    while i < plen
        invariant
            plen <= p@.len(),
            plen <= s@.len(),
            i <= plen,
            forall|t: int| 0 <= t < i ==> s@[t] == p@[t],
        decreases plen - i,
    {
        if s[i] != p[i] {
            assert(s@.subrange(0, plen as int)[i as int] != p@.subrange(0, plen as int)[i as int]);
            return false;
        }
        i = i + 1;
    }
    assert(s@.subrange(0, plen as int) =~= p@.subrange(0, plen as int));
    true
}

/// Whether `s` starts with `prefix`.
pub fn str_starts_with(s: &str, prefix: &str) -> (r: bool)
    ensures
        r == is_prefix(prefix@, s@),
{
    let sc = string_chars(s);
    let pc = string_chars(prefix);
    let r = chars_prefix(pc.as_slice(), pc.len(), sc.as_slice());
    assert(pc@.subrange(0, pc@.len() as int) =~= pc@);
    r
}

/// Whether the list holds `x`.
pub fn contains_u128(v: &[u128], x: u128) -> (r: bool)
    ensures
        r == v@.contains(x),
{
    let mut i: usize = 0;
    while i < v.len()
        invariant
            i <= v@.len(),
            forall|j: int| 0 <= j < i ==> v@[j] != x,
        decreases v@.len() - i,
    {
        if v[i] == x {
            assert(v@[i as int] == x);
            return true;
        }
        i = i + 1;
    }
    false
}

/// Adds `x` to a duplicate-free list unless it is already there.
pub fn insert_u128(v: &mut Vec<u128>, x: u128)
    requires
        old(v)@.no_duplicates(),
    ensures
        final(v)@.no_duplicates(),
        final(v)@.to_set() == old(v)@.to_set().insert(x),
{
    if !contains_u128(v.as_slice(), x) {
        proof {
            old(v)@.lemma_push_to_set_commute(x);
        }
        v.push(x);
    } else {
        proof {
            assert(old(v)@.to_set().insert(x) =~= old(v)@.to_set());
        }
    }
}

/// The values of `v` without repetitions, as a set equal to that of `v`.
pub fn dedup_u128(v: &[u128]) -> (r: Vec<u128>)
    ensures
        r@.no_duplicates(),
        r@.to_set() == v@.to_set(),
{
    let mut r: Vec<u128> = Vec::new();
    let mut i: usize = 0;
    proof {
        assert(r@.to_set() =~= v@.subrange(0, 0).to_set());
    }
    while i < v.len()
        invariant
            i <= v@.len(),
            r@.no_duplicates(),
            r@.to_set() == v@.subrange(0, i as int).to_set(),
        decreases v@.len() - i,
    {
        insert_u128(&mut r, v[i]);
        proof {
            assert(v@.subrange(0, i + 1) =~= v@.subrange(0, i as int).push(v@[i as int]));
            v@.subrange(0, i as int).lemma_push_to_set_commute(v@[i as int]);
        }
        i = i + 1;
    }
    assert(v@.subrange(0, v@.len() as int) =~= v@);
    r
}

} // verus!

verus! {

/// The character of decimal digit `d`.
pub open spec fn digit_char(d: nat) -> char {
    ((48 + d) as u32) as char
}

/// The decimal representation of `n`, without leading zeros.
pub open spec fn decimal(n: nat) -> Seq<char>
    decreases n,
{
    if n < 10 {
        seq![digit_char(n)]
    } else {
        decimal(n / 10).push(digit_char(n % 10))
    }
}

fn digit(d: u64) -> (c: char)
    requires
        d < 10,
    ensures
        c == digit_char(d as nat),
{
    match d {
        0 => '0',
        1 => '1',
        2 => '2',
        3 => '3',
        4 => '4',
        5 => '5',
        6 => '6',
        7 => '7',
        8 => '8',
        _ => '9',
    }
}

fn push_decimal(v: &mut Vec<char>, n: u64)
    ensures
        final(v)@ == old(v)@ + decimal(n as nat),
    decreases n,
{
    if n >= 10 {
        push_decimal(v, n / 10);
    }
    v.push(digit(n % 10));
    assert(v@ =~= old(v)@ + decimal(n as nat));
}

/// The decimal representation of `n`.
pub fn decimal_string(n: u64) -> (r: String)
    ensures
        r@ == decimal(n as nat),
{
    let mut v: Vec<char> = Vec::new();
    push_decimal(&mut v, n);
    assert(v@ =~= decimal(n as nat));
    string_from_chars(v.as_slice())
}

/// Whether `needle` occurs in `hay`.
pub open spec fn contains_seq(hay: Seq<char>, needle: Seq<char>) -> bool {
    exists|k: int| 0 <= k && k + needle.len() <= hay.len() && #[trigger] hay.subrange(k, k + needle.len()) == needle
}

fn chars_match_at(hay: &[char], k: usize, needle: &[char]) -> (r: bool)
    requires
        k <= hay@.len(),
    ensures
        r == (k + needle@.len() <= hay@.len() && hay@.subrange(k as int, k + needle@.len())
            == needle@),
{
    if needle.len() > hay.len() - k {
        return false;
    }
    let hl = hay.len();
    let mut j: usize = 0;
    while j < needle.len()
        invariant
            hl == hay@.len(),
            k + needle@.len() <= hay@.len(),
            j <= needle@.len(),
            forall|t: int| 0 <= t < j ==> hay@[k + t] == needle@[t],
        decreases needle@.len() - j,
    {
        assert(k + j < hay@.len());
        if hay[k + j] != needle[j] {
            assert(hay@.subrange(k as int, k + needle@.len())[j as int] != needle@[j as int]);
            return false;
        }
        j = j + 1;
    }
    assert(hay@.subrange(k as int, k + needle@.len()) =~= needle@);
    true
}

/// Whether `needle` occurs in `hay`.
pub fn str_contains(hay: &str, needle: &str) -> (r: bool)
    ensures
        r == contains_seq(hay@, needle@),
{
    let h = string_chars(hay);
    let n = string_chars(needle);
    if n.len() == 0 {
        assert(hay@.subrange(0int, 0int + needle@.len()) =~= needle@);
        return true;
    }
    let mut k: usize = 0;
    while k < h.len()
        invariant
            h@ == hay@,
            n@ == needle@,
            n@.len() > 0,
            k <= h@.len(),
            forall|j: int|
                0 <= j < k ==> !(j + n@.len() <= h@.len() && #[trigger] h@.subrange(j, j + n@.len()) == n@),
        decreases h@.len() - k,
    {
        if chars_match_at(h.as_slice(), k, n.as_slice()) {
            return true;
        }
        k = k + 1;
    }
    false
}

} // verus!
