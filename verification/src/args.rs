//! Building the argument lists of external commands.
use crate::ports::{port_list, sorted_ports};
use crate::sorted::StringMap;
use std::collections::BTreeSet;
use crate::text::{decimal, push_decimal, push_str};
use vstd::prelude::*;

verus! {

/// The views of a list of strings.
pub open spec fn strings(v: Seq<String>) -> Seq<Seq<char>> {
    v.map_values(|s: String| s@)
}

/// `[flag]` where `on`, and nothing otherwise.
pub open spec fn flag_arg(on: bool, flag: Seq<char>) -> Seq<Seq<char>> {
    if on {
        seq![flag]
    } else {
        Seq::empty()
    }
}

/// `[flag, value]` where there is a value, and nothing otherwise.
pub open spec fn option_arg(value: Option<Seq<char>>, flag: Seq<char>) -> Seq<Seq<char>> {
    match value {
        Some(v) => seq![flag, v],
        None => Seq::empty(),
    }
}

/// `[flag, "<key><sep><value>"]` for each entry, in order.
pub open spec fn entry_args(entries: Seq<(Seq<char>, Seq<char>)>, flag: Seq<char>, sep: Seq<char>) -> Seq<
    Seq<char>,
>
    decreases entries.len(),
{
    if entries.len() == 0 {
        Seq::empty()
    } else {
        entry_args(entries.drop_last(), flag, sep) + seq![flag, entries.last().0 + sep + entries.last().1]
    }
}

/// `["--publish", "127.0.0.1::<port>"]` for each port, in order.
pub open spec fn publish_args(ports: Seq<u16>) -> Seq<Seq<char>>
    decreases ports.len(),
{
    if ports.len() == 0 {
        Seq::empty()
    } else {
        publish_args(ports.drop_last()) + seq!["--publish"@, "127.0.0.1::"@ + decimal(ports.last() as nat)]
    }
}

/// Appends a copy of `s` to `v`.
pub fn push_string(v: &mut Vec<String>, s: &str)
    ensures
        strings(final(v)@) == strings(old(v)@).push(s@),
{
    v.push(s.to_owned());
    assert(strings(v@) =~= strings(old(v)@).push(s@));
}

/// Appends `flag` where `on`.
pub fn push_flag(v: &mut Vec<String>, on: bool, flag: &str)
    ensures
        strings(final(v)@) == strings(old(v)@) + flag_arg(on, flag@),
{
    if on {
        push_string(v, flag);
    }
    assert(strings(v@) =~= strings(old(v)@) + flag_arg(on, flag@));
}

/// Appends `flag` and the value, where there is one.
pub fn push_option(v: &mut Vec<String>, value: &Option<String>, flag: &str)
    ensures
        strings(final(v)@) == strings(old(v)@) + option_arg(
            match value {
                Some(x) => Some(x@),
                None => None,
            },
            flag@,
        ),
{
    match value {
        Some(x) => {
            push_string(v, flag);
            push_string(v, x.as_str());
        },
        None => {},
    }
    assert(strings(v@) =~= strings(old(v)@) + option_arg(
        match value {
            Some(x) => Some(x@),
            None => None,
        },
        flag@,
    ));
}

/// Appends each string of `items`.
pub fn push_all(v: &mut Vec<String>, items: &Vec<String>)
    ensures
        strings(final(v)@) == strings(old(v)@) + strings(items@),
{
    let ghost start = strings(v@);
    let mut i: usize = 0;
    while i < items.len()
        invariant
            0 <= i <= items@.len(),
            strings(v@) == start + strings(items@).take(i as int),
        decreases items@.len() - i,
    {
        push_string(v, items[i].as_str());
        assert(strings(items@).take(i + 1) =~= strings(items@).take(i as int).push(items@[i as int]@));
        i += 1;
    }
    assert(strings(items@).take(items@.len() as int) =~= strings(items@));
}

/// Appends `flag` and `"<key><sep><value>"` for each entry of the map, by increasing key.
pub fn push_entries(v: &mut Vec<String>, map: &StringMap, flag: &str, sep: &str)
    ensures
        strings(final(v)@) == strings(old(v)@) + entry_args(map@, flag@, sep@),
{
    let ghost start = strings(v@);
    let n = map.len();
    let mut i: usize = 0;
    while i < n
        invariant
            0 <= i <= n,
            n == map@.len(),
            strings(v@) == start + entry_args(map@.take(i as int), flag@, sep@),
        decreases n - i,
    {
        let (key, value) = map.entry(i);
        let mut pair = String::new();
        push_str(&mut pair, key);
        push_str(&mut pair, sep);
        push_str(&mut pair, value);
        push_string(v, flag);
        push_string(v, pair.as_str());
        proof {
            assert(map@.take(i + 1).drop_last() =~= map@.take(i as int));
            assert(map@.take(i + 1).last() == map@[i as int]);
        }
        i += 1;
    }
    assert(map@.take(n as int) =~= map@);
}

/// Appends `"--publish"` and `"127.0.0.1::<port>"` for each port, in increasing order.
pub fn push_publish(v: &mut Vec<String>, ports: &BTreeSet<u16>)
    ensures
        strings(final(v)@) == strings(old(v)@) + publish_args(sorted_ports(ports@)),
{
    let ghost start = strings(v@);
    let list = port_list(ports);
    let n = list.len();
    let mut i: usize = 0;
    while i < n
        invariant
            0 <= i <= n,
            n == list@.len(),
            list@ == sorted_ports(ports@),
            strings(v@) == start + publish_args(list@.take(i as int)),
        decreases n - i,
    {
        let port = list[i];
        let mut address = String::new();
        push_str(&mut address, "127.0.0.1::");
        push_decimal(&mut address, port as u64);
        push_string(v, "--publish");
        push_string(v, address.as_str());
        proof {
            assert(list@.take(i + 1).drop_last() =~= list@.take(i as int));
            assert(list@.take(i + 1).last() == list@[i as int]);
        }
        i += 1;
    }
    assert(list@.take(n as int) =~= list@);
}

/// The strings of a list of string slices.
pub fn to_strings(items: &[&str]) -> (r: Vec<String>)
    ensures
        strings(r@) == items@.map_values(|s: &str| s@),
{
    let mut r: Vec<String> = Vec::new();
    let mut i: usize = 0;
    while i < items.len()
        invariant
            0 <= i <= items@.len(),
            strings(r@) == items@.map_values(|s: &str| s@).take(i as int),
        decreases items@.len() - i,
    {
        push_string(&mut r, items[i]);
        assert(items@.map_values(|s: &str| s@).take(i + 1) =~= items@.map_values(|s: &str| s@).take(
            i as int,
        ).push(items@[i as int]@));
        i += 1;
    }
    assert(items@.map_values(|s: &str| s@).take(items@.len() as int) =~= items@.map_values(
        |s: &str| s@,
    ));
    r
}

} // verus!
