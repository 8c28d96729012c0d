//! Sets of ports, held in a `BTreeSet`, and the increasing list of the ports a set holds.
use crate::sorted::{increasing, lemma_increasing_unique};
use std::collections::BTreeSet;
use vstd::prelude::*;
use vstd::std_specs::cmp::OrdSpec;
use vstd::std_specs::iter::IteratorSpec;

verus! {

broadcast use {vstd::std_specs::btree::group_btree_axioms, vstd::laws_cmp::group_laws_cmp};

/// The ports of a set, in increasing order.
pub open spec fn sorted_ports(s: Set<u16>) -> Seq<u16> {
    choose|q: Seq<u16>| increasing(q) && q.to_set() == s
}

/// A sequence of port references that a `BTreeSet` lists in increasing order holds
/// increasing ports.
proof fn lemma_increasing_refs(q: Seq<&u16>)
    requires
        vstd::std_specs::btree::increasing_seq(q),
    ensures
        forall|i: int, j: int| 0 <= i < j < q.len() ==> *q[i] < *q[j],
{
    assert(vstd::laws_cmp::obeys_cmp::<&u16>());
    assert(vstd::laws_cmp::obeys_cmp::<u16>());
    vstd::std_specs::btree::axiom_increasing_seq_meaning(q);
    assert forall|i: int, j: int| 0 <= i < j < q.len() implies *q[i] < *q[j] by {
        assert((&q[i]).cmp_spec(&&q[j]) is Less);
        assert((*q[i]).cmp_spec(&*q[j]) is Less);
    }
}

/// The ports of a set, in increasing order.
pub fn port_list(ports: &BTreeSet<u16>) -> (r: Vec<u16>)
    ensures
        r@ == sorted_ports(ports@),
        increasing(r@),
        r@.to_set() == ports@,
{
    let mut r: Vec<u16> = Vec::new();
    for p in it: ports.iter()
        invariant
            r@ == it.seq().take(it.index() as int).map_values(|x: &u16| *x),
            it.seq() == vstd::std_specs::btree::spec_btree_keys_iter(ports).remaining(),
    {
        r.push(*p);
    }
    proof {
        let q = vstd::std_specs::btree::spec_btree_keys_iter(ports).remaining();
        assert(r@ =~= q.map_values(|x: &u16| *x));
        assert(q.unref() =~= q.map_values(|x: &u16| *x));
        lemma_increasing_refs(q);
        assert(increasing(r@));
        let c = sorted_ports(ports@);
        assert(increasing(r@) && r@.to_set() == ports@);
        lemma_increasing_unique(c, r@);
    }
    r
}

/// Adds a port to a set.
pub fn insert_port(ports: &mut BTreeSet<u16>, port: u16)
    ensures
        final(ports)@ == old(ports)@.insert(port),
{
    ports.insert(port);
}

/// Adding a port that a set already holds leaves the set as it is.
pub proof fn lemma_insert_port_twice(ports: Set<u16>, port: u16)
    ensures
        ports.insert(port).insert(port) == ports.insert(port),
{
    assert(ports.insert(port).insert(port) =~= ports.insert(port));
}

} // verus!
