use std::collections::HashSet;
use vstd::prelude::*;

use crate::net::{lemma_key_injective, Endpoint, Ipv4Network};

verus! {

broadcast use vstd::std_specs::hash::group_hash_axioms;

/// What the filter decides on: the endpoints that packets are relayed to,
/// and the two network lists.
pub ghost struct FilterView {
    pub transmit_addresses: Set<Endpoint>,
    pub block_nets: Seq<Ipv4Network>,
    pub allow_nets: Seq<Ipv4Network>,
}

/// Whether some network of `nets` covers `ip`.
pub open spec fn covered_by_any(nets: Seq<Ipv4Network>, ip: u32) -> bool {
    exists|i: int| 0 <= i < nets.len() && #[trigger] nets[i].covers(ip)
}

/// The admission rule: never a relay destination itself, and either outside
/// every blocked network or inside an allowed one.
pub open spec fn admits(v: FilterView, a: Endpoint) -> bool {
    !v.transmit_addresses.contains(a) && (!covered_by_any(v.block_nets, a.ip) || covered_by_any(
        v.allow_nets,
        a.ip,
    ))
}

/// Decides whether a packet from a given source may be put on the bus.
pub struct AddressFilter {
    transmit_addresses_set: HashSet<u64>,
    block_nets: Vec<Ipv4Network>,
    allow_nets: Vec<Ipv4Network>,
}

impl View for AddressFilter {
    type V = FilterView;

    closed spec fn view(&self) -> FilterView {
        FilterView {
            transmit_addresses: Set::new(
                |e: Endpoint| self.transmit_addresses_set@.contains(e.key()),
            ),
            block_nets: self.block_nets@,
            allow_nets: self.allow_nets@,
        }
    }
}

/// Whether one of `nets` contains `ip`.
fn any_contains(nets: &Vec<Ipv4Network>, ip: u32) -> (r: bool)
    ensures
        r == covered_by_any(nets@, ip),
{
    let mut i: usize = 0;
    while i < nets.len()
        invariant
            0 <= i <= nets.len(),
            forall|j: int| 0 <= j < i ==> !(#[trigger] nets@[j].covers(ip)),
        decreases nets.len() - i,
    {
        if nets[i].contains(ip) {
            return true;
        }
        i += 1;
    }
    false
}

impl AddressFilter {
    /// A filter that refuses packets from any of `transmit_addresses` and
    /// applies the block and allow lists to the rest.
    pub fn new(
        transmit_addresses: &Vec<Endpoint>,
        block_nets: Vec<Ipv4Network>,
        allow_nets: Vec<Ipv4Network>,
    ) -> (r: AddressFilter)
        ensures
            r@.transmit_addresses == transmit_addresses@.to_set(),
            r@.block_nets == block_nets@,
            r@.allow_nets == allow_nets@,
    {
        let mut set: HashSet<u64> = HashSet::new();
        let mut i: usize = 0;
        while i < transmit_addresses.len()
            invariant
                0 <= i <= transmit_addresses.len(),
                forall|e: Endpoint| #[trigger]
                    set@.contains(e.key()) <==> exists|j: int|
                        0 <= j < i && transmit_addresses@[j] == e,
            decreases transmit_addresses.len() - i,
        {
            let ghost prev = set@;
            let k = transmit_addresses[i].to_key();
            set.insert(k);
            proof {
                let added = transmit_addresses@[i as int];
                assert forall|e: Endpoint| #[trigger]
                    set@.contains(e.key()) <==> exists|j: int|
                        0 <= j < i + 1 && transmit_addresses@[j] == e by {
                    lemma_key_injective(e, added);
                    if set@.contains(e.key()) && !prev.contains(e.key()) {
                        assert(transmit_addresses@[i as int] == e);
                    }
                    if exists|j: int| 0 <= j < i + 1 && transmit_addresses@[j] == e {
                        let j = choose|j: int| 0 <= j < i + 1 && transmit_addresses@[j] == e;
                        if j < i {
                            assert(prev.contains(e.key()));
                        }
                    }
                };
            }
            i += 1;
        }
        let r = AddressFilter { transmit_addresses_set: set, block_nets, allow_nets };
        proof {
            assert forall|e: Endpoint| r@.transmit_addresses.contains(e)
                <==> transmit_addresses@.to_set().contains(e) by {
                if transmit_addresses@.contains(e) {
                    let j = choose|j: int|
                        0 <= j < transmit_addresses@.len() && transmit_addresses@[j] == e;
                    assert(set@.contains(e.key()));
                }
            };
            assert(r@.transmit_addresses =~= transmit_addresses@.to_set());
        }
        r
    }

    /// Whether a packet whose source is `socket_addr` may be relayed.
    pub fn should_transmit(&self, socket_addr: &Endpoint) -> (r: bool)
        ensures
            r == admits(self@, *socket_addr),
    {
        let storm_check = self.transmit_addresses_set.contains(&socket_addr.to_key());
        let in_block_net = any_contains(&self.block_nets, socket_addr.ip);
        let in_allow_net = any_contains(&self.allow_nets, socket_addr.ip);
        !storm_check && (!in_block_net || in_allow_net)
    }
}

/// A packet whose source is one of the relay's own destinations is refused,
/// whatever the block and allow lists hold.
pub proof fn lemma_destination_refused(f: FilterView, a: Endpoint)
    requires
        f.transmit_addresses.contains(a),
    ensures
        !admits(f, a),
{
}

/// A source that is no destination and lies in no blocked network is admitted.
pub proof fn lemma_unblocked_admitted(f: FilterView, a: Endpoint)
    requires
        !f.transmit_addresses.contains(a),
        !covered_by_any(f.block_nets, a.ip),
    ensures
        admits(f, a),
{
}

/// An allowed network overrides a blocked one: a source that is no
/// destination and lies in both a blocked and an allowed network is admitted.
pub proof fn lemma_allow_overrides_block(f: FilterView, a: Endpoint)
    requires
        !f.transmit_addresses.contains(a),
        covered_by_any(f.block_nets, a.ip),
        covered_by_any(f.allow_nets, a.ip),
    ensures
        admits(f, a),
{
}

/// A source in a blocked network and in no allowed one is refused.
pub proof fn lemma_blocked_refused(f: FilterView, a: Endpoint)
    requires
        !f.transmit_addresses.contains(a),
        covered_by_any(f.block_nets, a.ip),
        !covered_by_any(f.allow_nets, a.ip),
    ensures
        !admits(f, a),
{
}

} // verus!
