use vstd::prelude::*;

use crate::net::Endpoint;

verus! {

/// One address configured on an interface.
#[derive(Clone, Copy, Debug, PartialEq, Eq, Structural)]
pub enum InterfaceAddr {
    V4(u32),
    V6,
}

/// A network interface as the host reports it: its name and its addresses.
#[derive(Debug)]
pub struct Interface {
    pub name: String,
    pub addr: Vec<InterfaceAddr>,
}

/// The addresses of the interface named `name`. Where several entries carry
/// that name the last one counts, as when the list is collected into a map.
pub open spec fn lookup(table: Seq<Interface>, name: Seq<char>) -> Option<Seq<InterfaceAddr>>
    decreases table.len(),
{
    if table.len() == 0 {
        None
    } else if table.last().name@ == name {
        Some(table.last().addr@)
    } else {
        lookup(table.drop_last(), name)
    }
}

/// The IPv4 addresses among `addrs`, in order, each with `port`.
pub open spec fn v4_endpoints(addrs: Seq<InterfaceAddr>, port: u16) -> Seq<Endpoint>
    decreases addrs.len(),
{
    if addrs.len() == 0 {
        Seq::empty()
    } else {
        v4_endpoints(addrs.drop_last(), port) + match addrs.last() {
            InterfaceAddr::V4(ip) => seq![Endpoint { ip, port }],
            InterfaceAddr::V6 => Seq::empty(),
        }
    }
}

/// The endpoints on `port` of the named interfaces, name by name; a name
/// that no interface carries adds nothing.
pub open spec fn endpoints_of(names: Seq<String>, table: Seq<Interface>, port: u16) -> Seq<
    Endpoint,
>
    decreases names.len(),
{
    if names.len() == 0 {
        Seq::empty()
    } else {
        endpoints_of(names.drop_last(), table, port) + match lookup(table, names.last()@) {
            Some(addrs) => v4_endpoints(addrs, port),
            None => Seq::empty(),
        }
    }
}

/// The endpoints of the named interfaces on each of `ports` in turn.
pub open spec fn destinations_of(names: Seq<String>, table: Seq<Interface>, ports: Seq<u16>) -> Seq<
    Endpoint,
>
    decreases ports.len(),
{
    if ports.len() == 0 {
        Seq::empty()
    } else {
        destinations_of(names, table, ports.drop_last()) + endpoints_of(names, table, ports.last())
    }
}

/// The index of the last interface named `name`.
fn find_interface(table: &Vec<Interface>, name: &String) -> (r: Option<usize>)
    ensures
        match r {
            Some(k) => k < table@.len() && lookup(table@, name@) == Some(table@[k as int].addr@),
            None => lookup(table@, name@) is None,
        },
{
    let mut j: usize = table.len();
    assert(table@.subrange(0, j as int) =~= table@);
    while j > 0
        invariant
            j <= table@.len(),
            lookup(table@.subrange(0, j as int), name@) == lookup(table@, name@),
        decreases j,
    {
        let ghost head = table@.subrange(0, j as int);
        assert(head.drop_last() =~= table@.subrange(0, j - 1));
        if table[j - 1].name == *name {
            return Some(j - 1);
        }
        j -= 1;
    }
    None
}

/// Appends to `out` the IPv4 addresses of `addrs` with `port`.
fn push_v4_endpoints(out: &mut Vec<Endpoint>, addrs: &Vec<InterfaceAddr>, port: u16)
    ensures
        final(out)@ == old(out)@ + v4_endpoints(addrs@, port),
{
    let mut k: usize = 0;
    assert(addrs@.subrange(0, 0) =~= Seq::<InterfaceAddr>::empty());
    assert(out@ =~= old(out)@ + v4_endpoints(addrs@.subrange(0, 0), port));
    while k < addrs.len()
        invariant
            k <= addrs@.len(),
            out@ == old(out)@ + v4_endpoints(addrs@.subrange(0, k as int), port),
        decreases addrs.len() - k,
    {
        assert(addrs@.subrange(0, k + 1).drop_last() =~= addrs@.subrange(0, k as int));
        match addrs[k] {
            InterfaceAddr::V4(ip) => {
                out.push(Endpoint { ip, port });
            },
            InterfaceAddr::V6 => {},
        }
        k += 1;
        assert(out@ =~= old(out)@ + v4_endpoints(addrs@.subrange(0, k as int), port));
    }
    assert(addrs@.subrange(0, k as int) =~= addrs@);
}

/// Appends to `out` the endpoints on `port` of the named interfaces.
fn push_endpoints(out: &mut Vec<Endpoint>, interfaces: &Vec<String>, table: &Vec<Interface>, port: u16)
    ensures
        final(out)@ == old(out)@ + endpoints_of(interfaces@, table@, port),
{
    let mut i: usize = 0;
    assert(interfaces@.subrange(0, 0) =~= Seq::<String>::empty());
    assert(out@ =~= old(out)@ + endpoints_of(interfaces@.subrange(0, 0), table@, port));
    while i < interfaces.len()
        invariant
            i <= interfaces@.len(),
            out@ == old(out)@ + endpoints_of(interfaces@.subrange(0, i as int), table@, port),
        decreases interfaces.len() - i,
    {
        let ghost before = out@;
        assert(interfaces@.subrange(0, i + 1).drop_last() =~= interfaces@.subrange(0, i as int));
        match find_interface(table, &interfaces[i]) {
            Some(k) => {
                push_v4_endpoints(out, &table[k].addr, port);
            },
            None => {},
        }
        i += 1;
        assert(out@ =~= old(out)@ + endpoints_of(interfaces@.subrange(0, i as int), table@, port));
    }
    assert(interfaces@.subrange(0, i as int) =~= interfaces@);
}

/// The endpoints on `port` of the named interfaces, or `None` where there
/// are none at all.
pub fn get_socket_addresses(interfaces: &Vec<String>, interface_map: &Vec<Interface>, port: u16) -> (r:
    Option<Vec<Endpoint>>)
    ensures
        r is None <==> endpoints_of(interfaces@, interface_map@, port).len() == 0,
        r matches Some(v) ==> v@ == endpoints_of(interfaces@, interface_map@, port),
{
    let mut addrs: Vec<Endpoint> = Vec::new();
    push_endpoints(&mut addrs, interfaces, interface_map, port);
    assert(addrs@ =~= endpoints_of(interfaces@, interface_map@, port));
    if addrs.len() == 0 {
        None
    } else {
        Some(addrs)
    }
}

/// The endpoints of the named interfaces on each of `ports` in turn, or
/// `None` where for some port there are none.
pub fn destination_addresses(
    interfaces: &Vec<String>,
    interface_map: &Vec<Interface>,
    ports: &Vec<u16>,
) -> (r: Option<Vec<Endpoint>>)
    ensures
        r is None <==> exists|k: int|
            0 <= k < ports@.len() && (#[trigger] endpoints_of(
                interfaces@,
                interface_map@,
                ports@[k],
            )).len() == 0,
        r matches Some(v) ==> v@ == destinations_of(interfaces@, interface_map@, ports@),
{
    let mut out: Vec<Endpoint> = Vec::new();
    let mut i: usize = 0;
    assert(ports@.subrange(0, 0) =~= Seq::<u16>::empty());
    while i < ports.len()
        invariant
            i <= ports@.len(),
            out@ == destinations_of(interfaces@, interface_map@, ports@.subrange(0, i as int)),
            forall|k: int|
                0 <= k < i ==> (#[trigger] endpoints_of(
                    interfaces@,
                    interface_map@,
                    ports@[k],
                )).len() > 0,
        decreases ports.len() - i,
    {
        assert(ports@.subrange(0, i + 1).drop_last() =~= ports@.subrange(0, i as int));
        match get_socket_addresses(interfaces, interface_map, ports[i]) {
            Some(v) => {
                let mut v = v;
                out.append(&mut v);
            },
            None => {
                return None;
            },
        }
        i += 1;
    }
    assert(ports@.subrange(0, i as int) =~= ports@);
    Some(out)
}

} // verus!
