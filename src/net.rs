use vstd::arithmetic::div_mod::lemma_basic_div;
use vstd::arithmetic::power2::{lemma2_to64, pow2};
use vstd::bits::lemma_u32_shr_is_div;
use vstd::prelude::*;

verus! {

/// An IPv4 socket address: the address as a 32-bit number (most significant
/// octet first) and a port.
#[derive(Clone, Copy, Debug, PartialEq, Eq, Structural, Hash)]
pub struct Endpoint {
    pub ip: u32,
    pub port: u16,
}

/// The number that an address's four octets stand for, first octet highest.
pub open spec fn octets_value(a: u8, b: u8, c: u8, d: u8) -> int {
    a as int * 0x1000000 + b as int * 0x10000 + c as int * 0x100 + d as int
}

/// The address `a.b.c.d` as a 32-bit number.
pub fn ipv4_from_octets(a: u8, b: u8, c: u8, d: u8) -> (r: u32)
    ensures
        r as int == octets_value(a, b, c, d),
{
    (a as u32) * 0x1000000 + (b as u32) * 0x10000 + (c as u32) * 0x100 + (d as u32)
}

impl Endpoint {
    pub fn new(ip: u32, port: u16) -> (r: Endpoint)
        ensures
            r.ip == ip,
            r.port == port,
    {
        Endpoint { ip, port }
    }

    /// One number per endpoint: the address above the port.
    pub open spec fn key(self) -> u64 {
        (self.ip as int * 0x10000 + self.port as int) as u64
    }

    pub fn to_key(&self) -> (r: u64)
        ensures
            r == self.key(),
    {
        (self.ip as u64) * 0x10000 + (self.port as u64)
    }
}

/// Distinct endpoints have distinct keys.
pub proof fn lemma_key_injective(a: Endpoint, b: Endpoint)
    ensures
        a.key() == b.key() ==> a == b,
{
    let ka = a.ip as int * 0x10000 + a.port as int;
    let kb = b.ip as int * 0x10000 + b.port as int;
    assert(0 <= ka < 0x1_0000_0000_0000) by (nonlinear_arith)
        requires ka == a.ip as int * 0x10000 + a.port as int, a.ip <= 0xffff_ffff, a.port <= 0xffff;
    assert(0 <= kb < 0x1_0000_0000_0000) by (nonlinear_arith)
        requires kb == b.ip as int * 0x10000 + b.port as int, b.ip <= 0xffff_ffff, b.port <= 0xffff;
    if ka == kb {
        assert(a.ip == b.ip && a.port == b.port) by (nonlinear_arith)
            requires
                ka == kb,
                ka == a.ip as int * 0x10000 + a.port as int,
                kb == b.ip as int * 0x10000 + b.port as int,
                0 <= a.port <= 0xffff,
                0 <= b.port <= 0xffff,
        ;
    }
}

/// Whether `ip` lies in the block of addresses that share the first
/// `prefix_len` bits of `addr`: dividing by the block size leaves the same
/// block number. Host bits of `addr` play no part.
pub open spec fn in_block(addr: u32, prefix_len: nat, ip: u32) -> bool {
    ip as nat / pow2((32 - prefix_len) as nat) == addr as nat / pow2((32 - prefix_len) as nat)
}

/// An IPv4 network in CIDR form: an address and a prefix length of at most
/// 32. As with `a.b.c.d/n` notation, the address may carry host bits.
#[derive(Clone, Copy, Debug, PartialEq, Eq)]
pub struct Ipv4Network {
    addr: u32,
    prefix_len: u8,
}

/// Name for what ipnet's parser makes of a text: the address and prefix
/// length of the `Ipv4Net` it reads, if any.
pub uninterp spec fn cidr_of(s: Seq<char>) -> Option<(u32, u8)>;

/// Relies on ipnet's `FromStr for Ipv4Net` (`a.b.c.d/n`): the result depends
/// on the text alone, and the parser builds through `Ipv4Net::new`, which
/// refuses a prefix length above 32.
#[verifier::external_body]
fn parse_cidr(s: &str) -> (r: Option<(u32, u8)>)
    ensures
        r == cidr_of(s@),
        r matches Some((_, p)) ==> p <= 32,
{
    s.parse::<ipnet::Ipv4Net>().ok().map(|n| (u32::from(n.addr()), n.prefix_len()))
}

impl View for Ipv4Network {
    type V = (u32, nat);

    closed spec fn view(&self) -> (u32, nat) {
        (self.addr, self.prefix_len as nat)
    }
}

impl Ipv4Network {
    #[verifier::type_invariant]
    spec fn inv(self) -> bool {
        self.prefix_len <= 32
    }

    /// Whether the network covers the address `ip`.
    pub open spec fn covers(&self, ip: u32) -> bool {
        in_block(self@.0, self@.1, ip)
    }

    /// The network `addr/prefix_len`; `None` where the prefix is longer than 32.
    pub fn new(addr: u32, prefix_len: u8) -> (r: Option<Ipv4Network>)
        ensures
            r is Some <==> prefix_len <= 32,
            r matches Some(n) ==> n@ == (addr, prefix_len as nat),
    {
        if prefix_len <= 32 {
            Some(Ipv4Network { addr, prefix_len })
        } else {
            None
        }
    }

    /// Reads a network written `a.b.c.d/n`.
    pub fn parse(s: &str) -> (r: Option<Ipv4Network>)
        ensures
            r is Some <==> cidr_of(s@) is Some,
            r matches Some(n) ==> cidr_of(s@) == Some((n@.0, n@.1 as u8)),
            r matches Some(n) ==> n@.1 <= 32,
    {
        match parse_cidr(s) {
            Some((addr, prefix_len)) => Some(Ipv4Network { addr, prefix_len }),
            None => None,
        }
    }

    pub fn addr(&self) -> (r: u32)
        ensures
            r == self@.0,
    {
        self.addr
    }

    pub fn prefix_len(&self) -> (r: u8)
        ensures
            r as nat == self@.1,
            r <= 32,
    {
        proof {
            use_type_invariant(self);
        }
        self.prefix_len
    }

    /// Whether `ip` falls in this network.
    pub fn contains(&self, ip: u32) -> (r: bool)
        ensures
            r == self.covers(ip),
    {
        proof {
            use_type_invariant(self);
        }
        if self.prefix_len == 0 {
            proof {
                lemma2_to64();
                lemma_basic_div(ip as int, pow2(32) as int);
                lemma_basic_div(self.addr as int, pow2(32) as int);
            }
            true
        } else {
            let shift: u32 = 32 - self.prefix_len as u32;
            proof {
                lemma_u32_shr_is_div(ip, shift);
                lemma_u32_shr_is_div(self.addr, shift);
            }
            (ip >> shift) == (self.addr >> shift)
        }
    }
}

} // verus!
