use tokio::sync::broadcast::error::{SendError, TryRecvError};
use tokio::sync::broadcast::{Receiver, Sender};
use vstd::prelude::*;

use crate::address_filter::{admits, AddressFilter};
use crate::interfaces::{destinations_of, endpoints_of, get_socket_addresses, Interface};
use crate::net::Endpoint;

verus! {

#[verifier::external_type_specification]
#[verifier::external_body]
#[verifier::reject_recursive_types(T)]
pub struct ExSender<T>(Sender<T>);

#[verifier::external_type_specification]
#[verifier::external_body]
#[verifier::reject_recursive_types(T)]
pub struct ExReceiver<T>(Receiver<T>);

#[verifier::external_type_specification]
#[verifier::external_body]
#[verifier::reject_recursive_types(T)]
pub struct ExSendError<T>(SendError<T>);


/// Relies on tokio's `broadcast::Sender::new`, which panics on a capacity of
/// zero or above `usize::MAX >> 1`.
pub assume_specification<T>[ Sender::<T>::new ](capacity: usize) -> Sender<T>
    requires
        0 < capacity <= usize::MAX >> 1,
;

/// Relies on tokio's `broadcast::Sender::send`: it fails when no receiver
/// exists, and otherwise returns how many receivers the value went to.
pub assume_specification<T>[ Sender::<T>::send ](s: &Sender<T>, value: T) -> (r: Result<
    usize,
    SendError<T>,
>)
    ensures
        r matches Ok(n) ==> n >= 1,
;

/// Relies on tokio's `broadcast::Sender::subscribe`: a receiver of the values
/// sent after the call.
pub assume_specification<T>[ Sender::<T>::subscribe ](s: &Sender<T>) -> Receiver<T>;


/// How many packets the bus holds for a subscriber that falls behind.
pub const CHANNEL_SIZE: usize = 256;

/// A datagram accepted for relaying: its bytes and where it came from.
#[derive(Clone, Debug)]
pub struct RelayedPacket {
    pub payload: Vec<u8>,
    pub source: Endpoint,
}

/// The source of a received datagram.
#[derive(Clone, Copy, Debug, PartialEq, Eq, Structural)]
pub enum SourceAddr {
    V4(Endpoint),
    V6,
}

/// The broadcast channel from every receiver to every transmitter.
pub struct Bus {
    sender: Sender<RelayedPacket>,
}

impl Bus {
    /// A bus that keeps up to `CHANNEL_SIZE` packets for each subscriber.
    pub fn new() -> (r: Bus) {
        proof {
            vstd::bits::lemma_usize_shr_is_div(usize::MAX, 1);
            vstd::arithmetic::power2::lemma2_to64();
        }
        Bus { sender: Sender::new(CHANNEL_SIZE) }
    }

    /// A bus that keeps up to `capacity` packets for each subscriber.
    pub fn with_capacity(capacity: usize) -> (r: Bus)
        requires
            0 < capacity <= usize::MAX >> 1,
    {
        Bus { sender: Sender::new(capacity) }
    }
}

/// What a receiver did with one datagram.
#[derive(Clone, Copy, Debug, PartialEq, Eq, Structural)]
pub enum ReceiveOutcome {
    /// The source was not IPv4.
    NotIpv4,
    /// The address filter refused the source.
    Filtered,
    /// The packet went onto the bus, to this many subscribers.
    Published(usize),
    /// The bus refused the packet: nobody was subscribed.
    PublishFailed,
}

/// The packet that a datagram of `buf[..len]` from `source` becomes, if the
/// filter lets it through.
pub fn accept_datagram(filter: &AddressFilter, buf: &[u8], len: usize, source: SourceAddr) -> (r:
    Option<RelayedPacket>)
    requires
        len <= buf@.len(),
    ensures
        r is Some <==> (source matches SourceAddr::V4(a) && admits(filter@, a)),
        r matches Some(p) ==> source == SourceAddr::V4(p.source) && p.payload@ == buf@.subrange(
            0,
            len as int,
        ),
{
    match source {
        SourceAddr::V4(addr) => {
            if filter.should_transmit(&addr) {
                let mut payload: Vec<u8> = Vec::with_capacity(len);
                let mut i: usize = 0;
                while i < len
                    invariant
                        i <= len <= buf@.len(),
                        payload@ == buf@.subrange(0, i as int),
                    decreases len - i,
                {
                    payload.push(buf[i]);
                    i += 1;
                    assert(payload@ =~= buf@.subrange(0, i as int));
                }
                Some(RelayedPacket { payload, source: addr })
            } else {
                None
            }
        },
        SourceAddr::V6 => None,
    }
}

/// Handles one datagram of `buf[..len]` from `source`: puts it on the bus
/// where it is IPv4 and the filter lets it through.
pub fn receive_handler(
    bus: &Bus,
    address_filter: &AddressFilter,
    buf: &[u8],
    len: usize,
    source: SourceAddr,
) -> (r: ReceiveOutcome)
    requires
        len <= buf@.len(),
    ensures
        r == ReceiveOutcome::NotIpv4 <==> source == SourceAddr::V6,
        r == ReceiveOutcome::Filtered <==> (source matches SourceAddr::V4(a) && !admits(
            address_filter@,
            a,
        )),
        r matches ReceiveOutcome::Published(n) ==> n >= 1,
{
    if source == SourceAddr::V6 {
        return ReceiveOutcome::NotIpv4;
    }
    match accept_datagram(address_filter, buf, len, source) {
        Some(packet) => match bus.sender.send(packet) {
            Ok(n) => ReceiveOutcome::Published(n),
            Err(_) => ReceiveOutcome::PublishFailed,
        },
        None => ReceiveOutcome::Filtered,
    }
}

/// What a transmitter's subscription handed it.
#[derive(Debug)]
pub enum BusEvent {
    Packet(RelayedPacket),
    /// The subscriber fell behind and this many packets were lost to it.
    Lagged(u64),
    /// Every sending side is gone.
    Closed,
}

/// What a transmitter does next.
#[derive(Debug)]
pub enum TransmitAction {
    /// Send `payload` to `destination`.
    Send { destination: Endpoint, payload: Vec<u8> },
    /// Report that this many packets were lost, and carry on.
    ReportLag(u64),
    /// The bus is closed: nothing more will come.
    Stop,
}

/// Relies on tokio's `broadcast::Receiver::try_recv`: the next value, or why
/// there is none, without waiting. Which one comes depends on the other
/// handles of the channel, so nothing is stated of it.
#[verifier::external_body]
fn try_receive(rx: &mut Receiver<RelayedPacket>) -> (r: Option<BusEvent>) {
    match rx.try_recv() {
        Ok(packet) => Some(BusEvent::Packet(packet)),
        Err(TryRecvError::Lagged(n)) => Some(BusEvent::Lagged(n)),
        Err(TryRecvError::Closed) => Some(BusEvent::Closed),
        Err(TryRecvError::Empty) => None,
    }
}

/// Forwards every packet on the bus to one destination.
pub struct Transmitter {
    pub destination: Endpoint,
    pub subscription: Receiver<RelayedPacket>,
}

impl Transmitter {
    /// A transmitter to `destination`, subscribed to the packets put on
    /// `bus` from now on.
    pub fn start(bus: &Bus, destination: Endpoint) -> (r: Transmitter)
        ensures
            r.destination == destination,
    {
        Transmitter { destination, subscription: bus.sender.subscribe() }
    }

    /// The next event of the subscription, or `None` where nothing is
    /// waiting.
    pub fn try_next(&mut self) -> (r: Option<BusEvent>)
        ensures
            final(self).destination == old(self).destination,
    {
        try_receive(&mut self.subscription)
    }

    /// The step taken on one event: a packet is sent on, unchanged, to this
    /// transmitter's destination; a lag is reported; a closed bus stops it.
    pub fn on_event(&self, event: BusEvent) -> (r: TransmitAction)
        ensures
            match event {
                BusEvent::Packet(p) => r matches TransmitAction::Send { destination, payload } && destination
                    == self.destination && payload@ == p.payload@,
                BusEvent::Lagged(n) => r matches TransmitAction::ReportLag(m) && m == n,
                BusEvent::Closed => r is Stop,
            },
    {
        match event {
            BusEvent::Packet(p) => TransmitAction::Send {
                destination: self.destination,
                payload: p.payload,
            },
            BusEvent::Lagged(n) => TransmitAction::ReportLag(n),
            BusEvent::Closed => TransmitAction::Stop,
        }
    }
}

/// Why a relay cannot start.
#[derive(Clone, Copy, Debug, PartialEq, Eq, Structural)]
pub enum PlanError {
    /// None of the receive interfaces has an IPv4 address.
    NoReceiveAddresses,
    /// The transmit ports, the two above the receive port, do not fit in 16 bits.
    PortOutOfRange,
    /// None of the transmit interfaces has an IPv4 address.
    NoTransmitAddresses,
}

/// The endpoints that a relay listens on and sends to.
#[derive(Debug)]
pub struct RelayPlan {
    pub receive_addresses: Vec<Endpoint>,
    pub transmit_addresses: Vec<Endpoint>,
}

/// The ports that packets are relayed to: the two above the receive port.
pub open spec fn transmit_ports_of(port: u16) -> Seq<u16> {
    seq![(port + 1) as u16, (port + 2) as u16]
}

/// Resolves the endpoints of a relay: the receive interfaces on `port`, and
/// the transmit interfaces on each of the two ports above it.
pub fn plan_relay(
    receive_interfaces: &Vec<String>,
    transmit_interfaces: &Vec<String>,
    interface_map: &Vec<Interface>,
    port: u16,
) -> (r: Result<RelayPlan, PlanError>)
    ensures
        r == Err::<RelayPlan, PlanError>(PlanError::NoReceiveAddresses) <==> endpoints_of(
            receive_interfaces@,
            interface_map@,
            port,
        ).len() == 0,
        r == Err::<RelayPlan, PlanError>(PlanError::PortOutOfRange) <==> (endpoints_of(
            receive_interfaces@,
            interface_map@,
            port,
        ).len() > 0 && port > 0xfffd),
        r == Err::<RelayPlan, PlanError>(PlanError::NoTransmitAddresses) <==> (endpoints_of(
            receive_interfaces@,
            interface_map@,
            port,
        ).len() > 0 && port <= 0xfffd && (endpoints_of(
            transmit_interfaces@,
            interface_map@,
            (port + 1) as u16,
        ).len() == 0 || endpoints_of(transmit_interfaces@, interface_map@, (port + 2) as u16).len()
            == 0)),
        r matches Ok(plan) ==> plan.receive_addresses@ == endpoints_of(
            receive_interfaces@,
            interface_map@,
            port,
        ) && plan.transmit_addresses@ == destinations_of(
            transmit_interfaces@,
            interface_map@,
            transmit_ports_of(port),
        ),
{
    let receive_addresses = match get_socket_addresses(receive_interfaces, interface_map, port) {
        Some(addrs) => addrs,
        None => {
            return Err(PlanError::NoReceiveAddresses);
        },
    };
    if port > 0xfffd {
        return Err(PlanError::PortOutOfRange);
    }
    let ports: Vec<u16> = vec![port + 1, port + 2];
    assert(ports@ =~= transmit_ports_of(port));
    match crate::interfaces::destination_addresses(transmit_interfaces, interface_map, &ports) {
        Some(transmit_addresses) => Ok(RelayPlan { receive_addresses, transmit_addresses }),
        None => {
            assert(ports@[0] == port + 1 && ports@[1] == port + 2);
            Err(PlanError::NoTransmitAddresses)
        },
    }
}

} // verus!
