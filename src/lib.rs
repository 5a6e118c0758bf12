//! A UDP relay core: the admission filter that keeps relayed traffic from
//! looping, the resolution of interfaces to endpoints, and the decisions of
//! the receivers and transmitters that share one broadcast bus.

pub mod address_filter;
pub mod interfaces;
pub mod net;
pub mod relay;

pub use address_filter::{admits, covered_by_any, AddressFilter, FilterView};
pub use net::{ipv4_from_octets, Endpoint, Ipv4Network};
pub use interfaces::{destination_addresses, get_socket_addresses, Interface, InterfaceAddr};
pub use relay::{
    accept_datagram, plan_relay, receive_handler, Bus, BusEvent, PlanError, ReceiveOutcome,
    RelayPlan, RelayedPacket, SourceAddr, TransmitAction, Transmitter, CHANNEL_SIZE,
};
