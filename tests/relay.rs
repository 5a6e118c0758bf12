use udp_relay::{
    accept_datagram, ipv4_from_octets, receive_handler, AddressFilter, Bus, BusEvent, Endpoint,
    Ipv4Network, ReceiveOutcome, SourceAddr, TransmitAction, Transmitter,
};

fn ep(a: u8, b: u8, c: u8, d: u8, port: u16) -> Endpoint {
    Endpoint::new(ipv4_from_octets(a, b, c, d), port)
}

fn sent(t: &mut Transmitter) -> (Endpoint, Vec<u8>) {
    let event = t.try_next().expect("a packet is waiting");
    match t.on_event(event) {
        TransmitAction::Send { destination, payload } => (destination, payload),
        other => panic!("expected a send, got {:?}", other),
    }
}

#[test]
fn scenario_destination_source_filtered() {
    let dest = ep(10, 0, 0, 2, 9000);
    let filter = AddressFilter::new(&vec![dest], vec![], vec![]);
    let bus = Bus::new();
    let mut t = Transmitter::start(&bus, dest);
    let buf = [1u8, 2, 3];
    let r = receive_handler(&bus, &filter, &buf, 3, SourceAddr::V4(dest));
    assert_eq!(r, ReceiveOutcome::Filtered);
    assert!(t.try_next().is_none());

    let r = receive_handler(&bus, &filter, &buf, 3, SourceAddr::V4(ep(10, 0, 0, 5, 4000)));
    assert_eq!(r, ReceiveOutcome::Published(1));
    assert_eq!(sent(&mut t), (dest, vec![1, 2, 3]));
    assert!(t.try_next().is_none());
}

#[test]
fn scenario_allow_overrides_block_end_to_end() {
    let filter = AddressFilter::new(
        &vec![],
        vec![Ipv4Network::parse("192.168.0.0/16").unwrap()],
        vec![Ipv4Network::parse("192.168.1.0/24").unwrap()],
    );
    let bus = Bus::new();
    let dest = ep(10, 0, 0, 9, 7000);
    let mut t = Transmitter::start(&bus, dest);
    let buf = [9u8; 16];
    let ok = receive_handler(&bus, &filter, &buf, 16, SourceAddr::V4(ep(192, 168, 1, 10, 5000)));
    assert_eq!(ok, ReceiveOutcome::Published(1));
    let dropped =
        receive_handler(&bus, &filter, &buf, 16, SourceAddr::V4(ep(192, 168, 2, 10, 5000)));
    assert_eq!(dropped, ReceiveOutcome::Filtered);
    assert_eq!(sent(&mut t), (dest, vec![9u8; 16]));
    assert!(t.try_next().is_none());
}

#[test]
fn scenario_one_packet_fans_out_to_every_destination() {
    let dests = vec![ep(10, 1, 0, 1, 6001), ep(10, 1, 0, 2, 6001), ep(10, 1, 0, 3, 6002)];
    let filter = AddressFilter::new(&dests, vec![], vec![]);
    let bus = Bus::new();
    let mut ts: Vec<Transmitter> = dests.iter().map(|d| Transmitter::start(&bus, *d)).collect();
    // one datagram reaches the receiver on 10.0.0.1:6000; the one on 10.0.1.1:6000 gets none
    let buf = [0xde, 0xad, 0xbe, 0xef, 0, 0];
    let r = receive_handler(&bus, &filter, &buf, 4, SourceAddr::V4(ep(172, 16, 0, 4, 1234)));
    assert_eq!(r, ReceiveOutcome::Published(3));
    for (i, t) in ts.iter_mut().enumerate() {
        assert_eq!(sent(t), (dests[i], vec![0xde, 0xad, 0xbe, 0xef]));
        assert!(t.try_next().is_none());
    }
}

#[test]
fn packet_before_subscription_not_delivered() {
    let filter = AddressFilter::new(&vec![], vec![], vec![]);
    let bus = Bus::new();
    let mut early = Transmitter::start(&bus, ep(10, 0, 0, 1, 1));
    let r = receive_handler(&bus, &filter, &[1, 2], 2, SourceAddr::V4(ep(1, 1, 1, 1, 1)));
    assert_eq!(r, ReceiveOutcome::Published(1));
    let mut late = Transmitter::start(&bus, ep(10, 0, 0, 2, 1));
    assert!(late.try_next().is_none());
    assert_eq!(sent(&mut early).1, vec![1, 2]);
    let r = receive_handler(&bus, &filter, &[3], 1, SourceAddr::V4(ep(1, 1, 1, 1, 1)));
    assert_eq!(r, ReceiveOutcome::Published(2));
    assert_eq!(sent(&mut late).1, vec![3]);
}

#[test]
fn packet_after_subscriptions_reaches_all() {
    let filter = AddressFilter::new(&vec![], vec![], vec![]);
    let bus = Bus::new();
    let mut ts: Vec<Transmitter> =
        (0..5u8).map(|i| Transmitter::start(&bus, ep(10, 0, 0, i, 100))).collect();
    let r = receive_handler(&bus, &filter, &[7, 7, 7], 3, SourceAddr::V4(ep(2, 2, 2, 2, 2)));
    assert_eq!(r, ReceiveOutcome::Published(5));
    for (i, t) in ts.iter_mut().enumerate() {
        assert_eq!(sent(t), (ep(10, 0, 0, i as u8, 100), vec![7, 7, 7]));
    }
}

#[test]
fn publish_without_subscribers_fails() {
    let filter = AddressFilter::new(&vec![], vec![], vec![]);
    let bus = Bus::new();
    let r = receive_handler(&bus, &filter, &[1], 1, SourceAddr::V4(ep(3, 3, 3, 3, 3)));
    assert_eq!(r, ReceiveOutcome::PublishFailed);
}

#[test]
fn non_ipv4_source_ignored() {
    let filter = AddressFilter::new(&vec![], vec![], vec![]);
    let bus = Bus::new();
    let mut t = Transmitter::start(&bus, ep(10, 0, 0, 1, 1));
    let r = receive_handler(&bus, &filter, &[1, 2, 3], 3, SourceAddr::V6);
    assert_eq!(r, ReceiveOutcome::NotIpv4);
    assert!(t.try_next().is_none());
    assert!(accept_datagram(&filter, &[1], 1, SourceAddr::V6).is_none());
}

#[test]
fn accepted_payload_is_the_read_prefix() {
    let filter = AddressFilter::new(&vec![], vec![], vec![]);
    let src = ep(8, 8, 8, 8, 53);
    let p = accept_datagram(&filter, &[5, 6, 7, 8], 2, SourceAddr::V4(src)).unwrap();
    assert_eq!(p.payload, vec![5, 6]);
    assert_eq!(p.source, src);
    let empty = accept_datagram(&filter, &[5, 6], 0, SourceAddr::V4(src)).unwrap();
    assert!(empty.payload.is_empty());
}

#[test]
fn slow_subscriber_sees_lag_then_resumes() {
    let filter = AddressFilter::new(&vec![], vec![], vec![]);
    let bus = Bus::with_capacity(1);
    let mut t = Transmitter::start(&bus, ep(10, 0, 0, 1, 1));
    for b in 0..3u8 {
        let r = receive_handler(&bus, &filter, &[b], 1, SourceAddr::V4(ep(4, 4, 4, 4, 4)));
        assert_eq!(r, ReceiveOutcome::Published(1));
    }
    let lag = t.try_next().unwrap();
    match t.on_event(lag) {
        TransmitAction::ReportLag(n) => assert_eq!(n, 2),
        other => panic!("expected a lag, got {:?}", other),
    }
    assert_eq!(sent(&mut t).1, vec![2]);
}

#[test]
fn closed_bus_stops_transmitter() {
    let bus = Bus::new();
    let mut t = Transmitter::start(&bus, ep(10, 0, 0, 1, 1));
    drop(bus);
    let event = t.try_next().unwrap();
    assert!(matches!(event, BusEvent::Closed));
    assert!(matches!(t.on_event(event), TransmitAction::Stop));
}
