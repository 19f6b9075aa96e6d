use midilan::codec::DATA_TAG;
use midilan::endpoint::Endpoint;
use midilan::relay::{Disposition, Relay, Session};

const BEACON: [u8; 4] = [0xF0, 0x73, 0x02, 0xF7];

fn localhost(port: u16) -> Endpoint {
    Endpoint::v4(0x7F00_0001, port)
}

fn delivered(d: &Disposition) -> Option<Vec<u8>> {
    match d {
        Disposition::Deliver(p) => Some(p.clone()),
        Disposition::Discard(_) => None,
    }
}

#[test]
fn endpoint_constructors() {
    let a = Endpoint::v4(0x0A00_0001, 9000);
    assert!(!a.v6);
    assert_eq!(a.ip, 0x0A00_0001);
    assert_eq!(a.port, 9000);
    let b = Endpoint::v6(1, 9000, 0, 3);
    assert!(b.v6);
    assert_eq!(b.scope_id, 3);
    assert_ne!(Endpoint::v4(1, 9000), Endpoint::v6(1, 9000, 0, 0));
}

#[test]
fn server_learns_last_sender() {
    let mut s = Relay::server();
    let a = localhost(40000);
    let b = Endpoint::v4(0xC0A8_0002, 40001);
    let r = s.on_datagram(a, &BEACON);
    assert_eq!(r.connected, Some(a));
    assert_eq!(s.remote(), Some(a));
    let r = s.on_datagram(a, &[DATA_TAG, 1]);
    assert_eq!(r.connected, None);
    let r = s.on_datagram(b, &[0x33]);
    assert_eq!(r.connected, Some(b));
    assert_eq!(s.remote(), Some(b));
    let d = s.on_local_event(&[0x80, 0x40, 0]).unwrap();
    assert_eq!(d.to, b);
}

#[test]
fn server_without_peer_drops_local_events() {
    let s = Relay::server();
    assert!(s.start().is_none());
    assert!(s.on_local_event(&[0x90, 0x40, 0x7F]).is_none());
    assert_eq!(s.remote(), None);
    assert_eq!(s, Relay::server());
}

#[test]
fn client_starts_with_one_beacon() {
    let server = localhost(9000);
    let c = Relay::client(server, 60_000);
    let d = c.start().unwrap();
    assert_eq!(d.to, server);
    assert_eq!(d.bytes, BEACON.to_vec());
    assert_eq!(c.remote(), Some(server));
}

#[test]
fn client_sends_data_frames_to_server() {
    let server = localhost(9000);
    let c = Relay::client(server, 60_000);
    let d = c.on_local_event(&[0x90, 0x40, 0x7F]).unwrap();
    assert_eq!(d.to, server);
    assert_eq!(d.bytes, vec![0x10, 0x90, 0x40, 0x7F]);
}

#[test]
fn client_keeps_its_server() {
    let server = localhost(9000);
    let mut c = Relay::client(server, 60_000);
    let r = c.on_datagram(localhost(1234), &[DATA_TAG, 0xB0, 7, 100]);
    assert_eq!(r.connected, None);
    assert_eq!(delivered(&r.disposition), Some(vec![0xB0, 7, 100]));
    assert_eq!(c.session, Session::Client { server });
}

#[test]
fn unrecognized_datagram_is_discarded() {
    let mut s = Relay::server();
    let r = s.on_datagram(localhost(1), &[0x11, 0x90, 0x40, 0x7F]);
    match r.disposition {
        Disposition::Discard(p) => assert_eq!(p, vec![0x90, 0x40, 0x7F]),
        Disposition::Deliver(_) => panic!("foreign frame delivered"),
    }
}

#[test]
fn empty_datagram_is_discarded_and_sets_peer() {
    let mut s = Relay::server();
    let r = s.on_datagram(localhost(2), &[]);
    match r.disposition {
        Disposition::Discard(p) => assert!(p.is_empty()),
        Disposition::Deliver(_) => panic!("empty datagram delivered"),
    }
    assert_eq!(s.remote(), Some(localhost(2)));
}

#[test]
fn end_to_end_note_on() {
    let server_addr = localhost(9000);
    let client_addr = localhost(54321);
    let mut server = Relay::server();
    let client = Relay::client(server_addr, 60_000);

    let hello = client.start().unwrap();
    assert_eq!(hello.to, server_addr);
    let r = server.on_datagram(client_addr, &hello.bytes);
    assert_eq!(delivered(&r.disposition), None);
    assert_eq!(r.connected, Some(client_addr));

    let note = client.on_local_event(&[0x90, 0x40, 0x7F]).unwrap();
    assert_eq!(note.to, server_addr);
    let r = server.on_datagram(client_addr, &note.bytes);
    assert_eq!(delivered(&r.disposition), Some(vec![0x90, 0x40, 0x7F]));
    assert_eq!(r.connected, None);
    assert_eq!(server.remote(), Some(client_addr));

    let back = server.on_local_event(&[0x80, 0x40, 0x00]).unwrap();
    assert_eq!(back.to, client_addr);
    assert_eq!(back.bytes, vec![0x10, 0x80, 0x40, 0x00]);
}

#[test]
fn server_before_contact_sends_nothing() {
    let mut server = Relay::server();
    assert!(server.on_local_event(&[0x90, 0x40, 0x7F]).is_none());
    assert!(server.on_tick(60_000).is_none());
    assert!(server.on_tick(1_000_000).is_none());
    assert_eq!(server, Relay::server());
}

#[test]
fn client_beacon_once_per_interval() {
    let server = localhost(9000);
    let mut c = Relay::client(server, 10);
    assert!(c.on_tick(5).is_none());
    let mut sent = 0u32;
    for k in 1..=100u64 {
        let now = k * 10;
        let d = c.on_tick(now).unwrap();
        assert_eq!(d.to, server);
        assert_eq!(d.bytes, BEACON.to_vec());
        sent += 1;
        assert_eq!(c.next_keepalive_ms, now + 10);
        assert!(c.on_tick(now).is_none());
        assert!(c.on_tick(now + 9).is_none());
    }
    assert_eq!(sent, 100);
}

#[test]
fn late_timer_sends_one_beacon_and_keeps_grid() {
    let mut c = Relay::client(localhost(9000), 10);
    assert!(c.on_tick(57).is_some());
    assert_eq!(c.next_keepalive_ms, 60);
    assert!(c.on_tick(57).is_none());
    assert!(c.on_tick(60).is_some());
    assert_eq!(c.next_keepalive_ms, 70);
}

#[test]
fn data_does_not_move_keepalive_deadline() {
    let mut c = Relay::client(localhost(9000), 10);
    let _ = c.on_datagram(localhost(9000), &[DATA_TAG, 1, 2]);
    assert_eq!(c.next_keepalive_ms, 10);
    assert_eq!(c.interval_ms, 10);
}
