use p2p::registry::Peer;
use p2p::server::{with_timeout, ConnectStep, DummyAdapter, Error, HandshakeRace, NetAdapter, Server};
use p2p::types::{Capabilities, Difficulty, HostIp, P2PConfig, PeerAddr, PeerInfo};

fn config() -> P2PConfig {
    P2PConfig { host: HostIp::V4(0x7f00_0001), port: 13414 }
}

fn server() -> Server<DummyAdapter> {
    Server::new(Capabilities { bits: 1 }, config(), DummyAdapter {})
}

fn addr(last: u32, port: u16) -> PeerAddr {
    PeerAddr::new(HostIp::V4(0x0a00_0000 | last), port)
}

fn info(a: PeerAddr, work: u64) -> PeerInfo {
    PeerInfo { addr: a, capabilities: Capabilities { bits: 1 }, total_difficulty: Difficulty::from_num(work) }
}

fn register(s: &mut Server<DummyAdapter>, id: u64, a: PeerAddr, work: u64) -> Peer {
    match s.complete_handshake(HandshakeRace::Completed(Ok(info(a, work))), id) {
        Ok(p) => p,
        Err(e) => panic!("handshake refused: {:?}", e),
    }
}

#[test]
fn connect_to_registered_address_returns_existing_peer() {
    let mut s = server();
    let a = addr(1, 4000);
    let p = register(&mut s, 1, a, 10);
    register(&mut s, 2, a, 20);
    assert_eq!(s.connect_peer(a), ConnectStep::Existing(p));
    assert_eq!(s.peer_count(), 2);
}

#[test]
fn connect_to_unknown_address_dials() {
    let s = server();
    let a = addr(2, 4000);
    assert_eq!(s.connect_peer(a), ConnectStep::Dial { from: config().self_addr(), to: a });
}

#[test]
fn connect_to_self_gives_no_peer() {
    let s = server();
    assert_eq!(s.connect_peer(PeerAddr::new(HostIp::V4(0x7f00_0001), 13414)), ConnectStep::SelfAddress);
    let v6 = P2PConfig { host: HostIp::V6(1), port: 1 };
    let s6 = Server::new(Capabilities::unknown(), v6, DummyAdapter {});
    assert_eq!(s6.connect_peer(PeerAddr::new(HostIp::V6(1), 1)), ConnectStep::SelfAddress);
    // same host, other port: a dial
    let other = PeerAddr::new(HostIp::V4(0x7f00_0001), 13415);
    assert_eq!(s.connect_peer(other), ConnectStep::Dial { from: config().self_addr(), to: other });
}

#[test]
fn handshake_past_deadline_times_out_and_registers_nothing() {
    let mut s = server();
    register(&mut s, 1, addr(1, 1), 5);
    let r = s.complete_handshake(HandshakeRace::DeadlineElapsed, 2);
    assert!(matches!(r, Err(Error::Timeout)));
    assert_eq!(s.peer_count(), 1);
    assert_eq!(s.peer_at(1), None);
}

#[test]
fn failed_handshake_passes_its_error_through() {
    let mut s = server();
    let r = s.complete_handshake(HandshakeRace::Completed(Err(Error::Protocol("bad magic".to_string()))), 1);
    match r {
        Err(Error::Protocol(m)) => assert_eq!(m, "bad magic"),
        other => panic!("unexpected {:?}", other),
    }
    assert_eq!(s.peer_count(), 0);
}

#[test]
fn with_timeout_results() {
    assert!(matches!(with_timeout(HandshakeRace::Completed(Ok(7u8))), Ok(7)));
    assert!(matches!(with_timeout::<u8>(HandshakeRace::DeadlineElapsed), Err(Error::Timeout)));
    assert!(matches!(
        with_timeout::<u8>(HandshakeRace::Completed(Err(Error::Connection("refused".to_string())))),
        Err(Error::Connection(_))
    ));
}

#[test]
fn prune_partitions_by_connection_state() {
    let mut s = server();
    let p1 = register(&mut s, 1, addr(1, 1), 1);
    let p2 = register(&mut s, 2, addr(2, 1), 2);
    let p3 = register(&mut s, 3, addr(3, 1), 3);
    let p4 = register(&mut s, 4, addr(4, 1), 4);
    s.peer_disconnected(2);
    s.peer_disconnected(4);
    let removed = s.clean_peers();
    let down2 = Peer { connected: false, ..p2 };
    let down4 = Peer { connected: false, ..p4 };
    assert_eq!(removed, vec![down2, down4]);
    assert_eq!(s.peer_count(), 2);
    assert_eq!(s.peer_at(0), Some(p1));
    assert_eq!(s.peer_at(1), Some(p3));
    assert!(s.clean_peers().is_empty());
}

#[test]
fn disconnected_peer_stays_until_prune() {
    let mut s = server();
    let p = register(&mut s, 1, addr(1, 1), 1);
    s.peer_disconnected(1);
    assert_eq!(s.peer_count(), 1);
    assert_eq!(s.peer_at(0), Some(Peer { connected: false, ..p }));
    assert!(!s.peer_at(0).unwrap().is_connected());
}

#[test]
fn broadcast_goes_to_every_connected_peer() {
    let mut s = server();
    let p1 = register(&mut s, 1, addr(1, 1), 1);
    register(&mut s, 2, addr(2, 1), 2);
    let p3 = register(&mut s, 3, addr(3, 1), 3);
    s.peer_disconnected(2);
    assert_eq!(s.broadcast_block(), vec![p1, p3]);
    assert!(server().broadcast_block().is_empty());
}

#[test]
fn most_work_peer_on_empty_registry_is_none() {
    assert_eq!(server().most_work_peer(), None);
}

#[test]
fn most_work_peer_picks_highest_connected_first_of_ties() {
    let mut s = server();
    register(&mut s, 1, addr(1, 1), 5);
    let best = register(&mut s, 2, addr(2, 1), 9);
    register(&mut s, 3, addr(3, 1), 9);
    register(&mut s, 4, addr(4, 1), 100);
    s.peer_disconnected(4);
    assert_eq!(s.most_work_peer(), Some(best));
}

#[test]
fn most_work_peer_ignores_disconnected_first_entry() {
    let mut s = server();
    register(&mut s, 1, addr(1, 1), 50);
    let p2 = register(&mut s, 2, addr(2, 1), 3);
    s.peer_disconnected(1);
    assert_eq!(s.most_work_peer(), Some(p2));
}

#[test]
fn most_work_peer_with_none_connected_is_still_some() {
    let mut s = server();
    let p1 = register(&mut s, 1, addr(1, 1), 1);
    register(&mut s, 2, addr(2, 1), 2);
    s.peer_disconnected(1);
    s.peer_disconnected(2);
    assert_eq!(s.most_work_peer(), Some(Peer { connected: false, ..p1 }));
}

#[test]
fn random_peer_is_a_registered_peer() {
    assert_eq!(server().random_peer(), None);
    let mut s = server();
    let p1 = register(&mut s, 1, addr(1, 1), 1);
    assert_eq!(s.random_peer(), Some(p1));
    let p2 = register(&mut s, 2, addr(2, 1), 1);
    s.peer_disconnected(2);
    let down2 = Peer { connected: false, ..p2 };
    for _ in 0..50 {
        let r = s.random_peer().unwrap();
        assert!(r == p1 || r == down2);
    }
}

#[test]
fn peer_count_counts_disconnected_too() {
    let mut s = server();
    assert_eq!(s.peer_count(), 0);
    register(&mut s, 1, addr(1, 1), 1);
    register(&mut s, 2, addr(2, 1), 1);
    s.peer_disconnected(1);
    assert_eq!(s.peer_count(), 2);
}

#[test]
fn stop_lists_every_peer_once_and_fires_the_signal() {
    let mut s = server();
    let listen = s.start();
    assert_eq!(listen, PeerAddr::new(HostIp::V4(0x7f00_0001), 13414));
    let p1 = register(&mut s, 1, addr(1, 1), 1);
    let p2 = register(&mut s, 2, addr(2, 1), 1);
    s.peer_disconnected(2);
    let plan = s.stop();
    assert_eq!(plan.peers, vec![p1, Peer { connected: false, ..p2 }]);
    assert!(plan.fire_signal);
}

#[test]
fn stop_before_start_fires_nothing() {
    let mut s = server();
    let p1 = register(&mut s, 1, addr(1, 1), 1);
    let plan = s.stop();
    assert_eq!(plan.peers, vec![p1]);
    assert!(!plan.fire_signal);
}

#[test]
fn simultaneous_dials_to_one_address_register_twice() {
    let mut s = server();
    let a = addr(9, 3414);
    // both dials pass the check before either handshake completes
    let first = s.connect_peer(a);
    let second = s.connect_peer(a);
    assert_eq!(first, ConnectStep::Dial { from: config().self_addr(), to: a });
    assert_eq!(second, first);
    let p1 = register(&mut s, 1, a, 4);
    let p2 = register(&mut s, 2, a, 4);
    assert_eq!(s.peer_count(), 2);
    assert_eq!(s.connect_peer(a), ConnectStep::Existing(p1));
    assert_ne!(p1, p2);
}

#[test]
fn dummy_adapter_is_inert() {
    let d = DummyAdapter {};
    assert_eq!(d.total_difficulty(), Difficulty::one());
    assert!(d.find_peer_addrs(Capabilities { bits: 3 }).is_empty());
    assert_eq!(server().local_difficulty(), Difficulty::one());
}

#[test]
fn capabilities_and_difficulty() {
    let c = Capabilities { bits: 0b01 }.union(Capabilities { bits: 0b10 });
    assert_eq!(c.bits, 0b11);
    assert!(c.contains(Capabilities { bits: 0b10 }));
    assert!(!Capabilities::unknown().contains(c));
    assert!(Difficulty::zero().less_than(Difficulty::one()));
    assert!(!Difficulty::from_num(4).less_than(Difficulty::from_num(4)));
}
