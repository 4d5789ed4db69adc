//! The server: its configuration, capabilities, adapter and registry, the
//! decisions of the inbound and outbound connection paths, and shutdown.
//! Sockets, timers and the per-peer run loops are driven by the caller, who
//! reports each outcome back here.
use vstd::prelude::*;
use rand::Rng;
use crate::registry::{Peer, Registry, first_at, has_addr, connected_of, is_most_work, any_connected};
use crate::types::{Capabilities, Difficulty, P2PConfig, PeerAddr, PeerInfo};

verus! {

/// Why a connection attempt or the server failed.
#[derive(Debug)]
pub enum Error {
    /// The transport could not connect or accept; holds the cause.
    Connection(String),
    /// The handshake took longer than its deadline.
    Timeout,
    /// The server was asked to stop.
    ConnectionClose,
    /// The handshake protocol failed; holds the cause.
    Protocol(String),
}

/// How a handshake raced against its deadline ended.
pub enum HandshakeRace<T> {
    /// The handshake finished first, with this result.
    Completed(Result<T, Error>),
    /// The deadline passed first.
    DeadlineElapsed,
}

/// The result of a handshake bounded by its deadline: the handshake's own
/// result when it finished first, `Timeout` otherwise.
pub fn with_timeout<T>(race: HandshakeRace<T>) -> (r: Result<T, Error>)
    ensures
        race matches HandshakeRace::Completed(res) ==> r == res,
        race is DeadlineElapsed ==> r == Err::<T, Error>(Error::Timeout),
{
    match race {
        HandshakeRace::Completed(res) => res,
        HandshakeRace::DeadlineElapsed => Err(Error::Timeout),
    }
}

/// What the node offers to the network layer and learns from it.
pub trait NetAdapter {
    /// Total work of the local chain, sent in every handshake.
    fn total_difficulty(&self) -> Difficulty;

    /// A peer completed its handshake and was registered.
    fn peer_connected(&self, info: &PeerInfo);

    /// Known addresses of peers with the given capabilities.
    fn find_peer_addrs(&self, capab: Capabilities) -> Vec<PeerAddr>;

    /// Addresses of peers heard of from another peer.
    fn peer_addrs_received(&self, addrs: Vec<PeerAddr>);
}

/// An adapter that does nothing: least chain work, no known addresses.
pub struct DummyAdapter {}

impl NetAdapter for DummyAdapter {
    fn total_difficulty(&self) -> Difficulty {
        Difficulty::one()
    }

    fn peer_connected(&self, info: &PeerInfo) {
    }

    fn find_peer_addrs(&self, capab: Capabilities) -> Vec<PeerAddr> {
        Vec::new()
    }

    fn peer_addrs_received(&self, addrs: Vec<PeerAddr>) {
    }
}

/// The next step of an outbound connection.
#[derive(Clone, Copy, Debug, PartialEq, Eq, Structural)]
pub enum ConnectStep {
    /// A peer at that address is registered already: no dial.
    Existing(Peer),
    /// The address is this node's own: no dial, no peer.
    SelfAddress,
    /// Dial `to`, announcing `from` as this node's address.
    Dial { from: PeerAddr, to: PeerAddr },
}

/// What stopping the server asks of the caller.
pub struct StopPlan {
    /// Every registered peer, each once, to be asked to disconnect.
    pub peers: Vec<Peer>,
    /// Whether the accept loop of `start` is waiting for the signal.
    pub fire_signal: bool,
}

/// Relies on rand's `thread_rng().gen_range(0..n)`: a value in `0..n`.
/// It panics on an empty range, so `n` must be positive.
#[verifier::external_body]
fn random_below(n: usize) -> (r: usize)
    requires
        n > 0,
    ensures
        r < n,
{
    rand::thread_rng().gen_range(0..n)
}

/// The p2p server: configuration, capabilities, the adapter, the registry of
/// peers and whether the shutdown signal is armed.
pub struct Server<A: NetAdapter> {
    pub config: P2PConfig,
    pub capabilities: Capabilities,
    pub peers: Registry,
    pub adapter: A,
    pub signal_armed: bool,
}

/// The address a server with this configuration is reachable at.
pub open spec fn self_addr_of(config: P2PConfig) -> PeerAddr {
    PeerAddr { ip: config.host, port: config.port }
}

impl<A: NetAdapter> Server<A> {
    /// The registered peers, in insertion order.
    pub open spec fn view(&self) -> Seq<Peer> {
        self.peers@
    }

    /// Everything but the registry and the signal is as in `other`.
    pub open spec fn same_setup(&self, other: &Server<A>) -> bool {
        &&& self.config == other.config
        &&& self.capabilities == other.capabilities
        &&& self.adapter == other.adapter
    }

    /// An idle server with no peers.
    pub fn new(capab: Capabilities, config: P2PConfig, adapter: A) -> (r: Server<A>)
        ensures
            r@ == Seq::<Peer>::empty(),
            r.config == config,
            r.capabilities == capab,
            r.adapter == adapter,
            !r.signal_armed,
    {
        Server { config, capabilities: capab, peers: Registry::new(), adapter, signal_armed: false }
    }

    /// Arms the shutdown signal and returns the address to listen on.
    pub fn start(&mut self) -> (r: PeerAddr)
        ensures
            r == self_addr_of(old(self).config),
            final(self)@ == old(self)@,
            final(self).same_setup(old(self)),
            final(self).signal_armed,
    {
        self.signal_armed = true;
        self.config.self_addr()
    }

    /// Total work of the local chain, as the adapter reports it.
    pub fn local_difficulty(&self) -> Difficulty {
        self.adapter.total_difficulty()
    }

    /// Decides how to reach `addr`: the registered peer there, nothing when
    /// it is this node's own address, or a dial.
    pub fn connect_peer(&self, addr: PeerAddr) -> (r: ConnectStep)
        ensures
            has_addr(self@, addr) ==> exists|i: int|
                first_at(self@, addr, i) && r == ConnectStep::Existing(self@[i]),
            !has_addr(self@, addr) && addr == self_addr_of(self.config) ==> r
                == ConnectStep::SelfAddress,
            !has_addr(self@, addr) && addr != self_addr_of(self.config) ==> r == (ConnectStep::Dial {
                from: self_addr_of(self.config),
                to: addr,
            }),
    {
        match self.peers.find(addr) {
            Some(p) => ConnectStep::Existing(p),
            None => {
                let me = self.config.self_addr();
                if addr.same_as(me) {
                    ConnectStep::SelfAddress
                } else {
                    ConnectStep::Dial { from: me, to: addr }
                }
            },
        }
    }

    /// Registers a peer whose handshake completed, then tells the adapter.
    pub fn add_to_peers(&mut self, id: u64, info: PeerInfo) -> (r: Peer)
        ensures
            r == (Peer { id, info, connected: true }),
            final(self)@ == old(self)@.push(r),
            final(self).same_setup(old(self)),
            final(self).signal_armed == old(self).signal_armed,
    {
        let p = self.peers.insert(id, info);
        self.adapter.peer_connected(&info);
        p
    }

    /// Ends an inbound or outbound handshake: a handshake that finished
    /// first and succeeded registers its peer under key `id`; a failed one
    /// or one that ran past its deadline leaves the registry as it was.
    /// The address is not looked up again: two dials to one address that
    /// both passed `connect_peer` before either registered give two entries.
    pub fn complete_handshake(&mut self, race: HandshakeRace<PeerInfo>, id: u64) -> (r: Result<
        Peer,
        Error,
    >)
        ensures
            final(self).same_setup(old(self)),
            final(self).signal_armed == old(self).signal_armed,
            race is DeadlineElapsed ==> r == Err::<Peer, Error>(Error::Timeout) && final(self)@
                == old(self)@,
            race matches HandshakeRace::Completed(Err(e)) ==> r == Err::<Peer, Error>(e)
                && final(self)@ == old(self)@,
            race matches HandshakeRace::Completed(Ok(info)) ==> r == Ok::<Peer, Error>(
                Peer { id, info, connected: true },
            ) && final(self)@ == old(self)@.push(Peer { id, info, connected: true }),
    {
        match with_timeout(race) {
            Ok(info) => Ok(self.add_to_peers(id, info)),
            Err(e) => Err(e),
        }
    }

    /// The run loop of the peer under key `id` ended: its entries stay,
    /// marked as disconnected, until the next prune.
    pub fn peer_disconnected(&mut self, id: u64)
        ensures
            crate::registry::marked_disconnected(old(self)@, final(self)@, id),
            final(self).same_setup(old(self)),
            final(self).signal_armed == old(self).signal_armed,
    {
        self.peers.mark_disconnected(id);
    }

    /// Removes the peers that lost their connection and returns them.
    pub fn clean_peers(&mut self) -> (removed: Vec<Peer>)
        ensures
            final(self)@ == connected_of(old(self)@),
            removed@ == crate::registry::disconnected_of(old(self)@),
            final(self).same_setup(old(self)),
            final(self).signal_armed == old(self).signal_armed,
    {
        self.peers.prune()
    }

    /// The connected peer with the most work, the first of equals; some
    /// peer when none is connected; none when there is no peer.
    pub fn most_work_peer(&self) -> (r: Option<Peer>)
        ensures
            r is None <==> self@.len() == 0,
            any_connected(self@) ==> exists|i: int| is_most_work(self@, i) && r == Some(self@[i]),
            !any_connected(self@) && self@.len() > 0 ==> r == Some(self@[0]),
    {
        self.peers.most_work()
    }

    /// The peer at position `idx` of the registry, if there is one.
    pub fn peer_at(&self, idx: usize) -> (r: Option<Peer>)
        ensures
            idx < self@.len() ==> r == Some(self@[idx as int]),
            idx >= self@.len() ==> r is None,
    {
        self.peers.get(idx)
    }

    /// A peer chosen at random among all entries, connected or not.
    pub fn random_peer(&self) -> (r: Option<Peer>)
        ensures
            r is None <==> self@.len() == 0,
            r matches Some(p) ==> exists|i: int| 0 <= i < self@.len() && p == self@[i],
    {
        let n = self.peers.len();
        if n == 0 {
            None
        } else {
            let idx = random_below(n);
            self.peer_at(idx)
        }
    }

    /// The peers a block goes to: every connected one, in order. A failed
    /// send to one of them does not concern the others.
    pub fn broadcast_block(&self) -> (r: Vec<Peer>)
        ensures
            r@ == connected_of(self@),
    {
        self.peers.connected()
    }

    /// Number of registered peers, connected or not; `u32::MAX` beyond it.
    pub fn peer_count(&self) -> (r: u32)
        ensures
            self@.len() <= u32::MAX ==> r == self@.len(),
            self@.len() > u32::MAX ==> r == u32::MAX,
    {
        let n = self.peers.len();
        if n <= u32::MAX as usize {
            n as u32
        } else {
            u32::MAX
        }
    }

    /// Stops the server: every registered peer is to be asked to
    /// disconnect, and the signal is fired when `start` armed it. Stopping
    /// a server that was never started only stops its peers.
    pub fn stop(self) -> (r: StopPlan)
        ensures
            r.peers@ == self@,
            r.fire_signal == self.signal_armed,
    {
        StopPlan { peers: self.peers.peers, fire_signal: self.signal_armed }
    }
}

} // verus!
