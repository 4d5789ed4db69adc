//! Plain values shared by the registry and the server: capabilities, chain
//! work, peer addresses and what a handshake tells about a peer.
use vstd::prelude::*;

verus! {

/// Number of seconds a handshake may take before it is abandoned.
pub const HANDSHAKE_TIMEOUT_SECS: u64 = 5;

/// Bit-flag set of the protocol features a node supports.
#[derive(Clone, Copy, Debug, PartialEq, Eq, Structural)]
pub struct Capabilities {
    pub bits: u32,
}

impl Capabilities {
    /// No capability at all.
    pub fn unknown() -> (r: Capabilities)
        ensures
            r.bits == 0,
    {
        Capabilities { bits: 0 }
    }

    /// The features of either set.
    pub fn union(self, other: Capabilities) -> (r: Capabilities)
        ensures
            r.bits == self.bits | other.bits,
    {
        Capabilities { bits: self.bits | other.bits }
    }

    /// Whether every feature of `other` is in this set.
    pub fn contains(self, other: Capabilities) -> (r: bool)
        ensures
            r == (self.bits & other.bits == other.bits),
    {
        self.bits & other.bits == other.bits
    }
}

/// Cumulative chain work; only its order and its least value matter here.
#[derive(Clone, Copy, Debug, PartialEq, Eq, Structural)]
pub struct Difficulty {
    pub num: u64,
}

impl Difficulty {
    /// The neutral minimum.
    pub fn zero() -> (r: Difficulty)
        ensures
            r.num == 0,
    {
        Difficulty { num: 0 }
    }

    /// The least work a chain with a genesis block can have.
    pub fn one() -> (r: Difficulty)
        ensures
            r.num == 1,
    {
        Difficulty { num: 1 }
    }

    pub fn from_num(num: u64) -> (r: Difficulty)
        ensures
            r.num == num,
    {
        Difficulty { num }
    }

    /// Strictly less work than `other`.
    pub fn less_than(self, other: Difficulty) -> (r: bool)
        ensures
            r == (self.num < other.num),
    {
        self.num < other.num
    }
}

/// An IP address, version 4 or 6, as an integer.
#[derive(Clone, Copy, Debug, PartialEq, Eq, Structural)]
pub enum HostIp {
    V4(u32),
    V6(u128),
}

/// Host and port of a node.
#[derive(Clone, Copy, Debug, PartialEq, Eq, Structural)]
pub struct PeerAddr {
    pub ip: HostIp,
    pub port: u16,
}

impl PeerAddr {
    pub fn new(ip: HostIp, port: u16) -> (r: PeerAddr)
        ensures
            r.ip == ip,
            r.port == port,
    {
        PeerAddr { ip, port }
    }

    /// Same host and same port.
    pub fn same_as(self, other: PeerAddr) -> (r: bool)
        ensures
            r == (self == other),
    {
        self == other
    }
}

/// Listening endpoint of this node.
#[derive(Clone, Copy, Debug, PartialEq, Eq, Structural)]
pub struct P2PConfig {
    pub host: HostIp,
    pub port: u16,
}

impl P2PConfig {
    /// The address this node is reachable at.
    pub fn self_addr(self) -> (r: PeerAddr)
        ensures
            r.ip == self.host,
            r.port == self.port,
    {
        PeerAddr { ip: self.host, port: self.port }
    }
}

/// What a completed handshake tells about the remote node.
#[derive(Clone, Copy, Debug, PartialEq, Eq, Structural)]
pub struct PeerInfo {
    pub addr: PeerAddr,
    pub capabilities: Capabilities,
    pub total_difficulty: Difficulty,
}

} // verus!
