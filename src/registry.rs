//! The registry of known peers. Entries keep their insertion order; a peer
//! that lost its connection stays until the next prune.
use vstd::prelude::*;
use crate::types::{PeerAddr, PeerInfo};

verus! {

/// One registered peer: the key its connection is known by outside the
/// registry, what its handshake told, and whether it is still connected.
#[derive(Clone, Copy, Debug, PartialEq, Eq, Structural)]
pub struct Peer {
    pub id: u64,
    pub info: PeerInfo,
    pub connected: bool,
}

impl Peer {
    pub fn is_connected(&self) -> (r: bool)
        ensures
            r == self.connected,
    {
        self.connected
    }
}

/// The entries of `s` that are connected, in order.
pub open spec fn connected_of(s: Seq<Peer>) -> Seq<Peer>
    decreases s.len(),
{
    if s.len() == 0 {
        s
    } else if s.last().connected {
        connected_of(s.drop_last()).push(s.last())
    } else {
        connected_of(s.drop_last())
    }
}

/// The entries of `s` that are not connected, in order.
pub open spec fn disconnected_of(s: Seq<Peer>) -> Seq<Peer>
    decreases s.len(),
{
    if s.len() == 0 {
        s
    } else if !s.last().connected {
        disconnected_of(s.drop_last()).push(s.last())
    } else {
        disconnected_of(s.drop_last())
    }
}

/// Some entry of `s` is connected.
pub open spec fn any_connected(s: Seq<Peer>) -> bool {
    exists|i: int| 0 <= i < s.len() && #[trigger] s[i].connected
}

/// Entry `i` is the connected peer with the most work, and no connected
/// peer before it has as much.
pub open spec fn is_most_work(s: Seq<Peer>, i: int) -> bool {
    &&& 0 <= i < s.len()
    &&& s[i].connected
    &&& forall|j: int|
        0 <= j < s.len() && #[trigger] s[j].connected ==> s[j].info.total_difficulty.num
            <= s[i].info.total_difficulty.num
    &&& forall|j: int|
        0 <= j < i && #[trigger] s[j].connected ==> s[j].info.total_difficulty.num
            < s[i].info.total_difficulty.num
}

/// Index of the first entry of `s` at address `a`, if there is one.
pub open spec fn first_at(s: Seq<Peer>, a: PeerAddr, i: int) -> bool {
    &&& 0 <= i < s.len()
    &&& s[i].info.addr == a
    &&& forall|j: int| 0 <= j < i ==> #[trigger] s[j].info.addr != a
}

/// Some entry of `s` is at address `a`.
pub open spec fn has_addr(s: Seq<Peer>, a: PeerAddr) -> bool {
    exists|i: int| 0 <= i < s.len() && #[trigger] s[i].info.addr == a
}

/// `t` is `s` with every entry under key `id` marked as disconnected.
pub open spec fn marked_disconnected(s: Seq<Peer>, t: Seq<Peer>, id: u64) -> bool {
    &&& t.len() == s.len()
    &&& forall|i: int|
        0 <= i < s.len() ==> #[trigger] t[i] == if s[i].id == id {
            Peer { connected: false, ..s[i] }
        } else {
            s[i]
        }
}

/// The peers in insertion order.
pub struct Registry {
    pub peers: Vec<Peer>,
}

impl Registry {
    pub open spec fn view(&self) -> Seq<Peer> {
        self.peers@
    }

    pub fn new() -> (r: Registry)
        ensures
            r@ == Seq::<Peer>::empty(),
    {
        Registry { peers: Vec::new() }
    }

    /// Appends a connected peer; no check for an entry at the same address.
    pub fn insert(&mut self, id: u64, info: PeerInfo) -> (r: Peer)
        ensures
            r == (Peer { id, info, connected: true }),
            final(self)@ == old(self)@.push(r),
    {
        let p = Peer { id, info, connected: true };
        self.peers.push(p);
        p
    }

    pub fn len(&self) -> (r: usize)
        ensures
            r == self@.len(),
    {
        self.peers.len()
    }

    /// The entry at `idx`, if there is one.
    pub fn get(&self, idx: usize) -> (r: Option<Peer>)
        ensures
            idx < self@.len() ==> r == Some(self@[idx as int]),
            idx >= self@.len() ==> r is None,
    {
        if idx < self.peers.len() {
            Some(self.peers[idx])
        } else {
            None
        }
    }

    /// The first entry at address `a`, if there is one.
    pub fn find(&self, a: PeerAddr) -> (r: Option<Peer>)
        ensures
            r is None <==> !has_addr(self@, a),
            r matches Some(p) ==> exists|i: int| first_at(self@, a, i) && p == self@[i],
    {
        let mut i: usize = 0;
        while i < self.peers.len()
            invariant
                0 <= i <= self@.len(),
                forall|j: int| 0 <= j < i ==> #[trigger] self@[j].info.addr != a,
            decreases self@.len() - i,
        {
            if self.peers[i].info.addr.same_as(a) {
                assert(first_at(self@, a, i as int));
                return Some(self.peers[i]);
            }
            i = i + 1;
        }
        None
    }

    /// Keeps the connected entries and returns the others, both in order.
    pub fn prune(&mut self) -> (removed: Vec<Peer>)
        ensures
            final(self)@ == connected_of(old(self)@),
            removed@ == disconnected_of(old(self)@),
    {
        let s = Ghost(self@);
        let mut keep: Vec<Peer> = Vec::new();
        let mut rm: Vec<Peer> = Vec::new();
        let mut i: usize = 0;
        while i < self.peers.len()
            invariant
                self@ == s@,
                0 <= i <= s@.len(),
                keep@ == connected_of(s@.subrange(0, i as int)),
                rm@ == disconnected_of(s@.subrange(0, i as int)),
            decreases s@.len() - i,
        {
            let p = self.peers[i];
            assert(s@.subrange(0, i + 1).drop_last() =~= s@.subrange(0, i as int));
            if p.is_connected() {
                keep.push(p);
            } else {
                rm.push(p);
            }
            i = i + 1;
        }
        assert(s@.subrange(0, s@.len() as int) =~= s@);
        self.peers = keep;
        rm
    }

    /// The connected entries, in order.
    pub fn connected(&self) -> (r: Vec<Peer>)
        ensures
            r@ == connected_of(self@),
    {
        let mut out: Vec<Peer> = Vec::new();
        let mut i: usize = 0;
        while i < self.peers.len()
            invariant
                0 <= i <= self@.len(),
                out@ == connected_of(self@.subrange(0, i as int)),
            decreases self@.len() - i,
        {
            assert(self@.subrange(0, i + 1).drop_last() =~= self@.subrange(0, i as int));
            if self.peers[i].is_connected() {
                out.push(self.peers[i]);
            }
            i = i + 1;
        }
        assert(self@.subrange(0, self@.len() as int) =~= self@);
        out
    }

    /// The connected peer with the most work, the first of equals; the
    /// first entry where none is connected; none when empty.
    pub fn most_work(&self) -> (r: Option<Peer>)
        ensures
            r is None <==> self@.len() == 0,
            any_connected(self@) ==> exists|i: int| is_most_work(self@, i) && r == Some(self@[i]),
            !any_connected(self@) && self@.len() > 0 ==> r == Some(self@[0]),
    {
        if self.peers.len() == 0 {
            return None;
        }
        let mut best: Option<usize> = None;
        let mut i: usize = 0;
        while i < self.peers.len()
            invariant
                0 <= i <= self@.len(),
                best is None ==> forall|j: int| 0 <= j < i ==> !(#[trigger] self@[j].connected),
                best matches Some(b) ==> b < i && is_most_work(self@.subrange(0, i as int), b as int),
            decreases self@.len() - i,
        {
            let p = self.peers[i];
            if p.is_connected() {
                match best {
                    None => {
                        best = Some(i);
                    },
                    Some(b) => {
                        if self.peers[b].info.total_difficulty.less_than(p.info.total_difficulty) {
                            best = Some(i);
                        }
                    },
                }
            }
            proof {
                let t = self@.subrange(0, i + 1);
                let u = self@.subrange(0, i as int);
                if let Some(b) = best {
                    assert forall|j: int| 0 <= j < t.len() && #[trigger] t[j].connected implies
                        t[j].info.total_difficulty.num <= t[b as int].info.total_difficulty.num by {
                        if j < i {
                            assert(u[j] == t[j]);
                        }
                    }
                    assert forall|j: int| 0 <= j < b && #[trigger] t[j].connected implies
                        t[j].info.total_difficulty.num < t[b as int].info.total_difficulty.num by {
                        assert(u[j] == t[j]);
                    }
                }
            }
            i = i + 1;
        }
        assert(self@.subrange(0, self@.len() as int) =~= self@);
        match best {
            None => Some(self.peers[0]),
            Some(b) => Some(self.peers[b]),
        }
    }

    /// Marks every entry under key `id` as disconnected.
    pub fn mark_disconnected(&mut self, id: u64)
        ensures
            marked_disconnected(old(self)@, final(self)@, id),
    {
        let mut i: usize = 0;
        while i < self.peers.len()
            invariant
                0 <= i <= self@.len(),
                self@.len() == old(self)@.len(),
                forall|j: int|
                    0 <= j < i ==> #[trigger] self@[j] == if old(self)@[j].id == id {
                        Peer { connected: false, ..old(self)@[j] }
                    } else {
                        old(self)@[j]
                    },
                forall|j: int| i <= j < self@.len() ==> #[trigger] self@[j] == old(self)@[j],
            decreases self@.len() - i,
        {
            if self.peers[i].id == id {
                let p = self.peers[i];
                self.peers.set(i, Peer { connected: false, ..p });
            }
            i = i + 1;
        }
    }
}

} // verus!
