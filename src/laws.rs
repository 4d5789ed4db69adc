//! Properties that relate the registry's operations to one another.
use vstd::prelude::*;
use crate::registry::{Peer, connected_of, disconnected_of, is_most_work};

verus! {

broadcast use vstd::seq_lib::group_to_multiset_ensures;

/// A prune keeps exactly the connected entries and removes exactly the
/// others: each entry of the registry ends up in one of the two parts, as
/// often as it was registered, and in no other.
pub proof fn lemma_prune_partitions(s: Seq<Peer>)
    ensures
        forall|p: Peer| connected_of(s).contains(p) ==> p.connected,
        forall|p: Peer| disconnected_of(s).contains(p) ==> !p.connected,
        connected_of(s).to_multiset().add(disconnected_of(s).to_multiset()) =~= s.to_multiset(),
        connected_of(s).len() + disconnected_of(s).len() == s.len(),
    decreases s.len(),
{
    if s.len() > 0 {
        let d = s.drop_last();
        lemma_prune_partitions(d);
        assert(s =~= d.push(s.last()));
        if s.last().connected {
            assert forall|p: Peer| connected_of(s).contains(p) implies p.connected by {
                if p != s.last() {
                    let i = choose|i: int| 0 <= i < connected_of(s).len() && connected_of(s)[i] == p;
                    assert(connected_of(d).contains(p)) by {
                        assert(connected_of(d)[i] == p);
                    }
                }
            }
        } else {
            assert forall|p: Peer| disconnected_of(s).contains(p) implies !p.connected by {
                if p != s.last() {
                    let i = choose|i: int|
                        0 <= i < disconnected_of(s).len() && disconnected_of(s)[i] == p;
                    assert(disconnected_of(d).contains(p)) by {
                        assert(disconnected_of(d)[i] == p);
                    }
                }
            }
        }
    }
}

/// A broadcast reaches every connected peer and no other: a peer is among
/// the targets exactly when it is registered and connected.
pub proof fn lemma_broadcast_reaches_connected(s: Seq<Peer>)
    ensures
        forall|p: Peer| #[trigger] connected_of(s).contains(p) <==> s.contains(p) && p.connected,
{
    lemma_prune_partitions(s);
    assert forall|p: Peer| #[trigger] connected_of(s).contains(p) <==> s.contains(p) && p.connected by {
        let m = s.to_multiset();
        let c = connected_of(s).to_multiset();
        let d = disconnected_of(s).to_multiset();
        if p.connected {
            assert(!disconnected_of(s).contains(p));
            assert(d.count(p) == 0);
        } else {
            assert(!connected_of(s).contains(p));
        }
        assert(m.count(p) == c.count(p) + d.count(p));
    }
}

/// The most-work peer is well defined: at most one entry is the connected
/// peer with the most work that no earlier connected peer equals.
pub proof fn lemma_most_work_unique(s: Seq<Peer>, i: int, j: int)
    requires
        is_most_work(s, i),
        is_most_work(s, j),
    ensures
        i == j,
{
    if i < j {
        assert(s[i].connected);
    } else if j < i {
        assert(s[j].connected);
    }
}

} // verus!
