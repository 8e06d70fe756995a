//! The peer set: the identifiers of currently reachable peers, maintained
//! from discovery add/expire events, with no ordering guarantee.

use vstd::prelude::*;

use crate::strutil::str_eq;

verus! {

/// Whether some entry of `s` has exactly the characters `v`.
pub open spec fn contains_id(s: Seq<String>, v: Seq<char>) -> bool {
    exists|i: int| 0 <= i < s.len() && #[trigger] s[i]@ == v
}

/// No two entries hold the same identifier.
pub open spec fn no_dup_ids(s: Seq<String>) -> bool {
    forall|i: int, j: int| 0 <= i < j < s.len() ==> #[trigger] s[i]@ != #[trigger] s[j]@
}

/// A set of peer identifiers, each held once.
pub struct PeerSet {
    pub peers: Vec<String>,
}

impl PeerSet {
    /// The membership invariant: no identifier is held twice.
    pub open spec fn wf(&self) -> bool {
        no_dup_ids(self.peers@)
    }

    /// An empty peer set.
    pub fn new() -> (r: PeerSet)
        ensures
            r.wf(),
            r.peers@.len() == 0,
    {
        PeerSet { peers: Vec::new() }
    }

    /// Whether `id` is a reachable peer.
    pub fn contains(&self, id: &str) -> (r: bool)
        ensures
            r == contains_id(self.peers@, id@),
    {
        let mut i: usize = 0;
        while i < self.peers.len()
            invariant
                0 <= i <= self.peers@.len(),
                forall|j: int| 0 <= j < i ==> #[trigger] self.peers@[j]@ != id@,
            decreases self.peers@.len() - i,
        {
            if str_eq(self.peers[i].as_str(), id) {
                return true;
            }
            i = i + 1;
        }
        false
    }

    /// A discovery "peer appeared" event: adds the identifier unless it is
    /// already present, so a stale duplicate discovery is harmless.
    pub fn add_peer(&mut self, id: String)
        requires
            old(self).wf(),
        ensures
            final(self).wf(),
            forall|v: Seq<char>|
                #[trigger] contains_id(final(self).peers@, v) <==> (contains_id(
                    old(self).peers@,
                    v,
                ) || v == id@),
    {
        if !self.contains(id.as_str()) {
            self.peers.push(id);
            assert forall|v: Seq<char>| #[trigger]
                contains_id(self.peers@, v) implies (contains_id(old(self).peers@, v) || v == id@) by {
                let i = choose|i: int| 0 <= i < self.peers@.len() && self.peers@[i]@ == v;
                if i < old(self).peers@.len() {
                    assert(old(self).peers@[i]@ == v);
                }
            }
            assert forall|v: Seq<char>| (contains_id(old(self).peers@, v) || v == id@) implies #[trigger]
                contains_id(self.peers@, v) by {
                if contains_id(old(self).peers@, v) {
                    let i = choose|i: int| 0 <= i < old(self).peers@.len() && old(self).peers@[i]@ == v;
                    assert(self.peers@[i]@ == v);
                } else {
                    assert(self.peers@[self.peers@.len() - 1]@ == v);
                }
            }
        } else {
            assert forall|v: Seq<char>| (contains_id(old(self).peers@, v) || v == id@) implies #[trigger]
                contains_id(self.peers@, v) by {}
        }
    }

    /// A discovery "peer expired" event: removes the identifier, but only
    /// when discovery no longer lists it as reachable — a stale expiry racing
    /// a fresh re-discovery must not evict the peer.
    pub fn expire_peer(&mut self, id: &str, still_reachable: bool)
        requires
            old(self).wf(),
        ensures
            final(self).wf(),
            still_reachable ==> final(self).peers@ == old(self).peers@,
            !still_reachable ==> forall|v: Seq<char>|
                #[trigger] contains_id(final(self).peers@, v) <==> (contains_id(
                    old(self).peers@,
                    v,
                ) && v != id@),
    {
        if still_reachable {
            return ;
        }
        let mut i: usize = 0;
        while i < self.peers.len()
            invariant
                !still_reachable,
                self.wf(),
                self.peers@ == old(self).peers@,
                0 <= i <= self.peers@.len(),
                forall|j: int| 0 <= j < i ==> #[trigger] self.peers@[j]@ != id@,
            decreases self.peers@.len() - i,
        {
            if str_eq(self.peers[i].as_str(), id) {
                let ghost before = self.peers@;
                self.peers.remove(i);
                proof {
                    let ghost after = self.peers@;
                    assert(after =~= before.subrange(0, i as int) + before.subrange(
                        i + 1,
                        before.len() as int,
                    ));
                    assert forall|v: Seq<char>| #[trigger]
                        contains_id(after, v) implies (contains_id(before, v) && v != id@) by {
                        let k = choose|k: int| 0 <= k < after.len() && after[k]@ == v;
                        if k < i {
                            assert(before[k]@ == v);
                        } else {
                            assert(before[k + 1]@ == v);
                        }
                    }
                    assert forall|v: Seq<char>| (contains_id(before, v) && v != id@) implies #[trigger]
                        contains_id(after, v) by {
                        let k = choose|k: int| 0 <= k < before.len() && before[k]@ == v;
                        if k < i {
                            assert(after[k]@ == v);
                        } else {
                            assert(before[i as int]@ == id@);
                            assert(k != i);
                            assert(after[k - 1]@ == v);
                        }
                    }
                    assert forall|x: int, y: int|
                        0 <= x < y < after.len() implies #[trigger] after[x]@ != #[trigger] after[y]@ by {
                        let bx = if x < i { x } else { x + 1 };
                        let by_ = if y < i { y } else { y + 1 };
                        assert(after[x]@ == before[bx]@);
                        assert(after[y]@ == before[by_]@);
                    }
                }
                return ;
            }
            i = i + 1;
        }
        assert forall|v: Seq<char>| (contains_id(old(self).peers@, v) && v != id@) implies #[trigger]
            contains_id(self.peers@, v) by {}
        assert forall|v: Seq<char>| #[trigger]
            contains_id(self.peers@, v) implies (contains_id(old(self).peers@, v) && v != id@) by {
            let k = choose|k: int| 0 <= k < self.peers@.len() && self.peers@[k]@ == v;
        }
    }

    /// The identifiers currently held, one entry each, for listing.
    pub fn list(&self) -> (r: Vec<String>)
        ensures
            r@.len() == self.peers@.len(),
            forall|i: int| 0 <= i < r@.len() ==> #[trigger] r@[i]@ == self.peers@[i]@,
    {
        let mut out: Vec<String> = Vec::new();
        let mut i: usize = 0;
        while i < self.peers.len()
            invariant
                0 <= i <= self.peers@.len(),
                out@.len() == i,
                forall|j: int| 0 <= j < i ==> #[trigger] out@[j]@ == self.peers@[j]@,
            decreases self.peers@.len() - i,
        {
            out.push(self.peers[i].clone());
            i = i + 1;
        }
        out
    }

    /// How many peers are reachable.
    pub fn len(&self) -> (r: usize)
        ensures
            r == self.peers@.len(),
    {
        self.peers.len()
    }
}

/// The distinct identifiers among `nodes`, first occurrence each: the
/// computational core of listing discovered peers, which may report one peer
/// many times.
pub fn unique_peers(nodes: &Vec<String>) -> (r: Vec<String>)
    ensures
        no_dup_ids(r@),
        forall|v: Seq<char>| #[trigger] contains_id(r@, v) <==> contains_id(nodes@, v),
{
    let mut set = PeerSet::new();
    let mut i: usize = 0;
    proof {
        assert forall|v: Seq<char>| !contains_id(nodes@.take(0), v) by {}
    }
    while i < nodes.len()
        invariant
            set.wf(),
            0 <= i <= nodes@.len(),
            forall|v: Seq<char>|
                #[trigger] contains_id(set.peers@, v) <==> contains_id(nodes@.take(i as int), v),
        decreases nodes@.len() - i,
    {
        let ghost prev = set.peers@;
        set.add_peer(nodes[i].clone());
        proof {
            assert(nodes@.take(i + 1 as int) =~= nodes@.take(i as int).push(nodes@[i as int]));
            assert forall|v: Seq<char>| #[trigger]
                contains_id(nodes@.take(i + 1 as int), v) implies contains_id(set.peers@, v) by {
                let k = choose|k: int|
                    0 <= k < nodes@.take(i + 1 as int).len() && #[trigger] nodes@.take(
                        i + 1 as int,
                    )[k]@ == v;
                if k < i {
                    assert(contains_id(nodes@.take(i as int), v));
                } else {
                    assert(v == nodes@[i as int]@);
                }
            }
            assert forall|v: Seq<char>| #[trigger]
                contains_id(set.peers@, v) implies contains_id(nodes@.take(i + 1 as int), v) by {
                if contains_id(nodes@.take(i as int), v) {
                    let k = choose|k: int|
                        0 <= k < nodes@.take(i as int).len() && nodes@.take(i as int)[k]@ == v;
                    assert(nodes@.take(i + 1 as int)[k]@ == v);
                } else {
                    assert(nodes@.take(i + 1 as int)[i as int]@ == v);
                }
            }
        }
        i = i + 1;
    }
    proof {
        assert(nodes@.take(nodes@.len() as int) =~= nodes@);
    }
    set.peers
}

} // verus!
