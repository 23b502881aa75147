use vstd::prelude::*;

verus! {

/// What the local node knows of one peer. `peer_id` is the peer's identity in
/// its textual form; the display name and the address may be learned later.
pub struct Friend {
    pub peer_id: String,
    pub peer_username: Option<String>,
    pub multiaddr: Option<String>,
}

impl Friend {
    /// A record whose name and address are both known.
    pub fn new(peer_id: String, peer_username: String, multi_address: String) -> (r: Friend)
        ensures
            r.peer_id@ == peer_id@,
            r.peer_username == Some(peer_username),
            r.multiaddr == Some(multi_address),
    {
        Friend { peer_id, peer_username: Some(peer_username), multiaddr: Some(multi_address) }
    }
}

/// Whether `id` is the identity of some record of `friends`.
pub open spec fn has_peer(friends: Seq<Friend>, id: Seq<char>) -> bool {
    exists|i: int| 0 <= i < friends.len() && #[trigger] friends[i].peer_id@ == id
}

/// The position of the record of `id`, for an `id` that has one.
pub open spec fn position_of(friends: Seq<Friend>, id: Seq<char>) -> int {
    choose|i: int| 0 <= i < friends.len() && #[trigger] friends[i].peer_id@ == id
}

/// No two records share an identity.
pub open spec fn unique_ids(friends: Seq<Friend>) -> bool {
    forall|i: int, j: int|
        0 <= i < friends.len() && 0 <= j < friends.len() && #[trigger] friends[i].peer_id@
            == #[trigger] friends[j].peer_id@ ==> i == j
}

/// Finds the record of `id` by a linear scan.
fn find_friend(friends: &Vec<Friend>, id: &String) -> (r: Option<usize>)
    ensures
        match r {
            Some(i) => i < friends@.len() && friends@[i as int].peer_id@ == id@,
            None => !has_peer(friends@, id@),
        },
{
    let mut i: usize = 0;
    while i < friends.len()
        invariant
            i <= friends@.len(),
            forall|k: int| 0 <= k < i ==> friends@[k].peer_id@ != id@,
        decreases friends@.len() - i,
    {
        if friends[i].peer_id == *id {
            return Some(i);
        }
        i = i + 1;
    }
    None
}

/// The local node's view of the network: at most one record per identity.
pub struct PeerDirectory {
    pub friends: Vec<Friend>,
}

impl PeerDirectory {
    pub open spec fn wf(&self) -> bool {
        unique_ids(self.friends@)
    }

    pub open spec fn knows(&self, id: Seq<char>) -> bool {
        has_peer(self.friends@, id)
    }

    /// The record of a known `id`.
    pub open spec fn record(&self, id: Seq<char>) -> Friend {
        self.friends@[position_of(self.friends@, id)]
    }

    pub fn new() -> (r: PeerDirectory)
        ensures
            r.wf(),
            r.friends@.len() == 0,
    {
        PeerDirectory { friends: Vec::new() }
    }

    /// Whether a record of `id` exists.
    pub fn contains(&self, id: &String) -> (r: bool)
        ensures
            r == self.knows(id@),
    {
        find_friend(&self.friends, id).is_some()
    }

    /// Applies a discovery report that `id` is reachable at `address`. A new
    /// peer gets a record with no name; a known one has its address replaced.
    pub fn peer_appeared(&mut self, id: String, address: String)
        requires
            old(self).wf(),
        ensures
            final(self).wf(),
            final(self).knows(id@),
            final(self).record(id@).multiaddr == Some(address),
            old(self).knows(id@) ==> final(self).friends@.len() == old(self).friends@.len()
                && final(self).record(id@).peer_username == old(self).record(id@).peer_username,
            !old(self).knows(id@) ==> final(self).friends@ == old(self).friends@.push(
                Friend { peer_id: id, peer_username: None, multiaddr: Some(address) },
            ),
            forall|x: Seq<char>|
                x != id@ ==> (final(self).knows(x) == old(self).knows(x)) && (old(self).knows(x)
                    ==> final(self).record(x) == old(self).record(x)),
    {
        match find_friend(&self.friends, &id) {
            Some(i) => {
                let ghost before = self.friends@;
                let f = self.friends.remove(i);
                let updated = Friend { peer_id: f.peer_id, peer_username: f.peer_username, multiaddr: Some(address) };
                self.friends.insert(i, updated);
                proof {
                    assert(forall|k: int| 0 <= k < before.len() && k != i ==> self.friends@[k] == before[k]);
                    assert(self.friends@.len() == before.len());
                    assert(self.friends@[i as int] == updated);
                    assert(forall|k: int| 0 <= k < before.len() ==> self.friends@[k].peer_id@ == before[k].peer_id@);
                    assert(position_of(before, id@) == i as int);
                    assert(has_peer(self.friends@, id@));
                    assert(position_of(self.friends@, id@) == i as int);
                    assert forall|x: Seq<char>| x != id@ && has_peer(before, x) implies
                        has_peer(self.friends@, x) && self.friends@[position_of(self.friends@, x)]
                        == before[position_of(before, x)] by {
                        let p = position_of(before, x);
                        assert(self.friends@[p].peer_id@ == x);
                        assert(position_of(self.friends@, x) == p);
                    }
                    assert forall|x: Seq<char>| x != id@ && has_peer(self.friends@, x) implies
                        has_peer(before, x) by {
                        let p = position_of(self.friends@, x);
                        assert(before[p].peer_id@ == x);
                    }
                }
            },
            None => {
                let ghost before = self.friends@;
                self.friends.push(Friend { peer_id: id, peer_username: None, multiaddr: Some(address) });
                proof {
                    let n = before.len() as int;
                    assert(self.friends@[n].peer_id@ == id@);
                    assert(position_of(self.friends@, id@) == n);
                    assert forall|x: Seq<char>| x != id@ && has_peer(before, x) implies
                        has_peer(self.friends@, x) && self.friends@[position_of(self.friends@, x)]
                        == before[position_of(before, x)] by {
                        let p = position_of(before, x);
                        assert(self.friends@[p].peer_id@ == x);
                        assert(position_of(self.friends@, x) == p);
                    }
                    assert forall|x: Seq<char>| x != id@ && has_peer(self.friends@, x) implies
                        has_peer(before, x) by {
                        let p = position_of(self.friends@, x);
                        assert(p != n);
                        assert(before[p].peer_id@ == x);
                    }
                }
            },
        }
    }

    /// Applies a discovery report that `id` has expired: its record goes.
    pub fn peer_expired(&mut self, id: &String)
        requires
            old(self).wf(),
        ensures
            final(self).wf(),
            !final(self).knows(id@),
            old(self).knows(id@) ==> final(self).friends@ == old(self).friends@.remove(
                position_of(old(self).friends@, id@),
            ),
            !old(self).knows(id@) ==> final(self).friends@ == old(self).friends@,
            forall|x: Seq<char>| x != id@ ==> (final(self).knows(x) == old(self).knows(x)),
    {
        match find_friend(&self.friends, id) {
            Some(i) => {
                let ghost before = self.friends@;
                proof {
                    assert(position_of(before, id@) == i as int);
                }
                self.friends.remove(i);
                proof {
                    let after = self.friends@;
                    assert(forall|k: int| 0 <= k < after.len() ==> after[k] == before[if k < i { k } else { k + 1 }]);
                    assert forall|x: Seq<char>| x != id@ && has_peer(before, x) implies has_peer(after, x) by {
                        let p = position_of(before, x);
                        if p < i {
                            assert(after[p].peer_id@ == x);
                        } else {
                            assert(p != i);
                            assert(after[p - 1].peer_id@ == x);
                        }
                    }
                    assert forall|x: Seq<char>| has_peer(after, x) implies has_peer(before, x) && x != id@ by {
                        let p = position_of(after, x);
                        let q = if p < i { p } else { p + 1 };
                        assert(before[q].peer_id@ == x);
                    }
                    assert forall|a: int, b: int|
                        0 <= a < after.len() && 0 <= b < after.len() && after[a].peer_id@ == after[b].peer_id@
                        implies a == b by {
                        let qa = if a < i { a } else { a + 1 };
                        let qb = if b < i { b } else { b + 1 };
                        assert(before[qa].peer_id@ == before[qb].peer_id@);
                    }
                }
            },
            None => {},
        }
    }

    /// Records the display name that an identification exchange gave for a
    /// known peer. Returns whether the peer was known.
    pub fn set_display_name(&mut self, id: &String, name: String) -> (r: bool)
        requires
            old(self).wf(),
        ensures
            final(self).wf(),
            r == old(self).knows(id@),
            r ==> final(self).friends@ == old(self).friends@.update(
                position_of(old(self).friends@, id@),
                Friend {
                    peer_username: Some(name),
                    ..old(self).record(id@)
                },
            ),
            r ==> final(self).knows(id@) && final(self).record(id@).peer_username == Some(name),
            !r ==> final(self).friends@ == old(self).friends@,
    {
        match find_friend(&self.friends, id) {
            Some(i) => {
                let ghost before = self.friends@;
                proof {
                    assert(position_of(before, id@) == i as int);
                }
                let f = self.friends.remove(i);
                let updated = Friend { peer_id: f.peer_id, peer_username: Some(name), multiaddr: f.multiaddr };
                self.friends.insert(i, updated);
                proof {
                    assert(self.friends@ =~= before.update(i as int, updated));
                    assert(self.friends@[i as int].peer_id@ == id@);
                    assert(has_peer(self.friends@, id@));
                    let p = position_of(self.friends@, id@);
                    assert(before[p].peer_id@ == id@);
                }
                true
            },
            None => false,
        }
    }
}

} // verus!
