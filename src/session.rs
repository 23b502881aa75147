use crate::directory::{position_of, PeerDirectory};
use crate::fingerprint::fingerprint_of;
use crate::gossip::{
    deliver, is_participant, logged, names_contain, participant_position, GossipEngine, Message,
    PublishError, Reception,
};
use crate::topic::topic_hash;
use crate::pubsub::Gossipsub;
use vstd::prelude::*;
use vstd::utf8::encode_utf8;

verus! {

/// One input to the session loop: a report from discovery, gossip or the
/// transport, or a topic command issued by the local user.
pub enum Event {
    /// Discovery heard `peer` announce itself at `address`.
    PeerAppeared { peer: String, address: String },
    /// Discovery has not heard `peer` within its timeout.
    PeerExpired { peer: String },
    /// An identification exchange gave the display name of `peer`.
    PeerIdentified { peer: String, name: String },
    /// A gossiped message arrived from `source`, claiming `sender` as its
    /// author; `authentic` tells whether its signature verified.
    MessageArrived { source: String, sender: String, topic: String, payload: Vec<u8>, authentic: bool },
    /// A handshake with `peer` did not complete.
    ConnectionFailed { peer: String },
    /// The user creates a topic.
    CreateTopic { name: String },
    /// The user joins a topic.
    Subscribe { name: String },
    /// The user ends the session.
    Shutdown,
}

/// What the loop must do after an event.
pub enum Action {
    Nothing,
    /// Gossip with `peer` from now on.
    AddExplicitPeer { peer: String },
    /// Stop gossiping with `peer` and cancel what is pending for it.
    RemoveExplicitPeer { peer: String },
    /// Announce interest in `topic`.
    AnnounceSubscription { topic: String },
    /// A new message was appended to the log: show it.
    ShowMessage,
    /// Leave the loop.
    Stop,
}

/// The state of one running node: its name, the topics it created and
/// joined, its peer directory and its gossip state.
pub struct User {
    pub username: String,
    pub topics_made: Vec<String>,
    pub topics_joined: Vec<String>,
    pub directory: PeerDirectory,
    pub engine: GossipEngine,
    pub running: bool,
}

impl User {
    pub open spec fn wf(&self) -> bool {
        &&& self.directory.wf()
        &&& self.engine.wf()
        &&& forall|t: Seq<char>| names_contain(self.topics_joined@, t) == names_contain(self.engine.subscriptions@, t)
    }

    /// A node named `username` whose transport identity is `local_id`.
    pub fn new(username: String, local_id: String) -> (r: User)
        ensures
            r.wf(),
            r.username == username,
            r.engine.local_id == local_id,
            r.topics_made@.len() == 0,
            r.topics_joined@.len() == 0,
            r.directory.friends@.len() == 0,
            r.engine.participants@.len() == 0,
            r.engine.log@.len() == 0,
            r.engine.subscriptions@.len() == 0,
            r.engine.rejected == 0,
            r.running,
    {
        User {
            username,
            topics_made: Vec::new(),
            topics_joined: Vec::new(),
            directory: PeerDirectory::new(),
            engine: GossipEngine::new(local_id),
            running: true,
        }
    }

    /// Joins `name`: this node subscribes to it. Joining twice changes nothing.
    pub fn subscribe_topic(&mut self, name: String)
        requires
            old(self).wf(),
        ensures
            final(self).wf(),
            names_contain(final(self).topics_joined@, name@),
            names_contain(final(self).engine.subscriptions@, name@),
            names_contain(old(self).topics_joined@, name@) ==> final(self).topics_joined@ == old(self).topics_joined@,
            !names_contain(old(self).topics_joined@, name@) ==> final(self).topics_joined@ == old(self).topics_joined@.push(name),
            names_contain(old(self).topics_joined@, name@) ==> final(self).engine.subscriptions@ == old(self).engine.subscriptions@,
            !names_contain(old(self).topics_joined@, name@) ==> final(self).engine.subscriptions@ == old(self).engine.subscriptions@.push(name),
            final(self).topics_made@ == old(self).topics_made@,
            final(self).engine.rejected == old(self).engine.rejected,
            final(self).directory == old(self).directory,
            final(self).engine.participants@ == old(self).engine.participants@,
            final(self).engine.log@ == old(self).engine.log@,
            final(self).running == old(self).running,
            final(self).username == old(self).username,
            final(self).engine.local_id == old(self).engine.local_id,
    {
        let ghost joined = self.topics_joined@;
        let ghost subs = self.engine.subscriptions@;
        assert(names_contain(joined, name@) == names_contain(subs, name@));
        let fresh = self.engine.subscribe(name.clone());
        if fresh {
            let ghost n = joined.len() as int;
            self.topics_joined.push(name);
            proof {
                assert(self.topics_joined@[n]@ == name@);
                assert forall|t: Seq<char>| names_contain(self.topics_joined@, t) == names_contain(self.engine.subscriptions@, t) by {
                    let ns = self.engine.subscriptions@;
                    assert(names_contain(old(self).topics_joined@, t) == names_contain(old(self).engine.subscriptions@, t));
                    if names_contain(self.topics_joined@, t) {
                        let w = choose|w: int| 0 <= w < self.topics_joined@.len() && #[trigger] self.topics_joined@[w]@ == t;
                        if w < n {
                            assert(joined[w]@ == t);
                            assert(names_contain(joined, t));
                            let v = choose|v: int| 0 <= v < subs.len() && #[trigger] subs[v]@ == t;
                            assert(ns[v]@ == t);
                        } else {
                            assert(ns[subs.len() as int]@ == t);
                        }
                    }
                    if names_contain(ns, t) {
                        let w = choose|w: int| 0 <= w < ns.len() && #[trigger] ns[w]@ == t;
                        if w < subs.len() {
                            assert(subs[w]@ == t);
                            assert(names_contain(subs, t));
                            let v = choose|v: int| 0 <= v < joined.len() && #[trigger] joined[v]@ == t;
                            assert(self.topics_joined@[v]@ == t);
                        }
                    }
                }
            }
        }
    }

    /// Creates the topic `name` and joins it. Returns the handle under which
    /// the topic is published to.
    pub fn making_a_new_topic(&mut self, name: String) -> (r: usize)
        requires
            old(self).wf(),
            old(self).topics_made@.len() < usize::MAX,
        ensures
            final(self).wf(),
            r == old(self).topics_made@.len(),
            final(self).topics_made@.len() == old(self).topics_made@.len() + 1,
            final(self).topics_made@.take(r as int) == old(self).topics_made@,
            final(self).topics_made@[r as int]@ == name@,
            names_contain(final(self).topics_joined@, name@),
            names_contain(final(self).engine.subscriptions@, name@),
            names_contain(old(self).topics_joined@, name@) ==> final(self).topics_joined@ == old(self).topics_joined@,
            !names_contain(old(self).topics_joined@, name@) ==> final(self).topics_joined@ == old(self).topics_joined@.push(name),
            names_contain(old(self).topics_joined@, name@) ==> final(self).engine.subscriptions@ == old(self).engine.subscriptions@,
            !names_contain(old(self).topics_joined@, name@) ==> final(self).engine.subscriptions@ == old(self).engine.subscriptions@.push(name),
            final(self).directory == old(self).directory,
            final(self).engine.participants@ == old(self).engine.participants@,
            final(self).engine.log@ == old(self).engine.log@,
            final(self).engine.rejected == old(self).engine.rejected,
            final(self).running == old(self).running,
            final(self).username == old(self).username,
            final(self).engine.local_id == old(self).engine.local_id,
    {
        let r = self.topics_made.len();
        self.topics_made.push(topic_hash(&name));
        assert(self.topics_made@.take(r as int) =~= old(self).topics_made@);
        self.subscribe_topic(name);
        r
    }

    /// Publishes `message`, as its UTF-8 bytes, on the topic behind
    /// `topic_id` through gossipsub, as `GossipEngine::publish` says.
    pub fn sending_message(&mut self, gossip: &mut Gossipsub, message: String, topic_id: usize) -> (r: Result<u64, PublishError>)
        requires
            old(self).wf(),
            topic_id < old(self).topics_made@.len(),
        ensures
            final(self).wf(),
            ({
                let payload = encode_utf8(message@);
                let m = Message {
                    payload: final(self).engine.log@.last().payload,
                    sender: old(self).engine.local_id,
                    topic: old(self).topics_made@[topic_id as int],
                    fingerprint: fingerprint_of(payload),
                };
                &&& payload.len() > crate::MAX_FRAME_SIZE ==> r == Err::<u64, PublishError>(PublishError::PayloadTooLarge)
                    && *final(gossip) == *old(gossip)
                &&& r is Ok ==> r == Ok::<u64, PublishError>(fingerprint_of(payload))
                &&& r is Ok ==> logged(final(self).engine.log@, fingerprint_of(payload))
                &&& r is Ok && logged(old(self).engine.log@, fingerprint_of(payload))
                    ==> final(self).engine.log@ == old(self).engine.log@
                &&& r is Ok && !logged(old(self).engine.log@, fingerprint_of(payload))
                    ==> final(self).engine.log@ == old(self).engine.log@.push(m)
                        && final(self).engine.log@.last().payload@ == payload
                &&& r is Ok ==> final(self).engine.participants@ == old(self).engine.participants@
                    && final(self).engine.subscriptions@ == old(self).engine.subscriptions@
                    && final(self).engine.rejected == old(self).engine.rejected
                &&& r is Err ==> final(self).engine.same_as(old(self).engine)
            }),
            final(self).engine.local_id == old(self).engine.local_id,
            final(self).topics_made@ == old(self).topics_made@,
            final(self).topics_joined@ == old(self).topics_joined@,
            final(self).directory == old(self).directory,
            final(self).running == old(self).running,
            final(self).username == old(self).username,
    {
        let payload = vstd::slice::slice_to_vec(message.as_str().as_bytes());
        self.engine.publish(gossip, &self.topics_made[topic_id], payload)
    }

    /// Handles one event to completion and says what the loop must do next.
    /// Only `Shutdown` ends the session.
    pub fn handle_event(&mut self, ev: Event) -> (r: Action)
        requires
            old(self).wf(),
        ensures
            final(self).wf(),
            final(self).username == old(self).username,
            final(self).engine.local_id == old(self).engine.local_id,
            final(self).running == (old(self).running && !(ev is Shutdown)),
            !(ev is PeerAppeared) && !(ev is PeerExpired) ==> final(self).engine.participants@ == old(self).engine.participants@,
            !(ev is PeerAppeared) && !(ev is PeerExpired) && !(ev is PeerIdentified) ==> final(self).directory == old(self).directory,
            !(ev is CreateTopic) ==> final(self).topics_made@ == old(self).topics_made@,
            !(ev is CreateTopic) && !(ev is Subscribe) ==> final(self).engine.subscriptions@ == old(self).engine.subscriptions@
                && final(self).topics_joined@ == old(self).topics_joined@,
            !(ev is MessageArrived) ==> final(self).engine.log@ == old(self).engine.log@
                && final(self).engine.rejected == old(self).engine.rejected,
            match ev {
                Event::PeerAppeared { peer, address } => {
                    &&& r == Action::AddExplicitPeer { peer }
                    &&& final(self).directory.knows(peer@)
                    &&& final(self).directory.record(peer@).multiaddr == Some(address)
                    &&& !old(self).directory.knows(peer@) ==> final(self).directory.record(peer@).peer_username is None
                    &&& old(self).directory.knows(peer@) ==> final(self).directory.record(peer@).peer_username
                        == old(self).directory.record(peer@).peer_username
                    &&& is_participant(final(self).engine.participants@, peer@)
                    &&& is_participant(old(self).engine.participants@, peer@)
                        ==> final(self).engine.participants@ == old(self).engine.participants@
                    &&& !is_participant(old(self).engine.participants@, peer@) ==> {
                        let n = old(self).engine.participants@.len() as int;
                        &&& final(self).engine.participants@.len() == n + 1
                        &&& final(self).engine.participants@.take(n) == old(self).engine.participants@
                        &&& final(self).engine.participants@[n].peer_id@ == peer@
                    }
                },
                Event::PeerExpired { peer } => {
                    &&& r == Action::RemoveExplicitPeer { peer }
                    &&& !final(self).directory.knows(peer@)
                    &&& old(self).directory.knows(peer@) ==> final(self).directory.friends@
                        == old(self).directory.friends@.remove(position_of(old(self).directory.friends@, peer@))
                    &&& !old(self).directory.knows(peer@) ==> final(self).directory.friends@ == old(self).directory.friends@
                    &&& !is_participant(final(self).engine.participants@, peer@)
                    &&& is_participant(old(self).engine.participants@, peer@) ==> final(self).engine.participants@
                        == old(self).engine.participants@.remove(
                        participant_position(old(self).engine.participants@, peer@),
                    )
                    &&& !is_participant(old(self).engine.participants@, peer@)
                        ==> final(self).engine.participants@ == old(self).engine.participants@
                },
                Event::PeerIdentified { peer, name } => {
                    &&& r is Nothing
                    &&& old(self).directory.knows(peer@) ==> final(self).directory.friends@
                        == old(self).directory.friends@.update(
                        position_of(old(self).directory.friends@, peer@),
                        crate::directory::Friend { peer_username: Some(name), ..old(self).directory.record(peer@) },
                    )
                    &&& !old(self).directory.knows(peer@) ==> final(self).directory.friends@ == old(self).directory.friends@
                },
                Event::MessageArrived { source, sender, topic, payload, authentic } => {
                    let fp = fingerprint_of(payload@);
                    let admitted = authentic && is_participant(old(self).engine.participants@, source@)
                        && names_contain(old(self).engine.subscriptions@, topic@);
                    &&& (r is ShowMessage) == (admitted && !logged(old(self).engine.log@, fp))
                    &&& !(r is ShowMessage) ==> r is Nothing && final(self).engine.log@ == old(self).engine.log@
                    &&& admitted ==> final(self).engine.log@ == deliver(
                        old(self).engine.log@,
                        Message { payload, sender, topic, fingerprint: fp },
                    )
                    &&& admitted ==> logged(final(self).engine.log@, fp)
                    &&& !authentic ==> final(self).engine.rejected == (if old(self).engine.rejected < u64::MAX {
                        (old(self).engine.rejected + 1) as u64
                    } else {
                        old(self).engine.rejected
                    })
                    &&& authentic ==> final(self).engine.rejected == old(self).engine.rejected
                },
                Event::ConnectionFailed { peer } => r is Nothing,
                Event::CreateTopic { name } => {
                    &&& old(self).topics_made@.len() == usize::MAX ==> r is Nothing
                        && final(self).topics_made@ == old(self).topics_made@
                        && final(self).engine.subscriptions@ == old(self).engine.subscriptions@
                        && final(self).topics_joined@ == old(self).topics_joined@
                    &&& old(self).topics_made@.len() < usize::MAX ==> {
                        &&& r == Action::AnnounceSubscription { topic: name }
                        &&& final(self).topics_made@.len() == old(self).topics_made@.len() + 1
                        &&& final(self).topics_made@.take(old(self).topics_made@.len() as int) == old(self).topics_made@
                        &&& final(self).topics_made@.last()@ == name@
                        &&& names_contain(old(self).topics_joined@, name@) ==> final(self).engine.subscriptions@
                            == old(self).engine.subscriptions@
                        &&& !names_contain(old(self).topics_joined@, name@) ==> final(self).engine.subscriptions@
                            == old(self).engine.subscriptions@.push(name)
                    }
                },
                Event::Subscribe { name } => {
                    &&& r == Action::AnnounceSubscription { topic: name }
                    &&& names_contain(old(self).topics_joined@, name@) ==> final(self).engine.subscriptions@
                        == old(self).engine.subscriptions@ && final(self).topics_joined@ == old(self).topics_joined@
                    &&& !names_contain(old(self).topics_joined@, name@) ==> final(self).engine.subscriptions@
                        == old(self).engine.subscriptions@.push(name) && final(self).topics_joined@
                        == old(self).topics_joined@.push(name)
                },
                Event::Shutdown => r is Stop,
            },
    {
        match ev {
            Event::PeerAppeared { peer, address } => {
                self.directory.peer_appeared(peer.clone(), address);
                self.engine.add_explicit_peer(peer.clone());
                Action::AddExplicitPeer { peer }
            },
            Event::PeerExpired { peer } => {
                self.directory.peer_expired(&peer);
                self.engine.remove_explicit_peer(&peer);
                Action::RemoveExplicitPeer { peer }
            },
            Event::PeerIdentified { peer, name } => {
                self.directory.set_display_name(&peer, name);
                Action::Nothing
            },
            Event::MessageArrived { source, sender, topic, payload, authentic } => {
                match self.engine.receive(&source, sender, topic, payload, authentic) {
                    Reception::Delivered => Action::ShowMessage,
                    _ => Action::Nothing,
                }
            },
            Event::ConnectionFailed { .. } => Action::Nothing,
            Event::CreateTopic { name } => {
                if self.topics_made.len() == usize::MAX {
                    return Action::Nothing;
                }
                self.making_a_new_topic(name.clone());
                Action::AnnounceSubscription { topic: name }
            },
            Event::Subscribe { name } => {
                self.subscribe_topic(name.clone());
                Action::AnnounceSubscription { topic: name }
            },
            Event::Shutdown => {
                self.running = false;
                Action::Stop
            },
        }
    }

    /// The name under which messages of `peer` are shown: this node's own
    /// name for itself, a peer's display name once it is known, and otherwise
    /// the peer's identity.
    pub fn sender_display(&self, peer: &String) -> (r: String)
        requires
            self.wf(),
        ensures
            peer@ == self.engine.local_id@ ==> r == self.username,
            peer@ != self.engine.local_id@ && self.directory.knows(peer@)
                && self.directory.record(peer@).peer_username is Some ==> r
                == self.directory.record(peer@).peer_username->Some_0,
            peer@ != self.engine.local_id@ && !(self.directory.knows(peer@)
                && self.directory.record(peer@).peer_username is Some) ==> r@ == peer@,
    {
        if *peer == self.engine.local_id {
            return self.username.clone();
        }
        let mut i: usize = 0;
        while i < self.directory.friends.len()
            invariant
                i <= self.directory.friends@.len(),
                self.wf(),
                peer@ != self.engine.local_id@,
                forall|k: int| 0 <= k < i ==> self.directory.friends@[k].peer_id@ != peer@,
            decreases self.directory.friends@.len() - i,
        {
            if self.directory.friends[i].peer_id == *peer {
                proof {
                    let p = crate::directory::position_of(self.directory.friends@, peer@);
                    assert(self.directory.friends@[p].peer_id@ == peer@);
                    assert(p == i as int);
                }
                match &self.directory.friends[i].peer_username {
                    Some(name) => {
                        return name.clone();
                    },
                    None => {
                        return peer.clone();
                    },
                }
            }
            i = i + 1;
        }
        peer.clone()
    }
}

} // verus!
