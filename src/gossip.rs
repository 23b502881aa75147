use crate::fingerprint::{fingerprint, fingerprint_of};
use crate::pubsub::gossip_publish;
use crate::MAX_FRAME_SIZE;
use crate::pubsub::Gossipsub;
use vstd::prelude::*;

verus! {

/// A peer admitted to gossip by discovery.
pub struct Participant {
    pub peer_id: String,
}

/// A message as it stands in the log; never changed once logged.
pub struct Message {
    pub payload: Vec<u8>,
    pub sender: String,
    pub topic: String,
    pub fingerprint: u64,
}

/// Why a publish was refused. Each leaves the node's log as it was.
pub enum PublishError {
    /// No peer is subscribed to the topic.
    NoSubscribers,
    /// The payload is larger than one frame may carry.
    PayloadTooLarge,
    /// The outbound queues of all eligible peers are full.
    Backpressure,
    /// A message with the same fingerprint was published before.
    Duplicate,
    /// The message could not be signed.
    SigningFailed,
    /// The outbound transform of the payload failed.
    TransformFailed,
}

/// What became of an inbound message.
pub enum Reception {
    /// The signature did not verify: dropped and counted.
    Rejected,
    /// The propagation source is not an admitted peer.
    NotAdmitted,
    /// This node is not subscribed to the message's topic.
    NotSubscribed,
    /// The fingerprint was logged before: dropped.
    Duplicate,
    /// Appended to the log.
    Delivered,
}

/// Whether some element of `names` has the text `s`.
pub open spec fn names_contain(names: Seq<String>, s: Seq<char>) -> bool {
    exists|i: int| 0 <= i < names.len() && #[trigger] names[i]@ == s
}

/// Whether `id` is an admitted peer.
pub open spec fn is_participant(parts: Seq<Participant>, id: Seq<char>) -> bool {
    exists|i: int| 0 <= i < parts.len() && #[trigger] parts[i].peer_id@ == id
}

/// The position of an admitted peer's entry.
pub open spec fn participant_position(parts: Seq<Participant>, id: Seq<char>) -> int {
    choose|i: int| 0 <= i < parts.len() && #[trigger] parts[i].peer_id@ == id
}

/// Whether some log entry has fingerprint `fp`.
pub open spec fn logged(log: Seq<Message>, fp: u64) -> bool {
    exists|i: int| 0 <= i < log.len() && #[trigger] log[i].fingerprint == fp
}

/// The log after `m` is offered to it: appended unless its fingerprint is
/// there already.
pub open spec fn deliver(log: Seq<Message>, m: Message) -> Seq<Message> {
    if logged(log, m.fingerprint) {
        log
    } else {
        log.push(m)
    }
}

/// The log after `m` is offered to it `k` times, over any paths.
pub open spec fn deliver_times(log: Seq<Message>, m: Message, k: nat) -> Seq<Message>
    decreases k,
{
    if k == 0 {
        log
    } else {
        deliver(deliver_times(log, m, (k - 1) as nat), m)
    }
}

/// Whether exactly one log entry has fingerprint `fp`.
pub open spec fn logged_once(log: Seq<Message>, fp: u64) -> bool {
    exists|i: int|
        0 <= i < log.len() && #[trigger] log[i].fingerprint == fp && forall|j: int|
            0 <= j < log.len() && #[trigger] log[j].fingerprint == fp ==> j == i
}

pub open spec fn log_wf(log: Seq<Message>) -> bool {
    &&& forall|i: int, j: int|
        0 <= i < log.len() && 0 <= j < log.len() && #[trigger] log[i].fingerprint
            == #[trigger] log[j].fingerprint ==> i == j
    &&& forall|i: int| 0 <= i < log.len() ==> #[trigger] log[i].fingerprint == fingerprint_of(log[i].payload@)
}

/// No two admitted peers share an identity.
pub open spec fn participants_wf(parts: Seq<Participant>) -> bool {
    forall|i: int, j: int|
        0 <= i < parts.len() && 0 <= j < parts.len() && #[trigger] parts[i].peer_id@
            == #[trigger] parts[j].peer_id@ ==> i == j
}

fn contains_name(names: &Vec<String>, s: &String) -> (r: bool)
    ensures
        r == names_contain(names@, s@),
{
    let mut i: usize = 0;
    while i < names.len()
        invariant
            i <= names@.len(),
            forall|k: int| 0 <= k < i ==> names@[k]@ != s@,
        decreases names@.len() - i,
    {
        if names[i] == *s {
            return true;
        }
        i = i + 1;
    }
    false
}

fn find_participant(parts: &Vec<Participant>, id: &String) -> (r: Option<usize>)
    ensures
        match r {
            Some(i) => i < parts@.len() && parts@[i as int].peer_id@ == id@,
            None => !is_participant(parts@, id@),
        },
{
    let mut i: usize = 0;
    while i < parts.len()
        invariant
            i <= parts@.len(),
            forall|k: int| 0 <= k < i ==> parts@[k].peer_id@ != id@,
        decreases parts@.len() - i,
    {
        if parts[i].peer_id == *id {
            return Some(i);
        }
        i = i + 1;
    }
    None
}


fn is_logged(log: &Vec<Message>, fp: u64) -> (r: bool)
    ensures
        r == logged(log@, fp),
{
    let mut i: usize = 0;
    while i < log.len()
        invariant
            i <= log@.len(),
            forall|k: int| 0 <= k < i ==> log@[k].fingerprint != fp,
        decreases log@.len() - i,
    {
        if log[i].fingerprint == fp {
            return true;
        }
        i = i + 1;
    }
    false
}

/// One node's gossip state: its topics, the peers it gossips with, and the
/// log of messages it has accepted.
pub struct GossipEngine {
    pub local_id: String,
    pub subscriptions: Vec<String>,
    pub participants: Vec<Participant>,
    pub log: Vec<Message>,
    pub rejected: u64,
}

impl GossipEngine {
    pub open spec fn wf(&self) -> bool {
        &&& participants_wf(self.participants@)
        &&& log_wf(self.log@)
    }

    /// Whether `self` holds what `other` holds.
    pub open spec fn same_as(&self, other: GossipEngine) -> bool {
        &&& self.local_id == other.local_id
        &&& self.subscriptions@ == other.subscriptions@
        &&& self.participants@ == other.participants@
        &&& self.log@ == other.log@
        &&& self.rejected == other.rejected
    }

    pub fn new(local_id: String) -> (r: GossipEngine)
        ensures
            r.wf(),
            r.local_id == local_id,
            r.subscriptions@.len() == 0,
            r.participants@.len() == 0,
            r.log@.len() == 0,
            r.rejected == 0,
    {
        GossipEngine {
            local_id,
            subscriptions: Vec::new(),
            participants: Vec::new(),
            log: Vec::new(),
            rejected: 0,
        }
    }

    /// Whether this node is subscribed to `topic`.
    pub fn is_subscribed(&self, topic: &String) -> (r: bool)
        ensures
            r == names_contain(self.subscriptions@, topic@),
    {
        contains_name(&self.subscriptions, topic)
    }

    /// Subscribes this node to `topic`; subscribing again changes nothing.
    /// Returns whether the subscription is new.
    pub fn subscribe(&mut self, topic: String) -> (r: bool)
        requires
            old(self).wf(),
        ensures
            final(self).wf(),
            r == !names_contain(old(self).subscriptions@, topic@),
            r ==> final(self).subscriptions@ == old(self).subscriptions@.push(topic),
            !r ==> final(self).subscriptions@ == old(self).subscriptions@,
            names_contain(final(self).subscriptions@, topic@),
            final(self).participants@ == old(self).participants@,
            final(self).log@ == old(self).log@,
            final(self).local_id == old(self).local_id,
            final(self).rejected == old(self).rejected,
    {
        if contains_name(&self.subscriptions, &topic) {
            false
        } else {
            let ghost n = self.subscriptions@.len() as int;
            self.subscriptions.push(topic);
            assert(self.subscriptions@[n]@ == topic@);
            true
        }
    }
    /// Admits `id` to gossip, as discovery asks when it reports the peer.
    /// Admitting an admitted peer changes nothing.
    pub fn add_explicit_peer(&mut self, id: String)
        requires
            old(self).wf(),
        ensures
            final(self).wf(),
            is_participant(final(self).participants@, id@),
            is_participant(old(self).participants@, id@) ==> final(self).participants@ == old(
                self,
            ).participants@,
            !is_participant(old(self).participants@, id@) ==> {
                let n = old(self).participants@.len() as int;
                &&& final(self).participants@.len() == n + 1
                &&& final(self).participants@.take(n) == old(self).participants@
                &&& final(self).participants@[n].peer_id == id
            },
            final(self).subscriptions@ == old(self).subscriptions@,
            final(self).log@ == old(self).log@,
            final(self).local_id == old(self).local_id,
            final(self).rejected == old(self).rejected,
    {
        match find_participant(&self.participants, &id) {
            Some(_) => {},
            None => {
                let ghost n = self.participants@.len() as int;
                self.participants.push(Participant { peer_id: id });
                assert(self.participants@[n].peer_id@ == id@);
                assert(self.participants@.take(n) =~= old(self).participants@);
            },
        }
    }

    /// Withdraws `id` from gossip, as discovery asks when the peer expires.
    pub fn remove_explicit_peer(&mut self, id: &String)
        requires
            old(self).wf(),
        ensures
            final(self).wf(),
            !is_participant(final(self).participants@, id@),
            is_participant(old(self).participants@, id@) ==> final(self).participants@ == old(
                self,
            ).participants@.remove(participant_position(old(self).participants@, id@)),
            !is_participant(old(self).participants@, id@) ==> final(self).participants@ == old(
                self,
            ).participants@,
            forall|x: Seq<char>|
                x != id@ ==> is_participant(final(self).participants@, x) == is_participant(
                    old(self).participants@,
                    x,
                ),
            final(self).subscriptions@ == old(self).subscriptions@,
            final(self).log@ == old(self).log@,
            final(self).local_id == old(self).local_id,
            final(self).rejected == old(self).rejected,
    {
        match find_participant(&self.participants, id) {
            Some(i) => {
                let ghost before = self.participants@;
                proof {
                    assert(participant_position(before, id@) == i as int);
                }
                self.participants.remove(i);
                proof {
                    let after = self.participants@;
                    assert(forall|k: int| 0 <= k < after.len() ==> after[k] == before[if k < i { k } else { k + 1 }]);
                    assert forall|x: Seq<char>| x != id@ && is_participant(before, x) implies is_participant(after, x) by {
                        let p = participant_position(before, x);
                        if p < i {
                            assert(after[p].peer_id@ == x);
                        } else {
                            assert(p != i);
                            assert(after[p - 1].peer_id@ == x);
                        }
                    }
                    assert forall|x: Seq<char>| is_participant(after, x) implies is_participant(before, x) && x != id@ by {
                        let p = participant_position(after, x);
                        let q = if p < i { p } else { p + 1 };
                        assert(before[q].peer_id@ == x);
                    }
                    assert forall|a: int, b: int|
                        0 <= a < after.len() && 0 <= b < after.len() && after[a].peer_id@ == after[b].peer_id@
                        implies a == b by {
                        let qa = if a < i { a } else { a + 1 };
                        let qb = if b < i { b } else { b + 1 };
                        assert(before[qa].peer_id@ == before[qb].peer_id@);
                    }
                }
            },
            None => {},
        }
    }


    /// Settles a publish of `payload` on `topic` once the network layer has
    /// answered with `outcome`: on success the message is logged unless its
    /// fingerprint already is, and its fingerprint is returned; an error is
    /// handed on and changes nothing.
    pub fn settle_publish(
        &mut self,
        topic: &String,
        payload: Vec<u8>,
        outcome: Result<(), PublishError>,
    ) -> (r: Result<u64, PublishError>)
        requires
            old(self).wf(),
        ensures
            final(self).wf(),
            outcome is Ok ==> r == Ok::<u64, PublishError>(fingerprint_of(payload@)),
            outcome is Ok ==> final(self).log@ == deliver(
                old(self).log@,
                Message {
                    payload,
                    sender: old(self).local_id,
                    topic: *topic,
                    fingerprint: fingerprint_of(payload@),
                },
            ),
            outcome is Ok ==> logged(final(self).log@, fingerprint_of(payload@)),
            outcome is Ok ==> final(self).participants@ == old(self).participants@
                && final(self).subscriptions@ == old(self).subscriptions@ && final(self).local_id
                == old(self).local_id && final(self).rejected == old(self).rejected,
            outcome is Err ==> r == Err::<u64, PublishError>(outcome->Err_0),
            outcome is Err ==> final(self).same_as(*old(self)),
    {
        match outcome {
            Err(e) => Err(e),
            Ok(()) => {
                let fp = fingerprint(payload.as_slice());
                if !is_logged(&self.log, fp) {
                    let ghost n = self.log@.len() as int;
                    let m = Message { payload, sender: self.local_id.clone(), topic: topic.clone(), fingerprint: fp };
                    self.log.push(m);
                    proof {
                        assert(self.log@[n].fingerprint == fp);
                        assert(forall|k: int| 0 <= k < n ==> self.log@[k] == old(self).log@[k]);
                    }
                }
                Ok(fp)
            },
        }
    }

    /// Publishes `payload` on `topic` through gossipsub. A payload larger
    /// than a frame is refused before gossipsub sees it; otherwise gossipsub
    /// signs and sends it, and its answer is settled as `settle_publish` says.
    pub fn publish(&mut self, gossip: &mut Gossipsub, topic: &String, payload: Vec<u8>) -> (r: Result<u64, PublishError>)
        requires
            old(self).wf(),
        ensures
            final(self).wf(),
            payload@.len() > MAX_FRAME_SIZE ==> r == Err::<u64, PublishError>(PublishError::PayloadTooLarge)
                && *final(gossip) == *old(gossip),
            r is Ok ==> r == Ok::<u64, PublishError>(fingerprint_of(payload@)),
            r is Ok ==> final(self).log@ == deliver(
                old(self).log@,
                Message {
                    payload,
                    sender: old(self).local_id,
                    topic: *topic,
                    fingerprint: fingerprint_of(payload@),
                },
            ),
            r is Ok ==> logged(final(self).log@, fingerprint_of(payload@)),
            r is Ok ==> final(self).participants@ == old(self).participants@
                && final(self).subscriptions@ == old(self).subscriptions@ && final(self).local_id
                == old(self).local_id && final(self).rejected == old(self).rejected,
            r is Err ==> final(self).same_as(*old(self)),
    {
        if payload.len() > MAX_FRAME_SIZE {
            return Err(PublishError::PayloadTooLarge);
        }
        let copy = vstd::slice::slice_to_vec(payload.as_slice());
        let outcome = gossip_publish(gossip, topic, copy);
        self.settle_publish(topic, payload, outcome)
    }

    /// Handles a message that arrived from the admitted peer `source`,
    /// claiming `sender` as its author. `authentic` says whether its
    /// signature verified against that claim. A new message on a subscribed
    /// topic is logged; anything else is dropped.
    pub fn receive(
        &mut self,
        source: &String,
        sender: String,
        topic: String,
        payload: Vec<u8>,
        authentic: bool,
    ) -> (r: Reception)
        requires
            old(self).wf(),
        ensures
            final(self).wf(),
            final(self).local_id == old(self).local_id,
            final(self).subscriptions@ == old(self).subscriptions@,
            final(self).participants@ == old(self).participants@,
            !authentic ==> r is Rejected,
            !authentic ==> final(self).rejected == (if old(self).rejected < u64::MAX {
                (old(self).rejected + 1) as u64
            } else {
                old(self).rejected
            }),
            !authentic ==> final(self).log@ == old(self).log@,
            authentic && !is_participant(old(self).participants@, source@) ==> r is NotAdmitted,
            authentic && is_participant(old(self).participants@, source@)
                && !names_contain(old(self).subscriptions@, topic@) ==> r is NotSubscribed,
            authentic && is_participant(old(self).participants@, source@)
                && names_contain(old(self).subscriptions@, topic@)
                && logged(old(self).log@, fingerprint_of(payload@)) ==> r is Duplicate,
            authentic && is_participant(old(self).participants@, source@)
                && names_contain(old(self).subscriptions@, topic@)
                && !logged(old(self).log@, fingerprint_of(payload@)) ==> r is Delivered,
            r is NotAdmitted || r is NotSubscribed || r is Duplicate ==> final(self).same_as(*old(self)),
            authentic && is_participant(old(self).participants@, source@)
                && names_contain(old(self).subscriptions@, topic@) ==> final(self).log@ == deliver(
                old(self).log@,
                Message { payload, sender, topic, fingerprint: fingerprint_of(payload@) },
            ),
            authentic && is_participant(old(self).participants@, source@)
                && names_contain(old(self).subscriptions@, topic@)
                ==> logged(final(self).log@, fingerprint_of(payload@)),
            authentic ==> final(self).rejected == old(self).rejected,
    {
        if !authentic {
            if self.rejected < u64::MAX {
                self.rejected = self.rejected + 1;
            }
            return Reception::Rejected;
        }
        if find_participant(&self.participants, source).is_none() {
            return Reception::NotAdmitted;
        }
        if !contains_name(&self.subscriptions, &topic) {
            return Reception::NotSubscribed;
        }
        let fp = fingerprint(payload.as_slice());
        if is_logged(&self.log, fp) {
            return Reception::Duplicate;
        }
        let ghost n = self.log@.len() as int;
        let m = Message { payload, sender, topic, fingerprint: fp };
        self.log.push(m);
        proof {
            assert(self.log@[n].fingerprint == fp);
            assert(forall|k: int| 0 <= k < n ==> self.log@[k] == old(self).log@[k]);
        }
        Reception::Delivered
    }
}

/// A log whose entries have distinct fingerprints holds a logged fingerprint
/// exactly once.
pub proof fn logged_exactly_once(log: Seq<Message>, fp: u64)
    requires
        log_wf(log),
        logged(log, fp),
    ensures
        logged_once(log, fp),
{
    let i = choose|i: int| 0 <= i < log.len() && #[trigger] log[i].fingerprint == fp;
    assert(forall|j: int| 0 <= j < log.len() && #[trigger] log[j].fingerprint == fp ==> log[j].fingerprint == log[i].fingerprint);
}

/// Offering one message to a log keeps the log well formed and leaves the
/// message's fingerprint logged.
pub proof fn deliver_keeps_log_wf(log: Seq<Message>, m: Message)
    requires
        log_wf(log),
        m.fingerprint == fingerprint_of(m.payload@),
    ensures
        log_wf(deliver(log, m)),
        logged(deliver(log, m), m.fingerprint),
{
    if !logged(log, m.fingerprint) {
        let d = log.push(m);
        assert(d[log.len() as int].fingerprint == m.fingerprint);
        assert forall|i: int, j: int|
            0 <= i < d.len() && 0 <= j < d.len() && #[trigger] d[i].fingerprint == #[trigger] d[j].fingerprint
            implies i == j by {
            if i < log.len() && j < log.len() {
                assert(log[i].fingerprint == log[j].fingerprint);
            } else if i < log.len() {
                assert(log[i].fingerprint == m.fingerprint);
            } else if j < log.len() {
                assert(log[j].fingerprint == m.fingerprint);
            }
        }
        assert forall|i: int| 0 <= i < d.len() implies #[trigger] d[i].fingerprint == fingerprint_of(d[i].payload@) by {
            if i < log.len() {
                assert(d[i] == log[i]);
            }
        }
    }
}

/// However many times, and over however many paths, one message is offered
/// to a well-formed log, the log ends up holding it exactly once, and just
/// as it would after the first offer.
pub proof fn repeated_delivery_logs_once(log: Seq<Message>, m: Message, k: nat)
    requires
        log_wf(log),
        m.fingerprint == fingerprint_of(m.payload@),
        k >= 1,
    ensures
        deliver_times(log, m, k) == deliver(log, m),
        log_wf(deliver_times(log, m, k)),
        logged_once(deliver_times(log, m, k), m.fingerprint),
    decreases k,
{
    deliver_keeps_log_wf(log, m);
    if k > 1 {
        repeated_delivery_logs_once(log, m, (k - 1) as nat);
        assert(deliver_times(log, m, (k - 1) as nat) == deliver(log, m));
    } else {
        assert(deliver_times(log, m, 0) == log);
    }
    logged_exactly_once(deliver_times(log, m, k), m.fingerprint);
}

} // verus!
