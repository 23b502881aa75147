use lanchat::fingerprint::fingerprint;
use lanchat::gossip::{GossipEngine, PublishError, Reception};
use lanchat::pubsub::Gossipsub;
use lanchat::MAX_FRAME_SIZE;
use libp2p::gossipsub::{AllowAllSubscriptionFilter, Config, MessageAuthenticity};
use libp2p::identity::Keypair;

fn s(x: &str) -> String {
    x.to_string()
}

fn gossipsub() -> Gossipsub {
    Gossipsub::new_with_subscription_filter(
        MessageAuthenticity::Signed(Keypair::generate_ed25519()),
        Config::default(),
        AllowAllSubscriptionFilter {},
    )
    .unwrap()
}

fn engine_with_peer(local: &str, peer: &str, topic: &str) -> GossipEngine {
    let mut e = GossipEngine::new(s(local));
    e.subscribe(s(topic));
    e.add_explicit_peer(s(peer));
    e
}

#[test]
fn fingerprint_depends_on_content_only() {
    let a = fingerprint(b"hello");
    let b = fingerprint(&vec![b'h', b'e', b'l', b'l', b'o']);
    assert_eq!(a, b);
    assert_ne!(fingerprint(b"hello"), fingerprint(b"hellp"));
}

#[test]
fn publish_without_subscribers_fails_and_logs_nothing() {
    let mut g = gossipsub();
    let mut e = engine_with_peer("A", "B", "general");
    let r = e.publish(&mut g, &s("general"), b"hello".to_vec());
    assert!(matches!(r, Err(PublishError::NoSubscribers)));
    assert_eq!(e.log.len(), 0);
}

#[test]
fn publish_too_large_sends_nothing() {
    let mut g = gossipsub();
    let mut e = engine_with_peer("A", "B", "general");
    let r = e.publish(&mut g, &s("general"), vec![7u8; MAX_FRAME_SIZE + 1]);
    assert!(matches!(r, Err(PublishError::PayloadTooLarge)));
    assert_eq!(e.log.len(), 0);
}

#[test]
fn settled_publish_is_logged_once() {
    let mut e = engine_with_peer("A", "B", "general");
    let fp = e.settle_publish(&s("general"), b"hello".to_vec(), Ok(())).ok().unwrap();
    assert_eq!(fp, fingerprint(b"hello"));
    assert_eq!(e.log.len(), 1);
    assert_eq!(e.log[0].sender, s("A"));
    assert_eq!(e.log[0].topic, s("general"));
    let again = e.settle_publish(&s("general"), b"hello".to_vec(), Ok(())).ok().unwrap();
    assert_eq!(again, fp);
    assert_eq!(e.log.len(), 1);
}

#[test]
fn refused_publish_changes_nothing() {
    let mut e = engine_with_peer("A", "B", "general");
    let r = e.settle_publish(&s("general"), b"hello".to_vec(), Err(PublishError::Backpressure));
    assert!(matches!(r, Err(PublishError::Backpressure)));
    let r = e.settle_publish(&s("general"), b"hello".to_vec(), Err(PublishError::Duplicate));
    assert!(matches!(r, Err(PublishError::Duplicate)));
    assert_eq!(e.log.len(), 0);
}

#[test]
fn unauthentic_message_is_dropped_and_counted() {
    let mut e = engine_with_peer("A", "C", "general");
    let r = e.receive(&s("C"), s("C"), s("general"), b"forged".to_vec(), false);
    assert!(matches!(r, Reception::Rejected));
    assert_eq!(e.log.len(), 0);
    assert_eq!(e.rejected, 1);
}

#[test]
fn duplicate_message_is_logged_once() {
    let mut e = engine_with_peer("B", "A", "general");
    e.add_explicit_peer(s("C"));
    let first = e.receive(&s("A"), s("A"), s("general"), b"hello".to_vec(), true);
    assert!(matches!(first, Reception::Delivered));
    let second = e.receive(&s("C"), s("A"), s("general"), b"hello".to_vec(), true);
    assert!(matches!(second, Reception::Duplicate));
    let third = e.receive(&s("A"), s("A"), s("general"), b"hello".to_vec(), true);
    assert!(matches!(third, Reception::Duplicate));
    assert_eq!(e.log.len(), 1);
    assert_eq!(e.log[0].fingerprint, fingerprint(b"hello"));
}

#[test]
fn message_from_unknown_peer_or_topic_is_ignored() {
    let mut e = engine_with_peer("B", "A", "general");
    let r = e.receive(&s("Z"), s("Z"), s("general"), b"x".to_vec(), true);
    assert!(matches!(r, Reception::NotAdmitted));
    let r = e.receive(&s("A"), s("A"), s("other"), b"x".to_vec(), true);
    assert!(matches!(r, Reception::NotSubscribed));
    assert_eq!(e.log.len(), 0);
}

#[test]
fn expired_peer_is_no_longer_admitted() {
    let mut e = engine_with_peer("A", "B", "general");
    e.add_explicit_peer(s("X"));
    e.remove_explicit_peer(&s("X"));
    assert_eq!(e.participants.len(), 1);
    assert_eq!(e.participants[0].peer_id, s("B"));
    let r = e.receive(&s("X"), s("X"), s("general"), b"late".to_vec(), true);
    assert!(matches!(r, Reception::NotAdmitted));
}

#[test]
fn subscribe_and_admission_are_idempotent() {
    let mut e = GossipEngine::new(s("A"));
    assert!(e.subscribe(s("general")));
    assert!(!e.subscribe(s("general")));
    assert_eq!(e.subscriptions.len(), 1);
    assert!(e.is_subscribed(&s("general")));
    e.add_explicit_peer(s("B"));
    e.add_explicit_peer(s("B"));
    assert_eq!(e.participants.len(), 1);
}
