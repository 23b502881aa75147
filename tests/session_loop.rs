use lanchat::directory::{Friend, PeerDirectory};
use lanchat::gossip::PublishError;
use lanchat::pubsub::Gossipsub;
use lanchat::session::{Action, Event, User};
use lanchat::MAX_FRAME_SIZE;
use libp2p::gossipsub::{AllowAllSubscriptionFilter, Config, MessageAuthenticity};
use libp2p::identity::Keypair;

fn s(x: &str) -> String {
    x.to_string()
}

fn gossipsub() -> Gossipsub {
    Gossipsub::new_with_subscription_filter(
        MessageAuthenticity::Signed(Keypair::generate_ed25519()),
        Config::default(),
        AllowAllSubscriptionFilter {},
    )
    .unwrap()
}

#[test]
fn two_nodes_exchange_hello() {
    let mut a = User::new(s("alice"), s("A"));
    let mut b = User::new(s("bob"), s("B"));
    let handle = a.making_a_new_topic(s("general"));
    assert_eq!(handle, 0);
    assert_eq!(a.topics_made[0], s("general"));
    assert_eq!(a.engine.subscriptions, vec![s("general")]);
    let act = b.handle_event(Event::PeerAppeared { peer: s("A"), address: s("/ip4/10.0.0.1/tcp/4001") });
    assert!(matches!(act, Action::AddExplicitPeer { .. }));
    let act = b.handle_event(Event::Subscribe { name: s("general") });
    assert!(matches!(act, Action::AnnounceSubscription { .. }));
    a.handle_event(Event::PeerAppeared { peer: s("B"), address: s("/ip4/10.0.0.2/tcp/4001") });
    let fp = a.engine.settle_publish(&a.topics_made[handle].clone(), b"hello".to_vec(), Ok(())).ok().unwrap();
    let arrive = || Event::MessageArrived {
        source: s("A"),
        sender: s("A"),
        topic: s("general"),
        payload: b"hello".to_vec(),
        authentic: true,
    };
    assert!(matches!(b.handle_event(arrive()), Action::ShowMessage));
    assert!(matches!(b.handle_event(arrive()), Action::Nothing));
    assert_eq!(b.engine.log.len(), 1);
    assert_eq!(b.engine.log[0].sender, s("A"));
    assert_eq!(b.engine.log[0].topic, s("general"));
    assert_eq!(b.engine.log[0].payload, b"hello".to_vec());
    assert_eq!(b.engine.log[0].fingerprint, fp);
}

#[test]
fn oversized_publish_is_refused() {
    let mut g = gossipsub();
    let mut a = User::new(s("alice"), s("A"));
    let handle = a.making_a_new_topic(s("general"));
    a.handle_event(Event::PeerAppeared { peer: s("B"), address: s("addr") });
    let text = "x".repeat(MAX_FRAME_SIZE + 1);
    let r = a.sending_message(&mut g, text, handle);
    assert!(matches!(r, Err(PublishError::PayloadTooLarge)));
    assert_eq!(a.engine.log.len(), 0);
}

#[test]
fn publish_with_no_peers_reports_no_subscribers() {
    let mut g = gossipsub();
    let mut a = User::new(s("alice"), s("A"));
    let handle = a.making_a_new_topic(s("general"));
    let r = a.sending_message(&mut g, s("hi"), handle);
    assert!(matches!(r, Err(PublishError::NoSubscribers)));
    assert_eq!(a.engine.log.len(), 0);
}

#[test]
fn forged_message_is_neither_logged_nor_shown() {
    let mut b = User::new(s("bob"), s("B"));
    b.handle_event(Event::Subscribe { name: s("general") });
    b.handle_event(Event::PeerAppeared { peer: s("C"), address: s("addr-c") });
    let act = b.handle_event(Event::MessageArrived {
        source: s("C"),
        sender: s("A"),
        topic: s("general"),
        payload: b"forged".to_vec(),
        authentic: false,
    });
    assert!(matches!(act, Action::Nothing));
    assert_eq!(b.engine.log.len(), 0);
    assert_eq!(b.engine.rejected, 1);
    assert_eq!(b.engine.subscriptions, vec![s("general")]);
}

#[test]
fn expiry_removes_peer_from_directory_and_gossip() {
    let mut a = User::new(s("alice"), s("A"));
    a.making_a_new_topic(s("general"));
    a.handle_event(Event::PeerAppeared { peer: s("X"), address: s("addr-x") });
    a.handle_event(Event::PeerAppeared { peer: s("Y"), address: s("addr-y") });
    let act = a.handle_event(Event::PeerExpired { peer: s("X") });
    assert!(matches!(act, Action::RemoveExplicitPeer { .. }));
    assert!(!a.directory.contains(&s("X")));
    assert_eq!(a.engine.participants.len(), 1);
    assert_eq!(a.engine.participants[0].peer_id, s("Y"));
    let act = a.handle_event(Event::MessageArrived {
        source: s("X"),
        sender: s("X"),
        topic: s("general"),
        payload: b"late".to_vec(),
        authentic: true,
    });
    assert!(matches!(act, Action::Nothing));
}

#[test]
fn only_shutdown_stops_the_loop() {
    let mut a = User::new(s("alice"), s("A"));
    a.handle_event(Event::ConnectionFailed { peer: s("Q") });
    a.handle_event(Event::PeerExpired { peer: s("Q") });
    assert!(a.running);
    let act = a.handle_event(Event::Shutdown);
    assert!(matches!(act, Action::Stop));
    assert!(!a.running);
}

#[test]
fn display_names_resolve() {
    let mut a = User::new(s("alice"), s("A"));
    a.handle_event(Event::PeerAppeared { peer: s("B"), address: s("addr-b") });
    assert_eq!(a.sender_display(&s("A")), s("alice"));
    assert_eq!(a.sender_display(&s("B")), s("B"));
    a.handle_event(Event::PeerIdentified { peer: s("B"), name: s("bob") });
    assert_eq!(a.sender_display(&s("B")), s("bob"));
    assert_eq!(a.sender_display(&s("Z")), s("Z"));
}

#[test]
fn directory_keeps_one_record_per_peer() {
    let mut d = PeerDirectory::new();
    d.peer_appeared(s("B"), s("addr-1"));
    d.peer_appeared(s("B"), s("addr-2"));
    assert_eq!(d.friends.len(), 1);
    assert_eq!(d.friends[0].multiaddr, Some(s("addr-2")));
    assert_eq!(d.friends[0].peer_username, None);
    assert!(d.set_display_name(&s("B"), s("bob")));
    assert!(!d.set_display_name(&s("C"), s("carol")));
    d.peer_expired(&s("B"));
    assert!(!d.contains(&s("B")));
    let f = Friend::new(s("C"), s("carol"), s("addr-c"));
    assert_eq!(f.peer_username, Some(s("carol")));
    assert_eq!(f.multiaddr, Some(s("addr-c")));
}

#[test]
fn enter_moves_typed_text_into_the_shown_lines() {
    let mut app = lanchat::ui::App::default();
    assert_eq!(app.counter, 0);
    assert!(app.message.is_empty());
    app.mahinput = s("hi there");
    app.submit_input();
    assert_eq!(app.message, vec![s("hi there")]);
    assert_eq!(app.mahinput, s(""));
    app.mahinput = s("again");
    app.submit_input();
    assert_eq!(app.message, vec![s("hi there"), s("again")]);
}
