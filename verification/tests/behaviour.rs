use chat_node::behaviour::Behaviour;
use chat_node::behaviour::HandlerKind;
use chat_node::behaviour::Publication;
use chat_node::behaviour::PublishError;
use chat_node::behaviour::SubscriptionError;
use chat_node::behaviour::PROTOCOL_VERSION;
use chat_node::event::LivenessResult;
use chat_node::event::NetworkEvent;
use chat_node::event::RoundTrip;

#[test]
fn protocol_version_is_the_workshop_version() {
    assert_eq!(PROTOCOL_VERSION, "/libp2p-workshop/1.0.0");
}

#[test]
fn aggregate_always_holds_liveness_and_metadata() {
    for gossip in [false, true] {
        let behaviour = Behaviour::new(gossip);
        assert!(behaviour.has_handler(HandlerKind::Liveness));
        assert!(behaviour.has_handler(HandlerKind::MetadataExchange));
        assert_eq!(behaviour.has_handler(HandlerKind::Gossip), gossip);
    }
}

#[test]
fn handlers_are_listed_once_each() {
    assert_eq!(
        Behaviour::new(true).handlers(),
        vec![HandlerKind::Liveness, HandlerKind::MetadataExchange, HandlerKind::Gossip]
    );
    assert_eq!(
        Behaviour::new(false).handlers(),
        vec![HandlerKind::Liveness, HandlerKind::MetadataExchange]
    );
}

#[test]
fn events_are_routed_to_exactly_one_handler() {
    let behaviour = Behaviour::new(true);
    let ping = NetworkEvent::Liveness { peer: "p".to_string(), result: LivenessResult::Failure };
    let pong = NetworkEvent::Liveness {
        peer: "p".to_string(),
        result: LivenessResult::Success(RoundTrip { secs: 0, subsec_nanos: 5 }),
    };
    let identify = NetworkEvent::Metadata { peer: "p".to_string(), protocols: vec![] };
    let message = NetworkEvent::GossipMessage { source: None, payload: vec![1] };
    assert_eq!(behaviour.route(&ping), Some(HandlerKind::Liveness));
    assert_eq!(behaviour.route(&pong), Some(HandlerKind::Liveness));
    assert_eq!(behaviour.route(&identify), Some(HandlerKind::MetadataExchange));
    assert_eq!(behaviour.route(&message), Some(HandlerKind::Gossip));
}

#[test]
fn connection_events_belong_to_no_handler() {
    let behaviour = Behaviour::new(true);
    let opened = NetworkEvent::ConnectionEstablished { endpoint: "a".to_string() };
    let closed = NetworkEvent::ConnectionClosed { endpoint: "a".to_string(), remaining: 0 };
    let listen = NetworkEvent::NewListenAddress { address: "a".to_string() };
    assert_eq!(behaviour.route(&opened), None);
    assert_eq!(behaviour.route(&closed), None);
    assert_eq!(behaviour.route(&listen), None);
    assert_eq!(behaviour.route(&NetworkEvent::Other), None);
}

#[test]
fn gossip_events_have_no_handler_without_gossip() {
    let behaviour = Behaviour::new(false);
    let message = NetworkEvent::GossipMessage { source: None, payload: vec![] };
    assert_eq!(behaviour.route(&message), None);
}

#[test]
fn subscribe_reports_whether_the_subscription_is_new() {
    let mut behaviour = Behaviour::new(true);
    assert!(!behaviour.is_subscribed("chat"));
    assert_eq!(behaviour.subscribe("chat"), Ok(true));
    assert!(behaviour.is_subscribed("chat"));
    assert_eq!(behaviour.subscribe("chat"), Ok(false));
    assert_eq!(behaviour.subscribe("news"), Ok(true));
    assert!(behaviour.is_subscribed("chat"));
    assert!(behaviour.is_subscribed("news"));
    assert!(!behaviour.is_subscribed("cha"));
    assert!(!behaviour.is_subscribed("Chat"));
}

#[test]
fn subscribe_without_gossip_fails_and_changes_nothing() {
    let mut behaviour = Behaviour::new(false);
    assert_eq!(behaviour.subscribe("chat"), Err(SubscriptionError::GossipDisabled));
    assert!(!behaviour.is_subscribed("chat"));
    assert_eq!(behaviour, Behaviour::new(false));
}

#[test]
fn publish_before_subscription_is_refused() {
    let behaviour = Behaviour::new(true);
    assert_eq!(behaviour.publish("chat", vec![1, 2]), Err(PublishError::NotSubscribed));
}

#[test]
fn publish_without_gossip_is_refused() {
    let behaviour = Behaviour::new(false);
    assert_eq!(behaviour.publish("chat", vec![1, 2]), Err(PublishError::GossipDisabled));
}

#[test]
fn publish_on_subscribed_topic_is_accepted_with_no_peer_connected() {
    let mut behaviour = Behaviour::new(true);
    assert_eq!(behaviour.subscribe("chat"), Ok(true));
    assert_eq!(
        behaviour.publish("chat", vec![104, 105]),
        Ok(Publication { topic: "chat".to_string(), payload: vec![104, 105] })
    );
    assert_eq!(
        behaviour.publish("chat", vec![]),
        Ok(Publication { topic: "chat".to_string(), payload: vec![] })
    );
    assert_eq!(behaviour.publish("other", vec![1]), Err(PublishError::NotSubscribed));
}
