use chat_node::address::PeerAddress;
use chat_node::behaviour::Behaviour;
use chat_node::behaviour::Publication;
use chat_node::command::Command;
use chat_node::event::LivenessResult;
use chat_node::event::NetworkEvent;
use chat_node::event::RoundTrip;
use chat_node::event_loop::run;
use chat_node::event_loop::Effect;
use chat_node::event_loop::EventLoop;
use chat_node::event_loop::Input;
use chat_node::event_loop::Outcome;
use chat_node::event_loop::Reaction;
use chat_node::event_loop::CHAT_TOPIC;
use chat_node::event_loop::COMMUNITY_TOPIC;
use chat_node::record::Level;
use chat_node::record::LogRecord;

fn info(message: &str) -> Option<LogRecord> {
    Some(LogRecord { level: Level::Info, message: message.to_string() })
}

fn warn(message: &str) -> Option<LogRecord> {
    Some(LogRecord { level: Level::Warn, message: message.to_string() })
}

fn logged(event: NetworkEvent) -> Reaction {
    let mut event_loop = EventLoop::start(Behaviour::new(true));
    event_loop.step(Input::Network(event))
}

fn closed(endpoint: &str, remaining: u32) -> Input {
    Input::Network(NetworkEvent::ConnectionClosed { endpoint: endpoint.to_string(), remaining })
}

#[test]
fn topics_are_the_compiled_in_names() {
    assert_eq!(CHAT_TOPIC, "workshop-chat");
    assert_eq!(COMMUNITY_TOPIC, "universal-connectivity");
}

#[test]
fn start_subscribes_the_compiled_in_topics() {
    let event_loop = EventLoop::start(Behaviour::new(true));
    assert!(event_loop.behaviour().is_subscribed("workshop-chat"));
    assert!(event_loop.behaviour().is_subscribed("universal-connectivity"));
    assert!(!event_loop.behaviour().is_subscribed("something-else"));
    assert!(!event_loop.is_stopped());
}

#[test]
fn start_without_gossip_subscribes_nothing() {
    let event_loop = EventLoop::start(Behaviour::new(false));
    assert!(!event_loop.behaviour().is_subscribed("workshop-chat"));
    assert!(!event_loop.is_stopped());
}

#[test]
fn connection_established_is_logged() {
    let reaction =
        logged(NetworkEvent::ConnectionEstablished { endpoint: "/ip4/1.2.3.4/tcp/5".to_string() });
    assert_eq!(
        reaction,
        Reaction { log: info("Connected to /ip4/1.2.3.4/tcp/5"), effect: Effect::Idle }
    );
}

#[test]
fn last_connection_closed_is_logged_as_disconnect() {
    let reaction = logged(NetworkEvent::ConnectionClosed {
        endpoint: "/ip4/1.2.3.4/tcp/5".to_string(),
        remaining: 0,
    });
    assert_eq!(
        reaction,
        Reaction { log: info("Disconnected from /ip4/1.2.3.4/tcp/5"), effect: Effect::Idle }
    );
}

#[test]
fn closed_connection_with_others_remaining_is_not_logged() {
    for remaining in [1, 2, 7, u32::MAX] {
        let reaction = logged(NetworkEvent::ConnectionClosed {
            endpoint: "/ip4/1.2.3.4/tcp/5".to_string(),
            remaining,
        });
        assert_eq!(reaction, Reaction { log: None, effect: Effect::Idle });
    }
}

#[test]
fn two_closes_give_exactly_one_disconnect_after_the_second() {
    let outcome = run(Behaviour::new(true), vec![closed("A", 1), closed("A", 0)]);
    assert_eq!(
        outcome.reactions,
        vec![
            Reaction { log: None, effect: Effect::Idle },
            Reaction { log: info("Disconnected from A"), effect: Effect::Idle },
        ]
    );
    assert!(!outcome.stopped);
}

#[test]
fn new_listen_address_is_logged() {
    let reaction =
        logged(NetworkEvent::NewListenAddress { address: "/ip4/0.0.0.0/tcp/9".to_string() });
    assert_eq!(reaction, Reaction { log: info("Listening on /ip4/0.0.0.0/tcp/9"), effect: Effect::Idle });
}

#[test]
fn liveness_success_logs_peer_and_round_trip() {
    let reaction = logged(NetworkEvent::Liveness {
        peer: "12D3KooWPeer".to_string(),
        result: LivenessResult::Success(RoundTrip { secs: 1, subsec_nanos: 42_900_000 }),
    });
    assert_eq!(
        reaction,
        Reaction { log: info("RTT tp 12D3KooWPeer is 1042ms"), effect: Effect::Idle }
    );
    let quick = logged(NetworkEvent::Liveness {
        peer: "p".to_string(),
        result: LivenessResult::Success(RoundTrip { secs: 0, subsec_nanos: 10 }),
    });
    assert_eq!(quick.log, info("RTT tp p is 0ms"));
}

#[test]
fn liveness_failure_is_ignored() {
    let reaction = logged(NetworkEvent::Liveness {
        peer: "12D3KooWPeer".to_string(),
        result: LivenessResult::Failure,
    });
    assert_eq!(reaction, Reaction { log: None, effect: Effect::Idle });
}

#[test]
fn metadata_logs_peer_and_protocols() {
    let reaction = logged(NetworkEvent::Metadata {
        peer: "12D3KooWPeer".to_string(),
        protocols: vec!["/ipfs/ping/1.0.0".to_string(), "/meshsub/1.1.0".to_string()],
    });
    assert_eq!(
        reaction,
        Reaction {
            log: info("Peer 12D3KooWPeer supports /ipfs/ping/1.0.0, /meshsub/1.1.0"),
            effect: Effect::Idle
        }
    );
    let bare = logged(NetworkEvent::Metadata { peer: "p".to_string(), protocols: vec![] });
    assert_eq!(bare.log, info("Peer p supports "));
}

#[test]
fn gossip_message_logs_source_and_text() {
    let reaction = logged(NetworkEvent::GossipMessage {
        source: Some("12D3KooWPeer".to_string()),
        payload: "hello caf\u{00E9}".as_bytes().to_vec(),
    });
    assert_eq!(
        reaction,
        Reaction { log: info("Message from 12D3KooWPeer: hello caf\u{00E9}"), effect: Effect::Idle }
    );
}

#[test]
fn gossip_message_without_source_is_logged_as_unknown() {
    let reaction = logged(NetworkEvent::GossipMessage { source: None, payload: vec![104, 105] });
    assert_eq!(reaction.log, info("Message from unknown: hi"));
}

#[test]
fn gossip_message_with_invalid_encoding_is_logged_with_replacement() {
    let reaction =
        logged(NetworkEvent::GossipMessage { source: None, payload: vec![104, 0xff, 105] });
    assert_eq!(reaction.log, info("Message from unknown: h\u{FFFD}i"));
    assert_eq!(reaction.effect, Effect::Idle);
    let cut = logged(NetworkEvent::GossipMessage { source: None, payload: vec![0xe2, 0x82] });
    assert_eq!(cut.log, info("Message from unknown: \u{FFFD}"));
    let empty = logged(NetworkEvent::GossipMessage { source: None, payload: vec![] });
    assert_eq!(empty.log, info("Message from unknown: "));
}

#[test]
fn other_events_are_ignored() {
    assert_eq!(logged(NetworkEvent::Other), Reaction { log: None, effect: Effect::Idle });
}

#[test]
fn dial_command_asks_to_dial_the_address() {
    let address = PeerAddress::parse("/ip4/127.0.0.1/tcp/4001").unwrap();
    let mut event_loop = EventLoop::start(Behaviour::new(true));
    let reaction = event_loop.step(Input::Command(Command::Dial(address.clone())));
    assert_eq!(reaction, Reaction { log: None, effect: Effect::Dial(address) });
    assert!(!event_loop.is_stopped());
}

#[test]
fn publish_command_publishes_on_the_chat_topic() {
    let mut event_loop = EventLoop::start(Behaviour::new(true));
    let reaction = event_loop.step(Input::Command(Command::Publish("hello caf\u{00E9}".to_string())));
    assert_eq!(
        reaction,
        Reaction {
            log: None,
            effect: Effect::Publish(Publication {
                topic: "workshop-chat".to_string(),
                payload: vec![104, 101, 108, 108, 111, 32, 99, 97, 102, 0xc3, 0xa9],
            }),
        }
    );
}

#[test]
fn publish_with_no_peer_connected_does_not_stop_the_loop() {
    let outcome = run(
        Behaviour::new(true),
        vec![
            Input::Command(Command::Publish("first".to_string())),
            Input::Command(Command::Publish(String::new())),
        ],
    );
    assert_eq!(outcome.reactions.len(), 2);
    assert_eq!(
        outcome.reactions[0].effect,
        Effect::Publish(Publication {
            topic: "workshop-chat".to_string(),
            payload: "first".as_bytes().to_vec()
        })
    );
    assert_eq!(
        outcome.reactions[1].effect,
        Effect::Publish(Publication { topic: "workshop-chat".to_string(), payload: vec![] })
    );
    assert!(!outcome.stopped);
}

#[test]
fn publish_without_gossip_is_logged_and_the_loop_goes_on() {
    let mut event_loop = EventLoop::start(Behaviour::new(false));
    let reaction = event_loop.step(Input::Command(Command::Publish("hello".to_string())));
    assert_eq!(
        reaction,
        Reaction { log: warn("Publish failed: gossip is disabled"), effect: Effect::Idle }
    );
    assert!(!event_loop.is_stopped());
}

#[test]
fn failure_records_carry_the_cause() {
    assert_eq!(Some(LogRecord::dial_failed("unreachable")), warn("Dial failed: unreachable"));
    assert_eq!(
        Some(LogRecord::publish_failed("InsufficientPeers")),
        warn("Publish failed: InsufficientPeers")
    );
    assert_eq!(Some(LogRecord::sender_dropped()), info("Sender dropped, terminating event loop"));
    assert_eq!(Some(LogRecord::compose(Level::Warn, "a", "b")), warn("ab"));
}

#[test]
fn closure_is_logged_and_stops_the_loop() {
    let mut event_loop = EventLoop::start(Behaviour::new(true));
    let reaction = event_loop.step(Input::Closed);
    assert_eq!(
        reaction,
        Reaction { log: info("Sender dropped, terminating event loop"), effect: Effect::Stop }
    );
    assert!(event_loop.is_stopped());
}

#[test]
fn stopped_loop_does_nothing_more() {
    let mut event_loop = EventLoop::start(Behaviour::new(true));
    event_loop.step(Input::Closed);
    let idle = Reaction { log: None, effect: Effect::Idle };
    assert_eq!(event_loop.step(closed("A", 0)), idle);
    assert_eq!(event_loop.step(Input::Command(Command::Publish("x".to_string()))), idle);
    assert_eq!(event_loop.step(Input::Closed), idle);
    assert!(event_loop.is_stopped());
}

#[test]
fn network_events_never_stop_the_loop() {
    let events = vec![
        NetworkEvent::ConnectionEstablished { endpoint: "a".to_string() },
        NetworkEvent::ConnectionClosed { endpoint: "a".to_string(), remaining: 0 },
        NetworkEvent::ConnectionClosed { endpoint: "a".to_string(), remaining: 3 },
        NetworkEvent::NewListenAddress { address: "a".to_string() },
        NetworkEvent::Liveness { peer: "p".to_string(), result: LivenessResult::Failure },
        NetworkEvent::Metadata { peer: "p".to_string(), protocols: vec![] },
        NetworkEvent::GossipMessage { source: None, payload: vec![0xff] },
        NetworkEvent::Other,
    ];
    let mut event_loop = EventLoop::start(Behaviour::new(true));
    for event in events {
        let reaction = event_loop.step(Input::Network(event));
        assert_eq!(reaction.effect, Effect::Idle);
        assert!(!event_loop.is_stopped());
    }
}

#[test]
fn run_handles_each_input_once_in_order() {
    let address = PeerAddress::parse("/ip4/127.0.0.1/tcp/4001").unwrap();
    let outcome = run(
        Behaviour::new(true),
        vec![
            Input::Network(NetworkEvent::NewListenAddress { address: "L".to_string() }),
            Input::Command(Command::Dial(address.clone())),
            Input::Network(NetworkEvent::ConnectionEstablished { endpoint: "E".to_string() }),
            Input::Command(Command::Publish("hi".to_string())),
            Input::Network(NetworkEvent::GossipMessage {
                source: Some("P".to_string()),
                payload: vec![104, 111],
            }),
            closed("E", 0),
        ],
    );
    assert_eq!(
        outcome.reactions,
        vec![
            Reaction { log: info("Listening on L"), effect: Effect::Idle },
            Reaction { log: None, effect: Effect::Dial(address) },
            Reaction { log: info("Connected to E"), effect: Effect::Idle },
            Reaction {
                log: None,
                effect: Effect::Publish(Publication {
                    topic: "workshop-chat".to_string(),
                    payload: vec![104, 105],
                }),
            },
            Reaction { log: info("Message from P: ho"), effect: Effect::Idle },
            Reaction { log: info("Disconnected from E"), effect: Effect::Idle },
        ]
    );
    assert!(!outcome.stopped);
}

#[test]
fn run_without_closure_handles_everything_and_does_not_stop() {
    let outcome = run(Behaviour::new(true), Vec::new());
    assert_eq!(outcome.reactions, Vec::<Reaction>::new());
    assert!(!outcome.stopped);
}

#[test]
fn run_stops_at_the_first_closure() {
    let outcome = run(
        Behaviour::new(true),
        vec![
            closed("A", 0),
            Input::Closed,
            closed("B", 0),
            Input::Command(Command::Publish("late".to_string())),
            Input::Closed,
        ],
    );
    assert_eq!(
        outcome.reactions,
        vec![
            Reaction { log: info("Disconnected from A"), effect: Effect::Idle },
            Reaction { log: info("Sender dropped, terminating event loop"), effect: Effect::Stop },
        ]
    );
    assert!(outcome.stopped);
}

#[test]
fn closure_right_after_a_dial_still_stops_the_loop() {
    let address = PeerAddress::parse("/dns4/example.com/tcp/1").unwrap();
    let outcome = run(
        Behaviour::new(true),
        vec![
            Input::Command(Command::Dial(address.clone())),
            Input::Closed,
            Input::Network(NetworkEvent::ConnectionEstablished { endpoint: "E".to_string() }),
        ],
    );
    assert_eq!(
        outcome.reactions,
        vec![
            Reaction { log: None, effect: Effect::Dial(address) },
            Reaction { log: info("Sender dropped, terminating event loop"), effect: Effect::Stop },
        ]
    );
    assert!(outcome.stopped);
}

#[test]
fn closure_alone_stops_the_loop() {
    let outcome = run(Behaviour::new(false), vec![Input::Closed]);
    assert_eq!(outcome.reactions.len(), 1);
    assert_eq!(outcome.reactions[0].effect, Effect::Stop);
    assert!(outcome.stopped);
}

#[test]
fn failed_effects_are_logged_and_the_loop_goes_on() {
    let event_loop = EventLoop::start(Behaviour::new(true));
    assert_eq!(event_loop.settle(&Outcome::Done), None);
    assert_eq!(
        event_loop.settle(&Outcome::DialFailed("unreachable".to_string())),
        warn("Dial failed: unreachable")
    );
    assert_eq!(
        event_loop.settle(&Outcome::PublishFailed("InsufficientPeers".to_string())),
        warn("Publish failed: InsufficientPeers")
    );
    assert!(!event_loop.is_stopped());
}
