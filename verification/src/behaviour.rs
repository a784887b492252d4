//! The behaviour aggregate: a fixed set of protocol handlers behind one surface.

use crate::event::NetworkEvent;
use crate::event::NetworkEventView;
use vstd::prelude::*;
use vstd::string::StringExecFns;

verus! {

/// The protocol version that the metadata handler announces.
pub const PROTOCOL_VERSION: &'static str = "/libp2p-workshop/1.0.0";

/// The protocol handlers that the aggregate can hold.
#[derive(Clone, Copy, Debug, PartialEq, Eq, Structural)]
pub enum HandlerKind {
    /// Measures the round trip to connected peers.
    Liveness,
    /// Tells newly connected peers which protocols the node supports.
    MetadataExchange,
    /// Publishes and relays messages on subscribed topics.
    Gossip,
}

/// Why a topic could not be subscribed.
#[derive(Clone, Copy, Debug, PartialEq, Eq, Structural)]
pub enum SubscriptionError {
    /// The aggregate was built without the gossip handler.
    GossipDisabled,
}

/// Why a message could not be published.
#[derive(Clone, Copy, Debug, PartialEq, Eq, Structural)]
pub enum PublishError {
    /// The aggregate was built without the gossip handler.
    GossipDisabled,
    /// The node has not subscribed to the topic.
    NotSubscribed,
}

/// A message accepted for delivery to the peers subscribed to its topic.
#[derive(Clone, Debug, PartialEq, Eq)]
pub struct Publication {
    pub topic: String,
    pub payload: Vec<u8>,
}

/// The mathematical content of a `Publication`.
pub struct PublicationView {
    pub topic: Seq<char>,
    pub payload: Seq<u8>,
}

impl View for Publication {
    type V = PublicationView;

    open spec fn view(&self) -> PublicationView {
        PublicationView { topic: self.topic@, payload: self.payload@ }
    }
}

/// The handler that an event belongs to; `None` for the events of the
/// connections themselves, which no handler claims.
pub open spec fn claimant(event: NetworkEventView) -> Option<HandlerKind> {
    match event {
        NetworkEventView::Liveness { .. } => Some(HandlerKind::Liveness),
        NetworkEventView::Metadata { .. } => Some(HandlerKind::MetadataExchange),
        NetworkEventView::GossipMessage { .. } => Some(HandlerKind::Gossip),
        _ => None,
    }
}

/// The aggregate's state: which handlers it holds and which topics its gossip
/// handler is subscribed to.
#[derive(Clone, Debug, PartialEq, Eq)]
pub struct Behaviour {
    gossip: bool,
    topics: Vec<String>,
}

/// The mathematical content of a `Behaviour`: whether it holds the gossip
/// handler, and its subscribed topics in the order they were subscribed.
pub struct BehaviourView {
    pub gossip: bool,
    pub topics: Seq<Seq<char>>,
}

impl BehaviourView {
    /// Whether the aggregate holds the handler `kind`. Liveness and metadata
    /// exchange are always held.
    pub open spec fn has_handler(self, kind: HandlerKind) -> bool {
        kind == HandlerKind::Gossip ==> self.gossip
    }

    /// Whether the gossip handler is subscribed to `topic`.
    pub open spec fn is_subscribed(self, topic: Seq<char>) -> bool {
        self.topics.contains(topic)
    }

    /// The outcome of asking the aggregate to publish on `topic`.
    pub open spec fn publish_check(self, topic: Seq<char>) -> Result<(), PublishError> {
        if !self.gossip {
            Err(PublishError::GossipDisabled)
        } else if !self.is_subscribed(topic) {
            Err(PublishError::NotSubscribed)
        } else {
            Ok(())
        }
    }

    /// The aggregate after subscribing to `topic`.
    pub open spec fn subscribed_to(self, topic: Seq<char>) -> BehaviourView {
        if self.gossip && !self.is_subscribed(topic) {
            BehaviourView { gossip: self.gossip, topics: self.topics.push(topic) }
        } else {
            self
        }
    }
}

impl View for Behaviour {
    type V = BehaviourView;

    closed spec fn view(&self) -> BehaviourView {
        BehaviourView { gossip: self.gossip, topics: self.topics.deep_view() }
    }
}

impl Behaviour {
    /// An aggregate with the liveness and metadata handlers, and with the
    /// gossip handler if `gossip` is set; subscribed to nothing yet.
    pub fn new(gossip: bool) -> (behaviour: Behaviour)
        ensures
            behaviour@ == (BehaviourView { gossip, topics: Seq::empty() }),
    {
        let behaviour = Behaviour { gossip, topics: Vec::new() };
        assert(behaviour.topics.deep_view() =~= Seq::<Seq<char>>::empty());
        behaviour
    }

    /// Whether the aggregate holds the handler `kind`.
    pub fn has_handler(&self, kind: HandlerKind) -> (held: bool)
        ensures
            held == self@.has_handler(kind),
    {
        match kind {
            HandlerKind::Gossip => self.gossip,
            _ => true,
        }
    }

    /// The handlers that the aggregate holds, each once.
    pub fn handlers(&self) -> (kinds: Vec<HandlerKind>)
        ensures
            kinds@.no_duplicates(),
            forall|kind: HandlerKind| kinds@.contains(kind) <==> self@.has_handler(kind),
    {
        let mut kinds: Vec<HandlerKind> = Vec::new();
        kinds.push(HandlerKind::Liveness);
        kinds.push(HandlerKind::MetadataExchange);
        if self.gossip {
            kinds.push(HandlerKind::Gossip);
        }
        assert forall|kind: HandlerKind| kinds@.contains(kind) <==> self@.has_handler(
            kind,
        ) by {
            if kind == HandlerKind::Liveness {
                assert(kinds@[0] == kind);
            } else if kind == HandlerKind::MetadataExchange {
                assert(kinds@[1] == kind);
            } else if self.gossip {
                assert(kinds@[2] == kind);
            }
        }
        kinds
    }

    /// The one handler of this aggregate that `event` is delivered to, if any.
    pub fn route(&self, event: &NetworkEvent) -> (handler: Option<HandlerKind>)
        ensures
            handler == match claimant(event@) {
                Some(kind) => if self@.has_handler(kind) {
                    Some(kind)
                } else {
                    None
                },
                None => None,
            },
    {
        match event {
            NetworkEvent::Liveness { .. } => Some(HandlerKind::Liveness),
            NetworkEvent::Metadata { .. } => Some(HandlerKind::MetadataExchange),
            NetworkEvent::GossipMessage { .. } => {
                if self.gossip {
                    Some(HandlerKind::Gossip)
                } else {
                    None
                }
            },
            _ => None,
        }
    }

    /// Whether the gossip handler is subscribed to `topic`.
    pub fn is_subscribed(&self, topic: &str) -> (found: bool)
        ensures
            found == self@.is_subscribed(topic@),
    {
        let wanted = String::from_str(topic);
        let mut i: usize = 0;
        while i < self.topics.len()
            invariant
                i <= self.topics.len(),
                wanted@ == topic@,
                forall|j: int| 0 <= j < i ==> self.topics.deep_view()[j] != topic@,
            decreases self.topics.len() - i,
        {
            if self.topics[i] == wanted {
                assert(self.topics.deep_view()[i as int] == topic@);
                return true;
            }
            i += 1;
        }
        false
    }

    /// Subscribes the gossip handler to `topic`. The answer is `true` where
    /// the subscription is new and `false` where it was already there.
    pub fn subscribe(&mut self, topic: &str) -> (outcome: Result<bool, SubscriptionError>)
        ensures
            final(self)@ == old(self)@.subscribed_to(topic@),
            outcome == if !old(self)@.gossip {
                Err::<bool, SubscriptionError>(SubscriptionError::GossipDisabled)
            } else {
                Ok(!old(self)@.is_subscribed(topic@))
            },
    {
        if !self.gossip {
            return Err(SubscriptionError::GossipDisabled);
        }
        if self.is_subscribed(topic) {
            return Ok(false);
        }
        let ghost before = self.topics.deep_view();
        self.topics.push(String::from_str(topic));
        assert(self.topics.deep_view() =~= before.push(topic@));
        Ok(true)
    }

    /// Asks the gossip handler to publish `payload` on `topic`. The message
    /// is accepted exactly when the node is subscribed to the topic; how many
    /// peers are connected plays no part.
    pub fn publish(&self, topic: &str, payload: Vec<u8>) -> (outcome: Result<
        Publication,
        PublishError,
    >)
        ensures
            outcome is Ok <==> self@.publish_check(topic@) is Ok,
            outcome matches Ok(publication) ==> publication@ == (PublicationView {
                topic: topic@,
                payload: payload@,
            }),
            outcome matches Err(error) ==> self@.publish_check(topic@) == Err::<(), PublishError>(
                error,
            ),
    {
        if !self.gossip {
            Err(PublishError::GossipDisabled)
        } else if !self.is_subscribed(topic) {
            Err(PublishError::NotSubscribed)
        } else {
            Ok(Publication { topic: String::from_str(topic), payload })
        }
    }
}

} // verus!
