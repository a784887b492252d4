//! Network events: what the connection manager reports to the event loop.

use vstd::prelude::*;

verus! {

/// A measured round trip, held as whole seconds and the nanoseconds beyond them.
#[derive(Clone, Copy, Debug, PartialEq, Eq, Structural)]
pub struct RoundTrip {
    pub secs: u64,
    pub subsec_nanos: u32,
}

impl RoundTrip {
    /// The round trip in whole milliseconds, rounded down.
    pub open spec fn millis(self) -> nat {
        (self.secs * 1000 + self.subsec_nanos / 1_000_000) as nat
    }

    /// The round trip in whole milliseconds, rounded down.
    pub fn as_millis(&self) -> (ms: u128)
        ensures
            ms == self.millis(),
    {
        let whole: u128 = self.secs as u128 * 1000;
        let part: u128 = (self.subsec_nanos / 1_000_000) as u128;
        whole + part
    }
}

/// What a liveness probe found.
#[derive(Clone, Copy, Debug, PartialEq, Eq, Structural)]
pub enum LivenessResult {
    Success(RoundTrip),
    Failure,
}

/// One event of the network layer. Peers and addresses are held in their
/// textual form, which is all the event loop does with them.
#[derive(Clone, Debug, PartialEq, Eq)]
pub enum NetworkEvent {
    /// A connection to `endpoint` has been established.
    ConnectionEstablished { endpoint: String },
    /// A connection to `endpoint` was closed; `remaining` connections to that
    /// peer are still established.
    ConnectionClosed { endpoint: String, remaining: u32 },
    /// The node now listens on `address`.
    NewListenAddress { address: String },
    /// The liveness handler finished a probe of `peer`.
    Liveness { peer: String, result: LivenessResult },
    /// The metadata handler learnt which protocols `peer` supports.
    Metadata { peer: String, protocols: Vec<String> },
    /// The gossip handler received a message; `source` is its author where
    /// the message names one.
    GossipMessage { source: Option<String>, payload: Vec<u8> },
    /// Any other event.
    Other,
}

/// The mathematical content of a `NetworkEvent`.
pub enum NetworkEventView {
    ConnectionEstablished { endpoint: Seq<char> },
    ConnectionClosed { endpoint: Seq<char>, remaining: nat },
    NewListenAddress { address: Seq<char> },
    Liveness { peer: Seq<char>, result: LivenessResult },
    Metadata { peer: Seq<char>, protocols: Seq<Seq<char>> },
    GossipMessage { source: Option<Seq<char>>, payload: Seq<u8> },
    Other,
}

impl View for NetworkEvent {
    type V = NetworkEventView;

    open spec fn view(&self) -> NetworkEventView {
        match self {
            NetworkEvent::ConnectionEstablished { endpoint } => {
                NetworkEventView::ConnectionEstablished { endpoint: endpoint@ }
            },
            NetworkEvent::ConnectionClosed { endpoint, remaining } => {
                NetworkEventView::ConnectionClosed {
                    endpoint: endpoint@,
                    remaining: *remaining as nat,
                }
            },
            NetworkEvent::NewListenAddress { address } => {
                NetworkEventView::NewListenAddress { address: address@ }
            },
            NetworkEvent::Liveness { peer, result } => {
                NetworkEventView::Liveness { peer: peer@, result: *result }
            },
            NetworkEvent::Metadata { peer, protocols } => {
                NetworkEventView::Metadata { peer: peer@, protocols: protocols.deep_view() }
            },
            NetworkEvent::GossipMessage { source, payload } => {
                NetworkEventView::GossipMessage {
                    source: match source {
                        Some(peer) => Some(peer@),
                        None => None,
                    },
                    payload: payload@,
                }
            },
            NetworkEvent::Other => NetworkEventView::Other,
        }
    }
}

} // verus!
