//! Log records: what the node reports of each thing it observes.

use crate::event::LivenessResult;
use crate::event::NetworkEvent;
use crate::event::NetworkEventView;
use crate::event::RoundTrip;
use crate::text::decimal;
use crate::text::decimal_string;
use crate::text::decode_lossy;
use crate::text::join;
use crate::text::join_strings;
use crate::text::utf8_lossy;
use vstd::prelude::*;
use vstd::string::StringExecFns;

verus! {

/// How loud a record is.
#[derive(Clone, Copy, Debug, PartialEq, Eq, Structural)]
pub enum Level {
    Info,
    Warn,
}

/// One line for the log.
#[derive(Clone, Debug, PartialEq, Eq)]
pub struct LogRecord {
    pub level: Level,
    pub message: String,
}

/// The mathematical content of a `LogRecord`.
pub struct LogRecordView {
    pub level: Level,
    pub message: Seq<char>,
}

impl View for LogRecord {
    type V = LogRecordView;

    open spec fn view(&self) -> LogRecordView {
        LogRecordView { level: self.level, message: self.message@ }
    }
}

/// An informational record with the given text.
pub open spec fn info(message: Seq<char>) -> LogRecordView {
    LogRecordView { level: Level::Info, message }
}

/// A warning with the given text.
pub open spec fn warning(message: Seq<char>) -> LogRecordView {
    LogRecordView { level: Level::Warn, message }
}

/// What is logged when a connection to `endpoint` is established.
pub open spec fn connected(endpoint: Seq<char>) -> LogRecordView {
    info("Connected to "@ + endpoint)
}

/// What is logged when the last connection to `endpoint` is closed.
pub open spec fn disconnected(endpoint: Seq<char>) -> LogRecordView {
    info("Disconnected from "@ + endpoint)
}

/// What is logged when the node starts to listen on `address`.
pub open spec fn listening(address: Seq<char>) -> LogRecordView {
    info("Listening on "@ + address)
}

/// What is logged when a liveness probe of `peer` took `millis` milliseconds.
pub open spec fn round_trip(peer: Seq<char>, millis: nat) -> LogRecordView {
    info("RTT tp "@ + peer + " is "@ + decimal(millis) + "ms"@)
}

/// What is logged when `peer` has announced the protocols it supports.
pub open spec fn identified(peer: Seq<char>, protocols: Seq<Seq<char>>) -> LogRecordView {
    info("Peer "@ + peer + " supports "@ + join(protocols, ", "@))
}

/// The name a message's author is logged under: the peer, or `unknown`
/// where the message names none.
pub open spec fn author(source: Option<Seq<char>>) -> Seq<char> {
    match source {
        Some(peer) => peer,
        None => "unknown"@,
    }
}

/// What is logged when a chat message with the decoded text `text` arrives.
pub open spec fn chat_message(source: Option<Seq<char>>, text: Seq<char>) -> LogRecordView {
    info("Message from "@ + author(source) + ": "@ + text)
}

/// What is logged when the command source has been closed.
pub open spec fn sender_dropped() -> LogRecordView {
    info("Sender dropped, terminating event loop"@)
}

/// What is logged when a dial could not be made.
pub open spec fn dial_failed(cause: Seq<char>) -> LogRecordView {
    warning("Dial failed: "@ + cause)
}

/// What is logged when a message could not be published.
pub open spec fn publish_failed(cause: Seq<char>) -> LogRecordView {
    warning("Publish failed: "@ + cause)
}

/// What is logged of an operator's line that names no known command.
pub open spec fn unknown_command(word: Seq<char>) -> LogRecordView {
    warning("Unknown command: "@ + word)
}

/// What is logged of an operator's `dial` line whose address does not parse.
pub open spec fn invalid_address(text: Seq<char>) -> LogRecordView {
    warning("Invalid address: "@ + text)
}

/// The record that the event loop logs of a network event, if any.
///
/// A closed connection is logged only when it was the last one to its peer.
/// A failed liveness probe is not logged, and neither is an event of a kind
/// not named here.
pub open spec fn observation(event: NetworkEventView) -> Option<LogRecordView> {
    match event {
        NetworkEventView::ConnectionEstablished { endpoint } => Some(connected(endpoint)),
        NetworkEventView::ConnectionClosed { endpoint, remaining } => if remaining == 0 {
            Some(disconnected(endpoint))
        } else {
            None
        },
        NetworkEventView::NewListenAddress { address } => Some(listening(address)),
        NetworkEventView::Liveness { peer, result } => match result {
            LivenessResult::Success(rtt) => Some(round_trip(peer, rtt.millis())),
            LivenessResult::Failure => None,
        },
        NetworkEventView::Metadata { peer, protocols } => Some(identified(peer, protocols)),
        NetworkEventView::GossipMessage { source, payload } => Some(
            chat_message(source, utf8_lossy(payload)),
        ),
        NetworkEventView::Other => None,
    }
}

/// A closed connection is logged as a disconnection exactly when no
/// connection to its peer remains; while some remain, nothing is logged.
pub proof fn law_disconnect_logged_when_none_remain(endpoint: Seq<char>, remaining: nat)
    ensures
        remaining == 0 ==> observation(NetworkEventView::ConnectionClosed { endpoint, remaining })
            == Some(disconnected(endpoint)),
        remaining != 0 ==> observation(NetworkEventView::ConnectionClosed { endpoint, remaining })
            is None,
{
}

impl LogRecord {
    /// A record at `level` whose text is `prefix` followed by `rest`.
    pub fn compose(level: Level, prefix: &str, rest: &str) -> (record: LogRecord)
        ensures
            record@ == (LogRecordView { level, message: prefix@ + rest@ }),
    {
        let mut message = String::from_str(prefix);
        message.append(rest);
        LogRecord { level, message }
    }

    /// The record of a liveness probe of `peer` that took `rtt`.
    pub fn round_trip(peer: &str, rtt: RoundTrip) -> (record: LogRecord)
        ensures
            record@ == round_trip(peer@, rtt.millis()),
    {
        let mut message = String::from_str("RTT tp ");
        message.append(peer);
        message.append(" is ");
        message.append(decimal_string(rtt.as_millis()).as_str());
        message.append("ms");
        LogRecord { level: Level::Info, message }
    }

    /// The record of `peer` having announced `protocols`.
    pub fn identified(peer: &str, protocols: &Vec<String>) -> (record: LogRecord)
        ensures
            record@ == identified(peer@, protocols.deep_view()),
    {
        let mut message = String::from_str("Peer ");
        message.append(peer);
        message.append(" supports ");
        message.append(join_strings(protocols, ", ").as_str());
        LogRecord { level: Level::Info, message }
    }

    /// The record of a chat message from `source` that decoded to `text`.
    pub fn chat_message(source: &Option<String>, text: &str) -> (record: LogRecord)
        ensures
            record@ == chat_message(
                match source {
                    Some(peer) => Some(peer@),
                    None => None,
                },
                text@,
            ),
    {
        let mut message = String::from_str("Message from ");
        match source {
            Some(peer) => message.append(peer.as_str()),
            None => message.append("unknown"),
        }
        message.append(": ");
        message.append(text);
        LogRecord { level: Level::Info, message }
    }

    /// The record of the command source having been closed.
    pub fn sender_dropped() -> (record: LogRecord)
        ensures
            record@ == sender_dropped(),
    {
        LogRecord {
            level: Level::Info,
            message: String::from_str("Sender dropped, terminating event loop"),
        }
    }

    /// The record of a dial that failed for `cause`.
    pub fn dial_failed(cause: &str) -> (record: LogRecord)
        ensures
            record@ == dial_failed(cause@),
    {
        LogRecord::compose(Level::Warn, "Dial failed: ", cause)
    }

    /// The record of a publication that failed for `cause`.
    pub fn publish_failed(cause: &str) -> (record: LogRecord)
        ensures
            record@ == publish_failed(cause@),
    {
        LogRecord::compose(Level::Warn, "Publish failed: ", cause)
    }

    /// The record that the event loop logs of `event`, if any.
    pub fn observe(event: &NetworkEvent) -> (record: Option<LogRecord>)
        ensures
            record is Some <==> observation(event@) is Some,
            record matches Some(r) ==> Some(r@) == observation(event@),
    {
        match event {
            NetworkEvent::ConnectionEstablished { endpoint } => Some(
                LogRecord::compose(Level::Info, "Connected to ", endpoint.as_str()),
            ),
            NetworkEvent::ConnectionClosed { endpoint, remaining } => {
                if *remaining == 0 {
                    Some(LogRecord::compose(Level::Info, "Disconnected from ", endpoint.as_str()))
                } else {
                    None
                }
            },
            NetworkEvent::NewListenAddress { address } => Some(
                LogRecord::compose(Level::Info, "Listening on ", address.as_str()),
            ),
            NetworkEvent::Liveness { peer, result } => match result {
                LivenessResult::Success(rtt) => Some(LogRecord::round_trip(peer.as_str(), *rtt)),
                LivenessResult::Failure => None,
            },
            NetworkEvent::Metadata { peer, protocols } => Some(
                LogRecord::identified(peer.as_str(), protocols),
            ),
            NetworkEvent::GossipMessage { source, payload } => {
                let text = decode_lossy(payload);
                Some(LogRecord::chat_message(source, text.as_str()))
            },
            NetworkEvent::Other => None,
        }
    }
}

} // verus!
