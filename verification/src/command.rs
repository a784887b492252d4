//! Operator commands and the line format they are written in.

use crate::address::multiaddr_encoding;
use crate::address::PeerAddress;
use crate::record::invalid_address;
use crate::record::unknown_command;
use crate::record::Level;
use crate::record::LogRecord;
use crate::record::LogRecordView;
use crate::text::chars_of;
use crate::text::find_char;
use crate::text::trim;
use crate::text::trim_bounds;
use vstd::prelude::*;
use vstd::string::StrSliceExecFns;
use vstd::string::StringExecFns;

verus! {

/// What the operator can ask of the node.
#[derive(Clone, Debug, PartialEq, Eq)]
pub enum Command {
    /// Publish a chat message.
    Publish(String),
    /// Dial a peer.
    Dial(PeerAddress),
}

/// The mathematical content of a `Command`.
pub enum CommandView {
    Publish(Seq<char>),
    Dial(Seq<u8>),
}

impl View for Command {
    type V = CommandView;

    open spec fn view(&self) -> CommandView {
        match self {
            Command::Publish(message) => CommandView::Publish(message@),
            Command::Dial(address) => CommandView::Dial(address@),
        }
    }
}

/// The address that the node dials at startup.
pub const BOOTSTRAP_NODE: &'static str = "/dns4/libp2p-workshop-bootnode.fly.dev/tcp/9999";

/// The position of the first colon in `line`, or its length where it has none.
pub open spec fn first_colon(line: Seq<char>) -> int
    decreases line.len(),
{
    if line.len() == 0 || line.first() == ':' {
        0
    } else {
        1 + first_colon(line.drop_first())
    }
}

/// Where no colon stands before position `at`, and one stands at `at` or the
/// line ends there, `at` is the position of the first colon.
pub proof fn lemma_first_colon(line: Seq<char>, at: int)
    requires
        0 <= at <= line.len(),
        forall|j: int| 0 <= j < at ==> line[j] != ':',
        at < line.len() ==> line[at] == ':',
    ensures
        first_colon(line) == at,
    decreases at,
{
    if at > 0 {
        let rest = line.drop_first();
        assert(line[0] != ':');
        assert forall|j: int| 0 <= j < at - 1 implies rest[j] != ':' by {
            assert(rest[j] == line[j + 1]);
        }
        lemma_first_colon(rest, at - 1);
    }
}

/// What a line of operator input asks for, before any address is looked at.
#[derive(Clone, Debug, PartialEq, Eq)]
pub enum Request {
    /// `send: <message>`
    Send(String),
    /// `dial: <address>`
    Dial(String),
    /// `quit`
    Quit,
    /// The empty line.
    Empty,
    /// Anything else; the word is the line's first field.
    Unknown(String),
}

/// The mathematical content of a `Request`.
pub enum RequestView {
    Send(Seq<char>),
    Dial(Seq<char>),
    Quit,
    Empty,
    Unknown(Seq<char>),
}

impl View for Request {
    type V = RequestView;

    open spec fn view(&self) -> RequestView {
        match self {
            Request::Send(message) => RequestView::Send(message@),
            Request::Dial(text) => RequestView::Dial(text@),
            Request::Quit => RequestView::Quit,
            Request::Empty => RequestView::Empty,
            Request::Unknown(word) => RequestView::Unknown(word@),
        }
    }
}

/// The request that `line` makes.
///
/// A line is cut into fields at its colons, and each field is trimmed. Two
/// fields of which the first is `send` or `dial` make a request with the
/// second as its argument; the single field `quit` asks to leave. The empty
/// line asks for nothing. Every other line is unknown, and known by its
/// first field.
pub open spec fn request(line: Seq<char>) -> RequestView {
    let colon = first_colon(line);
    let word = trim(line.subrange(0, colon));
    if line.len() == 0 {
        RequestView::Empty
    } else if colon == line.len() {
        if word == "quit"@ {
            RequestView::Quit
        } else {
            RequestView::Unknown(word)
        }
    } else {
        let rest = line.subrange(colon + 1, line.len() as int);
        if rest.contains(':') {
            RequestView::Unknown(word)
        } else if word == "send"@ {
            RequestView::Send(trim(rest))
        } else if word == "dial"@ {
            RequestView::Dial(trim(rest))
        } else {
            RequestView::Unknown(word)
        }
    }
}

/// What became of a line of operator input.
#[derive(Clone, Debug, PartialEq, Eq)]
pub enum Line {
    /// The line is a command, to be forwarded to the event loop.
    Command(Command),
    /// The operator asks to leave: the reader stops and closes the channel.
    Quit,
    /// The line is empty and ignored.
    Empty,
    /// The line names no known command; nothing is forwarded.
    Unknown(String),
    /// The line asks to dial what is no address; nothing is forwarded.
    InvalidAddress(String),
}

/// The mathematical content of a `Line`.
pub enum LineView {
    Command(CommandView),
    Quit,
    Empty,
    Unknown(Seq<char>),
    InvalidAddress(Seq<char>),
}

impl View for Line {
    type V = LineView;

    open spec fn view(&self) -> LineView {
        match self {
            Line::Command(command) => LineView::Command(command@),
            Line::Quit => LineView::Quit,
            Line::Empty => LineView::Empty,
            Line::Unknown(word) => LineView::Unknown(word@),
            Line::InvalidAddress(text) => LineView::InvalidAddress(text@),
        }
    }
}

/// What a request to dial `text` comes to, given the encoding of `text` as
/// an address, if it has one.
pub open spec fn dial_outcome(text: Seq<char>, encoding: Option<Seq<u8>>) -> LineView {
    match encoding {
        Some(bytes) => LineView::Command(CommandView::Dial(bytes)),
        None => LineView::InvalidAddress(text),
    }
}

/// What a line of operator input comes to.
pub open spec fn outcome(line: Seq<char>) -> LineView {
    match request(line) {
        RequestView::Send(message) => LineView::Command(CommandView::Publish(message)),
        RequestView::Dial(text) => dial_outcome(text, multiaddr_encoding(text)),
        RequestView::Quit => LineView::Quit,
        RequestView::Empty => LineView::Empty,
        RequestView::Unknown(word) => LineView::Unknown(word),
    }
}

/// The warning that a line's outcome is logged with, if it earns one.
pub open spec fn complaint(line: LineView) -> Option<LogRecordView> {
    match line {
        LineView::Unknown(word) => Some(unknown_command(word)),
        LineView::InvalidAddress(text) => Some(invalid_address(text)),
        _ => None,
    }
}

fn field(line: &str, chars: &Vec<char>, from: usize, to: usize) -> (text: String)
    requires
        chars@ == line@,
        from <= to <= chars.len(),
    ensures
        text@ == trim(line@.subrange(from as int, to as int)),
{
    let (start, end) = trim_bounds(chars, from, to);
    String::from_str(line.substring_char(start, end))
}

fn is_word(text: &String, word: &str) -> (same: bool)
    ensures
        same == (text@ == word@),
{
    *text == String::from_str(word)
}

/// Reads the request that `line` makes.
pub fn read_request(line: &str) -> (read: Request)
    ensures
        read@ == request(line@),
{
    let chars = chars_of(line);
    let len = chars.len();
    if len == 0 {
        return Request::Empty;
    }
    let colon = find_char(&chars, 0, ':');
    proof {
        lemma_first_colon(line@, colon as int);
    }
    let word = field(line, &chars, 0, colon);
    if colon == len {
        if is_word(&word, "quit") {
            return Request::Quit;
        }
        return Request::Unknown(word);
    }
    let second = find_char(&chars, colon + 1, ':');
    let ghost rest = line@.subrange(colon + 1, len as int);
    if second < len {
        assert(rest[second - colon - 1] == ':');
        return Request::Unknown(word);
    }
    assert(!rest.contains(':')) by {
        if rest.contains(':') {
            let j = choose|j: int| 0 <= j < rest.len() && rest[j] == ':';
            assert(chars[colon + 1 + j] == ':');
        }
    }
    if is_word(&word, "send") {
        Request::Send(field(line, &chars, colon + 1, len))
    } else if is_word(&word, "dial") {
        Request::Dial(field(line, &chars, colon + 1, len))
    } else {
        Request::Unknown(word)
    }
}

impl Line {
    /// What a request to dial `text` comes to, given the address that `text`
    /// parsed to, if it parsed.
    pub fn dial(text: String, address: Option<PeerAddress>) -> (line: Line)
        ensures
            line@ == dial_outcome(
                text@,
                match address {
                    Some(parsed) => Some(parsed@),
                    None => None,
                },
            ),
    {
        match address {
            Some(parsed) => Line::Command(Command::Dial(parsed)),
            None => Line::InvalidAddress(text),
        }
    }

    /// Parses a line of operator input, without its line end.
    pub fn parse(line: &str) -> (parsed: Line)
        ensures
            parsed@ == outcome(line@),
    {
        match read_request(line) {
            Request::Send(message) => Line::Command(Command::Publish(message)),
            Request::Dial(text) => {
                let address = PeerAddress::parse(text.as_str());
                Line::dial(text, address)
            },
            Request::Quit => Line::Quit,
            Request::Empty => Line::Empty,
            Request::Unknown(word) => Line::Unknown(word),
        }
    }

    /// The warning that this outcome is logged with, if it earns one.
    pub fn warning(&self) -> (record: Option<LogRecord>)
        ensures
            record is Some <==> complaint(self@) is Some,
            record matches Some(r) ==> Some(r@) == complaint(self@),
    {
        match self {
            Line::Unknown(word) => Some(
                LogRecord::compose(Level::Warn, "Unknown command: ", word.as_str()),
            ),
            Line::InvalidAddress(text) => Some(
                LogRecord::compose(Level::Warn, "Invalid address: ", text.as_str()),
            ),
            _ => None,
        }
    }
}

/// The command that dials the bootstrap address, or `None` where that
/// address does not parse, which ends startup.
pub fn bootstrap_command() -> (command: Option<Command>)
    ensures
        command is Some <==> multiaddr_encoding(BOOTSTRAP_NODE@) is Some,
        command matches Some(dial) ==> Some(dial@) == match multiaddr_encoding(BOOTSTRAP_NODE@) {
            Some(bytes) => Some(CommandView::Dial(bytes)),
            None => None,
        },
{
    match PeerAddress::parse(BOOTSTRAP_NODE) {
        Some(address) => Some(Command::Dial(address)),
        None => None,
    }
}

} // verus!
