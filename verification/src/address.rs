//! Peer addresses: multiaddresses held by their binary encoding.

use vstd::prelude::*;

verus! {

/// The error of the multiaddress parser, carried through unread.
#[verifier::external_type_specification]
#[verifier::external_body]
pub struct ExMultiaddrError(libp2p::multiaddr::Error);

/// The binary encoding of the multiaddress that `text` denotes, or `None`
/// where `text` denotes none. This is what `Multiaddr`'s `FromStr` computes.
pub uninterp spec fn multiaddr_encoding(text: Seq<char>) -> Option<Seq<u8>>;

/// Calls `<libp2p::Multiaddr as FromStr>::from_str` and, on success,
/// `Multiaddr::to_vec`.
///
/// Trusted: the parser is a function of its text alone, so its outcome is
/// named `multiaddr_encoding`; success hands back the bytes that the
/// multiaddress holds, failure the parser's own error.
#[verifier::external_body]
fn encode_multiaddr(text: &str) -> (r: Result<Vec<u8>, libp2p::multiaddr::Error>)
    ensures
        r is Ok <==> multiaddr_encoding(text@) is Some,
        r matches Ok(bytes) ==> multiaddr_encoding(text@) == Some(bytes@),
{
    match text.parse::<libp2p::Multiaddr>() {
        Ok(address) => Ok(address.to_vec()),
        Err(error) => Err(error),
    }
}

/// A structured network address, immutable once made.
///
/// It can only be made by parsing, so the bytes it holds are always the
/// encoding of some address text.
#[derive(Clone, Debug, PartialEq, Eq)]
pub struct PeerAddress {
    bytes: Vec<u8>,
}

impl View for PeerAddress {
    type V = Seq<u8>;

    closed spec fn view(&self) -> Seq<u8> {
        self.bytes@
    }
}

impl PeerAddress {
    /// The address that a parser outcome stands for: its bytes on success,
    /// nothing on failure.
    pub fn from_parsed(parsed: Result<Vec<u8>, libp2p::multiaddr::Error>) -> (r: Option<
        PeerAddress,
    >)
        ensures
            r is Some <==> parsed is Ok,
            r matches Some(address) ==> address@ == parsed->Ok_0@,
    {
        match parsed {
            Ok(bytes) => Some(PeerAddress { bytes }),
            Err(_) => None,
        }
    }

    /// Parses the textual form of an address, such as `/ip4/127.0.0.1/tcp/4001`.
    pub fn parse(text: &str) -> (r: Option<PeerAddress>)
        ensures
            r is Some <==> multiaddr_encoding(text@) is Some,
            r matches Some(address) ==> multiaddr_encoding(text@) == Some(address@),
    {
        PeerAddress::from_parsed(encode_multiaddr(text))
    }

    /// The binary encoding of the address.
    pub fn as_bytes(&self) -> (bytes: &Vec<u8>)
        ensures
            bytes@ == self@,
    {
        &self.bytes
    }
}

} // verus!
