//! Value objects describing remote peers.
//!
//! A peer is known by the binary form of its identifier (a multihash) and of
//! its address (a multiaddress). Both are produced by the `libp2p` parsers, so
//! a well-formed [`Peer`] only ever holds bytes that those parsers gave out.

use std::str::FromStr;
use vstd::prelude::*;

verus! {

/// The bytes of the peer identifier that `libp2p` reads from `text`, or `None`
/// where it rejects the text.
pub uninterp spec fn peer_id_from_text(text: Seq<char>) -> Option<Seq<u8>>;

/// The bytes of the multiaddress that `libp2p` reads from `text`, or `None`
/// where it rejects the text.
pub uninterp spec fn multiaddr_from_text(text: Seq<char>) -> Option<Seq<u8>>;

/// `bytes` is the binary form of some textual peer identifier.
pub open spec fn is_peer_id(bytes: Seq<u8>) -> bool {
    exists|text: Seq<char>| peer_id_from_text(text) == Some(bytes)
}

/// `bytes` is the binary form of some textual multiaddress.
pub open spec fn is_multiaddr(bytes: Seq<u8>) -> bool {
    exists|text: Seq<char>| multiaddr_from_text(text) == Some(bytes)
}

/// Calls `libp2p::PeerId::from_str` and, on success, `PeerId::to_bytes`.
///
/// Trusted: the outcome is a function of the text alone. On success the
/// bytes are the identifier's multihash; on failure the string is the
/// parser's own message.
#[verifier::external_body]
pub(crate) fn parse_peer_id(text: &str) -> (res: Result<Vec<u8>, String>)
    ensures
        match res {
            Ok(bytes) => peer_id_from_text(text@) == Some(bytes@),
            Err(_) => peer_id_from_text(text@) is None,
        },
{
    match libp2p::PeerId::from_str(text) {
        Ok(id) => Ok(id.to_bytes()),
        Err(e) => Err(e.to_string()),
    }
}

/// Calls `libp2p::Multiaddr::from_str` and, on success, `Multiaddr::to_vec`.
///
/// Trusted: the outcome is a function of the text alone. On success the
/// bytes are the address's binary encoding; on failure the string is the
/// parser's own message.
#[verifier::external_body]
pub(crate) fn parse_multiaddr(text: &str) -> (res: Result<Vec<u8>, String>)
    ensures
        match res {
            Ok(bytes) => multiaddr_from_text(text@) == Some(bytes@),
            Err(_) => multiaddr_from_text(text@) is None,
        },
{
    match libp2p::Multiaddr::from_str(text) {
        Ok(address) => Ok(address.to_vec()),
        Err(e) => Err(e.to_string()),
    }
}

/// How a peer came to be known to this node.
#[derive(Clone, Copy, Debug, PartialEq, Eq, Structural)]
pub enum PeerType {
    /// Supplied when the node was configured.
    Bootstrap,
    /// Found while the node was running.
    Discovered,
}

/// A point in time: seconds since the Unix epoch and the nanoseconds within
/// that second.
#[derive(Clone, Copy, Debug, PartialEq, Eq, Structural)]
pub struct Timestamp {
    pub secs: i64,
    pub nanos: u32,
}

/// Why a peer could not be made from text.
#[derive(Debug, PartialEq, Eq)]
pub enum PeerError {
    /// The identifier is not a peer identifier; the parser's message.
    InvalidId(String),
    /// The address is not a multiaddress; the parser's message.
    InvalidAddress(String),
}

impl PeerError {
    /// The parser's message.
    pub fn message(&self) -> (text: String)
        ensures
            text@ == match *self {
                PeerError::InvalidId(m) => m@,
                PeerError::InvalidAddress(m) => m@,
            },
    {
        match self {
            PeerError::InvalidId(m) => m.clone(),
            PeerError::InvalidAddress(m) => m.clone(),
        }
    }
}

/// A remote node as this node knows it.
#[derive(Debug, PartialEq, Eq)]
pub struct Peer {
    /// Binary form of the peer identifier.
    pub id: Vec<u8>,
    /// Binary form of the multiaddress.
    pub address: Vec<u8>,
    /// When the peer was last heard from, if ever.
    pub last_seen: Option<Timestamp>,
    /// A human-readable name, if one is known.
    pub name: Option<String>,
    /// How the peer came to be known.
    pub kind: PeerType,
}

/// What a [`Peer`] holds, as mathematical values.
pub struct PeerView {
    pub id: Seq<u8>,
    pub address: Seq<u8>,
    pub last_seen: Option<Timestamp>,
    pub name: Option<Seq<char>>,
    pub kind: PeerType,
}

impl View for Peer {
    type V = PeerView;

    open spec fn view(&self) -> PeerView {
        PeerView {
            id: self.id@,
            address: self.address@,
            last_seen: self.last_seen,
            name: match self.name {
                Some(n) => Some(n@),
                None => None,
            },
            kind: self.kind,
        }
    }
}

impl PeerView {
    /// Identifier and address have both come out of the parsers.
    pub open spec fn wf(self) -> bool {
        is_peer_id(self.id) && is_multiaddr(self.address)
    }

    /// The peer that construction yields: never seen, unnamed.
    pub open spec fn fresh(kind: PeerType, id: Seq<u8>, address: Seq<u8>) -> PeerView {
        PeerView { id, address, last_seen: None, name: None, kind }
    }
}

/// The views of a list of peers, in order.
pub open spec fn peer_views(peers: Seq<Peer>) -> Seq<PeerView> {
    peers.map_values(|p: Peer| p@)
}

impl Clone for Peer {
    fn clone(&self) -> (res: Self)
        ensures
            res@ == self@,
    {
        Peer {
            id: self.id.clone(),
            address: self.address.clone(),
            last_seen: self.last_seen,
            name: match &self.name {
                Some(n) => Some(n.clone()),
                None => None,
            },
            kind: self.kind,
        }
    }
}

impl Peer {
    /// Identifier and address have both come out of the parsers.
    pub open spec fn wf(&self) -> bool {
        self@.wf()
    }

    /// A peer from an identifier and an address already in binary form.
    pub fn new(kind: PeerType, id: Vec<u8>, address: Vec<u8>) -> (peer: Peer)
        requires
            is_peer_id(id@),
            is_multiaddr(address@),
        ensures
            peer@ == PeerView::fresh(kind, id@, address@),
            peer.wf(),
    {
        Peer { id, address, kind, last_seen: None, name: None }
    }

    /// A peer from the text of its identifier and of its address.
    ///
    /// The identifier is read first: where both are malformed, the
    /// identifier's error is reported.
    pub fn try_new(kind: PeerType, id: &str, address: &str) -> (res: Result<Peer, PeerError>)
        ensures
            match res {
                Ok(peer) => {
                    &&& peer_id_from_text(id@) matches Some(i)
                    &&& multiaddr_from_text(address@) matches Some(a)
                    &&& peer@ == PeerView::fresh(kind, i, a)
                    &&& peer.wf()
                },
                Err(PeerError::InvalidId(_)) => peer_id_from_text(id@) is None,
                Err(PeerError::InvalidAddress(_)) => {
                    &&& peer_id_from_text(id@) is Some
                    &&& multiaddr_from_text(address@) is None
                },
            },
    {
        let peer_id = match parse_peer_id(id) {
            Ok(bytes) => bytes,
            Err(message) => {
                return Err(PeerError::InvalidId(message));
            },
        };
        let multiaddr = match parse_multiaddr(address) {
            Ok(bytes) => bytes,
            Err(message) => {
                return Err(PeerError::InvalidAddress(message));
            },
        };
        Ok(Peer::new(kind, peer_id, multiaddr))
    }
}

/// A copy of a list of peers, equal to it peer by peer.
pub fn clone_peers(peers: &Vec<Peer>) -> (res: Vec<Peer>)
    ensures
        peer_views(res@) == peer_views(peers@),
{
    let mut out: Vec<Peer> = Vec::new();
    let mut i: usize = 0;
    while i < peers.len()
        invariant
            i <= peers.len(),
            out.len() == i,
            forall|j: int| 0 <= j < i ==> out[j]@ == peers[j]@,
        decreases peers.len() - i,
    {
        out.push(peers[i].clone());
        i += 1;
    }
    assert(peer_views(out@) =~= peer_views(peers@));
    out
}

} // verus!
