//! The node's keypair, held in plain values.
//!
//! Decoding, encoding and derivation are `libp2p`'s. The library keeps a
//! keypair as the bytes that `libp2p` writes for it, together with the public
//! key and the peer identifier that `libp2p` derives from it.

use vstd::prelude::*;

verus! {

/// A keypair in plain values: how `libp2p` writes it, and what it derives
/// from it.
#[derive(Debug, PartialEq, Eq)]
pub struct NodeKey {
    /// The protobuf encoding of the keypair.
    pub encoded: Vec<u8>,
    /// The protobuf encoding of the public key.
    pub public: Vec<u8>,
    /// The bytes of the peer identifier that belongs to the public key.
    pub peer_id: Vec<u8>,
    /// The peer identifier as base-58 text.
    pub id: String,
}

/// What a [`NodeKey`] holds, as mathematical values.
pub struct NodeKeyView {
    pub encoded: Seq<u8>,
    pub public: Seq<u8>,
    pub peer_id: Seq<u8>,
    pub id: Seq<char>,
}

impl View for NodeKey {
    type V = NodeKeyView;

    open spec fn view(&self) -> NodeKeyView {
        NodeKeyView {
            encoded: self.encoded@,
            public: self.public@,
            peer_id: self.peer_id@,
            id: self.id@,
        }
    }
}

/// The keypair that `libp2p` reads from `bytes`, by the four values that it
/// gives for it (its encoding, its public key's encoding, its peer
/// identifier in bytes and in text), or `None` where it cannot read the bytes
/// or cannot write the keypair.
pub uninterp spec fn keypair_from_bytes(bytes: Seq<u8>) -> Option<
    (Seq<u8>, Seq<u8>, Seq<u8>, Seq<char>),
>;

impl NodeKeyView {
    /// The four values as a tuple.
    pub open spec fn parts(self) -> (Seq<u8>, Seq<u8>, Seq<u8>, Seq<char>) {
        (self.encoded, self.public, self.peer_id, self.id)
    }

    /// The key of the four values.
    pub open spec fn of(parts: (Seq<u8>, Seq<u8>, Seq<u8>, Seq<char>)) -> NodeKeyView {
        NodeKeyView { encoded: parts.0, public: parts.1, peer_id: parts.2, id: parts.3 }
    }

    /// The key is in its stored form: `libp2p` reads its encoding back as
    /// this very key.
    pub open spec fn wf(self) -> bool {
        keypair_from_bytes(self.encoded) == Some(self.parts())
    }
}

/// The key that `bytes` encode, or `None` where they encode none.
pub open spec fn decoded_key(bytes: Seq<u8>) -> Option<NodeKeyView> {
    match keypair_from_bytes(bytes) {
        Some(parts) => Some(NodeKeyView::of(parts)),
        None => None,
    }
}

/// Calls `libp2p::identity::Keypair::from_protobuf_encoding` and, on the
/// keypair it yields, `Keypair::to_protobuf_encoding`, `Keypair::public`
/// with `PublicKey::encode_protobuf`, and `PublicKey::to_peer_id` with
/// `PeerId::to_bytes` and `PeerId::to_base58`.
///
/// Trusted: the outcome is a function of the bytes alone, and what `libp2p`
/// writes for a keypair it reads back as the same keypair, so that the
/// encoding that is handed out decodes to the key that is handed out. On
/// failure the string is the message of the decoding error.
#[verifier::external_body]
pub(crate) fn decode_keypair(bytes: &Vec<u8>) -> (res: Result<NodeKey, String>)
    ensures
        match res {
            Ok(key) => keypair_from_bytes(bytes@) == Some(key@.parts()),
            Err(_) => keypair_from_bytes(bytes@) is None,
        },
        res matches Ok(key) ==> keypair_from_bytes(key.encoded@) == Some(key@.parts()),
{
    match libp2p::identity::Keypair::from_protobuf_encoding(bytes.as_slice()) {
        Ok(pair) => match pair.to_protobuf_encoding() {
            Ok(encoded) => {
                let public = pair.public().encode_protobuf();
                let peer = pair.public().to_peer_id();
                Ok(NodeKey { encoded, public, peer_id: peer.to_bytes(), id: peer.to_base58() })
            },
            Err(e) => Err(e.to_string()),
        },
        Err(e) => Err(e.to_string()),
    }
}

/// Calls `libp2p::identity::Keypair::generate_ed25519` and, on the keypair
/// it yields, `Keypair::to_protobuf_encoding`.
///
/// Trusted: an Ed25519 keypair can always be written, and what is written
/// decodes to a keypair. Which keypair it is, is left open: it is random.
#[verifier::external_body]
pub(crate) fn generate_keypair() -> (res: Result<Vec<u8>, String>)
    ensures
        res is Ok,
        res matches Ok(written) ==> keypair_from_bytes(written@) is Some,
{
    match libp2p::identity::Keypair::generate_ed25519().to_protobuf_encoding() {
        Ok(written) => Ok(written),
        Err(e) => Err(e.to_string()),
    }
}

/// Why bytes were not taken for a keypair.
#[derive(Debug, PartialEq, Eq)]
pub enum KeyError {
    /// The bytes do not decode to a keypair that can be stored; the decoder's
    /// message.
    Malformed(String),
}

impl KeyError {
    /// The reason.
    pub fn message(&self) -> (text: String)
        ensures
            text@ == self->Malformed_0@,
    {
        match self {
            KeyError::Malformed(m) => m.clone(),
        }
    }
}

impl Clone for NodeKey {
    fn clone(&self) -> (res: Self)
        ensures
            res@ == self@,
    {
        NodeKey {
            encoded: self.encoded.clone(),
            public: self.public.clone(),
            peer_id: self.peer_id.clone(),
            id: self.id.clone(),
        }
    }
}

impl NodeKey {
    /// The key is in its stored form.
    pub open spec fn wf(&self) -> bool {
        self@.wf()
    }

    /// The key that `bytes` encode, in its stored form: the bytes are read
    /// and the keypair is written out again by `libp2p`.
    ///
    /// Fails exactly where `libp2p` does not decode the bytes, with its
    /// message.
    pub fn normalise(bytes: &Vec<u8>) -> (res: Result<NodeKey, KeyError>)
        ensures
            match res {
                Ok(key) => decoded_key(bytes@) == Some(key@) && key.wf(),
                Err(_) => keypair_from_bytes(bytes@) is None,
            },
    {
        match decode_keypair(bytes) {
            Ok(key) => Ok(key),
            Err(message) => Err(KeyError::Malformed(message)),
        }
    }
}

} // verus!
