use modius::util::{clone_peers, Peer, PeerError, PeerType, Timestamp};
use modius::NodeBuilder;

const PEER_TEXT: &str = "QmYyQSo1c1Ym7orWxLYvCrM2EmxFTANf8wXmmE7DWjhx5N";
const PEER_BYTES: [u8; 34] = [
    18, 32, 157, 255, 59, 23, 215, 76, 244, 211, 138, 80, 216, 182, 56, 62, 146, 209, 129, 161,
    3, 149, 165, 231, 58, 114, 109, 204, 203, 210, 27, 246, 240, 185,
];
const ADDRESS_TEXT: &str = "/ip4/127.0.0.1/tcp/4001";
const ADDRESS_BYTES: [u8; 8] = [4, 127, 0, 0, 1, 6, 0x0f, 0xa1];

#[test]
fn try_new_reads_identifier_and_address() {
    let peer = Peer::try_new(PeerType::Bootstrap, PEER_TEXT, ADDRESS_TEXT).unwrap();
    assert_eq!(peer.id, PEER_BYTES.to_vec());
    assert_eq!(peer.address, ADDRESS_BYTES.to_vec());
    assert_eq!(peer.kind, PeerType::Bootstrap);
    assert_eq!(peer.last_seen, None);
    assert_eq!(peer.name, None);
}

#[test]
fn try_new_keeps_the_classification() {
    let peer = Peer::try_new(PeerType::Discovered, PEER_TEXT, ADDRESS_TEXT).unwrap();
    assert_eq!(peer.kind, PeerType::Discovered);
}

#[test]
fn try_new_gives_bytes_that_libp2p_reads_back() {
    let peer = Peer::try_new(PeerType::Bootstrap, PEER_TEXT, ADDRESS_TEXT).unwrap();
    let id = libp2p::PeerId::from_bytes(&peer.id).unwrap();
    assert_eq!(id.to_string(), PEER_TEXT);
    let address = libp2p::Multiaddr::try_from(peer.address.clone()).unwrap();
    assert_eq!(address.to_string(), ADDRESS_TEXT);
}

#[test]
fn try_new_rejects_a_malformed_identifier() {
    let res = Peer::try_new(PeerType::Bootstrap, "not a peer id", ADDRESS_TEXT);
    assert!(matches!(res, Err(PeerError::InvalidId(_))));
}

#[test]
fn try_new_rejects_an_empty_identifier() {
    let res = Peer::try_new(PeerType::Bootstrap, "", ADDRESS_TEXT);
    assert!(matches!(res, Err(PeerError::InvalidId(_))));
}

#[test]
fn try_new_rejects_a_malformed_address() {
    let res = Peer::try_new(PeerType::Bootstrap, PEER_TEXT, "127.0.0.1:4001");
    assert!(matches!(res, Err(PeerError::InvalidAddress(_))));
}

#[test]
fn try_new_rejects_a_port_out_of_range() {
    let res = Peer::try_new(PeerType::Bootstrap, PEER_TEXT, "/ip4/127.0.0.1/tcp/70000");
    assert!(matches!(res, Err(PeerError::InvalidAddress(_))));
}

#[test]
fn try_new_reports_the_identifier_first() {
    let res = Peer::try_new(PeerType::Bootstrap, "???", "???");
    assert!(matches!(res, Err(PeerError::InvalidId(_))));
}

#[test]
fn peer_error_carries_the_parsers_message() {
    let err = Peer::try_new(PeerType::Bootstrap, "???", ADDRESS_TEXT).unwrap_err();
    assert!(!err.message().is_empty());
    let expected = match &err {
        PeerError::InvalidId(m) => m.clone(),
        PeerError::InvalidAddress(m) => m.clone(),
    };
    assert_eq!(err.message(), expected);
}

#[test]
fn new_makes_an_unseen_unnamed_peer() {
    let peer = Peer::new(PeerType::Discovered, PEER_BYTES.to_vec(), ADDRESS_BYTES.to_vec());
    assert_eq!(
        peer,
        Peer {
            id: PEER_BYTES.to_vec(),
            address: ADDRESS_BYTES.to_vec(),
            last_seen: None,
            name: None,
            kind: PeerType::Discovered,
        }
    );
}

#[test]
fn clone_keeps_every_field() {
    let peer = Peer {
        id: PEER_BYTES.to_vec(),
        address: ADDRESS_BYTES.to_vec(),
        last_seen: Some(Timestamp { secs: 1_700_000_000, nanos: 5 }),
        name: Some(String::from("relay")),
        kind: PeerType::Bootstrap,
    };
    assert_eq!(peer.clone(), peer);
    let list = vec![peer.clone(), Peer::new(PeerType::Discovered, PEER_BYTES.to_vec(), vec![4, 10, 0, 0, 2])];
    assert_eq!(clone_peers(&list), list);
    assert_eq!(clone_peers(&Vec::new()), Vec::<Peer>::new());
}

#[test]
fn try_bootstrap_adds_a_bootstrap_peer() {
    let mut builder = NodeBuilder::default();
    builder.try_bootstrap(PEER_TEXT, ADDRESS_TEXT).unwrap();
    let peers = builder.peers.clone().unwrap();
    assert_eq!(peers.len(), 1);
    assert_eq!(peers[0], Peer::new(PeerType::Bootstrap, PEER_BYTES.to_vec(), ADDRESS_BYTES.to_vec()));
}

#[test]
fn try_bootstrap_appends_in_order() {
    let mut builder = NodeBuilder::default();
    builder.try_bootstrap(PEER_TEXT, ADDRESS_TEXT).unwrap();
    builder.try_bootstrap(PEER_TEXT, "/ip4/10.0.0.2/tcp/9").unwrap();
    let peers = builder.peers.clone().unwrap();
    assert_eq!(peers.len(), 2);
    assert_eq!(peers[0].address, ADDRESS_BYTES.to_vec());
    assert_eq!(peers[1].address, vec![4, 10, 0, 0, 2, 6, 0, 9]);
}

#[test]
fn try_bootstrap_with_a_malformed_identifier_adds_nothing() {
    let mut builder = NodeBuilder::default();
    let res = builder.try_bootstrap("Qm-not-base58", ADDRESS_TEXT);
    assert!(matches!(res, Err(PeerError::InvalidId(_))));
    assert!(builder.peers.is_none());
}

#[test]
fn try_bootstrap_with_a_malformed_address_adds_nothing() {
    let mut builder = NodeBuilder::default();
    builder.try_bootstrap(PEER_TEXT, ADDRESS_TEXT).unwrap();
    let before = builder.peers.clone();
    let res = builder.try_bootstrap(PEER_TEXT, "/ip4/not-an-ip/tcp/1");
    assert!(matches!(res, Err(PeerError::InvalidAddress(_))));
    assert_eq!(builder.peers, before);
    assert!(builder.key.is_none() && builder.name.is_none());
    assert!(builder.group.is_none() && builder.port.is_none());
}

#[test]
fn with_peer_starts_the_list_where_there_is_none() {
    let mut builder = NodeBuilder::default();
    let peer = Peer::new(PeerType::Discovered, PEER_BYTES.to_vec(), ADDRESS_BYTES.to_vec());
    builder.with_peer(peer.clone());
    assert_eq!(builder.peers, Some(vec![peer]));
}

#[test]
fn with_peer_keeps_the_peers_that_were_set() {
    let first = Peer::new(PeerType::Bootstrap, PEER_BYTES.to_vec(), ADDRESS_BYTES.to_vec());
    let second = Peer::new(PeerType::Discovered, PEER_BYTES.to_vec(), vec![4, 1, 2, 3, 4]);
    let mut builder = NodeBuilder::default();
    builder.peers(vec![first.clone()]);
    builder.with_peer(second.clone());
    assert_eq!(builder.peers, Some(vec![first, second]));
}
