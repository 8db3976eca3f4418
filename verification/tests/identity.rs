use modius::key::{KeyError, NodeKey};
use modius::net::client::{EngineError, Phase};
use modius::util::{Peer, PeerType, Timestamp};
use modius::{
    default_name_at, liveness_of_reports, Node, NodeBuilder, SavedNode, TaskHandle,
    DEFAULT_PORT,
};
use std::sync::Arc;

// The keypair of RFC 8032, section 7.1, test 1, as a protobuf private key.
const KEY: [u8; 68] = [
    8, 1, 18, 64, 157, 97, 177, 157, 239, 253, 90, 96, 186, 132, 74, 244, 146, 236, 44, 196, 68,
    73, 197, 105, 123, 50, 105, 25, 112, 59, 172, 3, 28, 174, 127, 96, 215, 90, 152, 1, 130, 177,
    10, 183, 213, 75, 254, 211, 201, 100, 7, 58, 14, 225, 114, 243, 218, 166, 35, 37, 175, 2, 26,
    104, 247, 7, 81, 26,
];
const PUBLIC: [u8; 36] = [
    8, 1, 18, 32, 215, 90, 152, 1, 130, 177, 10, 183, 213, 75, 254, 211, 201, 100, 7, 58, 14, 225,
    114, 243, 218, 166, 35, 37, 175, 2, 26, 104, 247, 7, 81, 26,
];
const ID: &str = "12D3KooWQK1wnefoLrcVHbbnf5tLzbopUd3K3bFAoJpA7YJgL5pV";
const NOW: i64 = 1_700_000_000;

const PEER_TEXT: &str = "QmYyQSo1c1Ym7orWxLYvCrM2EmxFTANf8wXmmE7DWjhx5N";
const ADDRESS_TEXT: &str = "/ip4/127.0.0.1/tcp/4001";

fn peer_id_bytes() -> Vec<u8> {
    let mut bytes = vec![0, 36];
    bytes.extend_from_slice(&PUBLIC);
    bytes
}

fn saved(key: Vec<u8>) -> SavedNode {
    SavedNode {
        key,
        peers: vec![Peer::try_new(PeerType::Bootstrap, PEER_TEXT, ADDRESS_TEXT).unwrap()],
        name: String::from("alpha"),
        group: String::from("lab"),
        port: 4100,
    }
}

#[test]
fn normalise_derives_public_key_and_identifier() {
    let key = NodeKey::normalise(&KEY.to_vec()).unwrap();
    assert_eq!(key.encoded, KEY.to_vec());
    assert_eq!(key.public, PUBLIC.to_vec());
    assert_eq!(key.peer_id, peer_id_bytes());
    assert_eq!(key.id, ID);
}

#[test]
fn normalise_agrees_with_libp2p() {
    let pair = libp2p::identity::Keypair::generate_ed25519();
    let bytes = pair.to_protobuf_encoding().unwrap();
    let key = NodeKey::normalise(&bytes).unwrap();
    assert_eq!(key.encoded, bytes);
    assert_eq!(key.public, pair.public().encode_protobuf());
    assert_eq!(key.peer_id, pair.public().to_peer_id().to_bytes());
    assert_eq!(key.id, pair.public().to_peer_id().to_string());
}

#[test]
fn normalise_brings_an_encoding_into_stored_form() {
    // The same key with a field that the decoder skips.
    let mut padded = KEY.to_vec();
    padded.extend_from_slice(&[0x18, 0x00]);
    let key = NodeKey::normalise(&padded).unwrap();
    assert_eq!(key.encoded, KEY.to_vec());
    assert_eq!(key.id, ID);
}

#[test]
fn normalise_rejects_bytes_that_are_no_key() {
    assert!(matches!(NodeKey::normalise(&vec![1, 2, 3]), Err(KeyError::Malformed(_))));
    assert!(matches!(NodeKey::normalise(&Vec::new()), Err(KeyError::Malformed(_))));
}

#[test]
fn normalise_rejects_a_key_whose_halves_disagree() {
    let mut broken = KEY.to_vec();
    broken[67] ^= 1;
    assert!(matches!(NodeKey::normalise(&broken), Err(KeyError::Malformed(_))));
}

#[test]
fn normalise_rejects_a_truncated_key() {
    let short = KEY[..40].to_vec();
    match NodeKey::normalise(&short) {
        Err(KeyError::Malformed(message)) => assert!(!message.is_empty()),
        other => panic!("unexpected: {:?}", other),
    }
}

#[test]
fn key_clone_keeps_every_value() {
    let key = NodeKey::normalise(&KEY.to_vec()).unwrap();
    assert_eq!(key.clone(), key);
}

#[test]
fn normalise_gives_a_key_that_reads_back_as_itself() {
    let generated = libp2p::identity::Keypair::generate_ed25519().to_protobuf_encoding().unwrap();
    for bytes in [KEY.to_vec(), generated] {
        let key = NodeKey::normalise(&bytes).unwrap();
        assert_eq!(NodeKey::normalise(&key.encoded).unwrap(), key);
    }
}

#[test]
fn hydrate_gives_a_dormant_node() {
    let node = saved(KEY.to_vec()).hydrate().unwrap();
    assert_eq!(node.key.encoded, KEY.to_vec());
    assert_eq!(node.name, "alpha");
    assert_eq!(node.group, "lab");
    assert_eq!(node.port, 4100);
    assert_eq!(node.peers, saved(KEY.to_vec()).peers);
    assert!(node.commands.is_none() && node.events.is_none() && node.thread.is_none());
    assert!(!node.active());
}

#[test]
fn hydrate_fails_on_a_malformed_key() {
    let res = saved(vec![0xff, 0xff, 0xff]).hydrate();
    match res {
        Err(KeyError::Malformed(message)) => assert!(!message.is_empty()),
        _ => panic!("a malformed key was accepted"),
    }
}

#[test]
fn save_then_hydrate_reproduces_the_node() {
    let mut builder = NodeBuilder::default();
    builder.key(KEY.to_vec()).name(String::from("n1")).group(String::from("g1")).port(9001);
    builder.try_bootstrap(PEER_TEXT, ADDRESS_TEXT).unwrap();
    let node = builder.build(NOW).unwrap();
    let stored = node.save();
    assert_eq!(stored.key, KEY.to_vec());
    let back = stored.hydrate().unwrap();
    assert_eq!(back.key, node.key);
    assert_eq!(back.peers, node.peers);
    assert_eq!(back.name, node.name);
    assert_eq!(back.group, node.group);
    assert_eq!(back.port, node.port);
    let again = back.save();
    assert_eq!(again.key, stored.key);
    assert_eq!(again.peers, stored.peers);
    assert_eq!(again.name, stored.name);
    assert_eq!(again.group, stored.group);
    assert_eq!(again.port, stored.port);
}

#[test]
fn save_then_hydrate_keeps_peer_details() {
    let mut peer = Peer::try_new(PeerType::Discovered, PEER_TEXT, ADDRESS_TEXT).unwrap();
    peer.last_seen = Some(Timestamp { secs: 12, nanos: 34 });
    peer.name = Some(String::from("friend"));
    let mut builder = NodeBuilder::default();
    builder.key(KEY.to_vec()).peers(vec![peer.clone()]);
    let node = builder.build(NOW).unwrap();
    let back = Node::load(node.save()).unwrap();
    assert_eq!(back.peers, vec![peer]);
}

#[test]
fn save_of_a_generated_key_reads_back() {
    let node = NodeBuilder::default().build(NOW).unwrap();
    let back = Node::load(node.save()).unwrap();
    assert_eq!(back.key, node.key);
    assert_eq!(back.id(), node.id());
}

#[test]
fn getters_give_what_the_key_holds() {
    let node = saved(KEY.to_vec()).hydrate().unwrap();
    assert_eq!(node.public_key(), PUBLIC.to_vec());
    assert_eq!(node.peer_id(), peer_id_bytes());
    assert_eq!(node.id(), ID);
}

#[test]
fn build_fills_in_the_defaults() {
    let node = NodeBuilder::default().build(NOW).unwrap();
    assert_eq!(node.group, "modius.generic");
    assert_eq!(node.port, 8000);
    assert_eq!(DEFAULT_PORT, 8000);
    assert!(node.peers.is_empty());
    assert_eq!(node.name, "1700000000.modius");
    assert!(node.commands.is_none() && node.events.is_none() && node.thread.is_none());
    assert!(libp2p::identity::Keypair::from_protobuf_encoding(&node.key.encoded).is_ok());
}

#[test]
fn build_without_a_key_always_succeeds() {
    for now in [i64::MIN, -1, 0, 1, i64::MAX] {
        let node = NodeBuilder::default().build(now).unwrap();
        assert_eq!(node.name, format!("{}.modius", now));
        assert_eq!(NodeKey::normalise(&node.key.encoded).unwrap(), node.key);
    }
}

#[test]
fn build_generates_a_new_key_each_time() {
    let a = NodeBuilder::default().build(NOW).unwrap();
    let b = NodeBuilder::default().build(NOW).unwrap();
    assert!(a.key != b.key);
}

#[test]
fn build_keeps_what_was_set() {
    let mut builder = NodeBuilder::default();
    builder.key(KEY.to_vec()).name(String::from("named")).group(String::from("grp")).port(1);
    let node = builder.build(NOW).unwrap();
    assert_eq!(node.id(), ID);
    assert_eq!(node.name, "named");
    assert_eq!(node.group, "grp");
    assert_eq!(node.port, 1);
}

#[test]
fn build_rejects_a_malformed_key() {
    let mut builder = NodeBuilder::default();
    builder.key(vec![9, 9, 9]);
    assert!(matches!(builder.build(NOW), Err(KeyError::Malformed(_))));
}

#[test]
fn build_from_uses_the_given_key_and_time() {
    let builder = NodeBuilder::default();
    let node = builder.build_from(&KEY.to_vec(), 1_700_000_000).unwrap();
    assert_eq!(node.id(), ID);
    assert_eq!(node.name, "1700000000.modius");
    assert_eq!(node.group, "modius.generic");
    assert_eq!(node.port, 8000);
}

#[test]
fn build_from_prefers_the_key_that_was_set() {
    let mut builder = NodeBuilder::default();
    builder.key(KEY.to_vec());
    let node = builder.build_from(&vec![1, 2, 3], 0).unwrap();
    assert_eq!(node.key.encoded, KEY.to_vec());
    let unset = NodeBuilder::default();
    assert!(matches!(unset.build_from(&vec![1, 2, 3], 0), Err(KeyError::Malformed(_))));
}

#[test]
fn default_name_is_the_time_and_a_suffix() {
    assert_eq!(default_name_at(0), "0.modius");
    assert_eq!(default_name_at(1_431_648_000), "1431648000.modius");
    assert_eq!(default_name_at(-5), "-5.modius");
}

#[test]
fn engine_is_bound_to_the_nodes_settings() {
    let node = saved(KEY.to_vec()).hydrate().unwrap();
    let (client, commands, events) = node.engine().unwrap();
    assert_eq!(client.key, KEY.to_vec());
    assert_eq!(client.name, "alpha");
    assert_eq!(client.group, "lab");
    assert_eq!(client.port, 4100);
    assert_eq!(client.phase, Phase::Constructing);
    assert!(!commands.is_closed());
    assert!(!events.is_closed());
}

#[test]
fn activate_with_a_failure_leaves_the_node_dormant() {
    let mut node = saved(KEY.to_vec()).hydrate().unwrap();
    let res = node.activate(Err(EngineError::Bind(String::from("port taken"))));
    assert_eq!(res, Err(EngineError::Bind(String::from("port taken"))));
    assert!(node.commands.is_none() && node.events.is_none() && node.thread.is_none());
    assert!(!node.active());
    assert_eq!(node.name, "alpha");
}

#[test]
fn active_follows_the_three_handles() {
    let runtime = tokio::runtime::Builder::new_current_thread().build().unwrap();
    let mut node = saved(KEY.to_vec()).hydrate().unwrap();
    let (client, commands, events) = node.engine().unwrap();
    let (gate_tx, gate_rx) = async_channel::bounded::<()>(1);
    let task = runtime.spawn(async move {
        let _ = gate_rx.recv().await;
        Ok::<(), EngineError>(())
    });
    let thread: TaskHandle = Arc::new(task);
    assert_eq!(node.activate(Ok((commands, events, thread.clone()))), Ok(()));
    assert!(node.active());

    // The task ends: the node is no longer live, and stays so.
    gate_tx.close();
    runtime.block_on(async {
        while !thread.is_finished() {
            tokio::task::yield_now().await;
        }
    });
    assert!(!node.active());
    assert!(!node.active());
    drop(client);
}

#[test]
fn active_is_false_once_a_channel_is_closed() {
    let runtime = tokio::runtime::Builder::new_current_thread().build().unwrap();
    let mut node = saved(KEY.to_vec()).hydrate().unwrap();
    let (client, commands, events) = node.engine().unwrap();
    let (_gate_tx, gate_rx) = async_channel::bounded::<()>(1);
    let task = runtime.spawn(async move {
        let _ = gate_rx.recv().await;
        Ok::<(), EngineError>(())
    });
    node.activate(Ok((commands, events, Arc::new(task)))).unwrap();
    assert!(node.active());
    client.events.close();
    assert!(!node.active());
}

#[test]
fn active_is_false_with_a_handle_missing() {
    let runtime = tokio::runtime::Builder::new_current_thread().build().unwrap();
    let mut node = saved(KEY.to_vec()).hydrate().unwrap();
    let (_client, commands, events) = node.engine().unwrap();
    let task = runtime.spawn(async { Ok::<(), EngineError>(()) });
    node.activate(Ok((commands, events, Arc::new(task)))).unwrap();
    node.events = None;
    assert!(!node.active());
}

#[test]
fn engine_fails_on_a_port_without_an_address() {
    let mut stored = saved(KEY.to_vec());
    stored.port = 70_000;
    let node = stored.hydrate().unwrap();
    assert!(matches!(node.engine(), Err(EngineError::Bind(_))));
    stored.port = 65_535;
    assert!(stored.hydrate().unwrap().engine().is_ok());
}

#[test]
fn liveness_of_reports_needs_all_three_up() {
    assert!(liveness_of_reports(Some(false), Some(false), Some(false)));
    assert!(!liveness_of_reports(Some(true), Some(false), Some(false)));
    assert!(!liveness_of_reports(Some(false), Some(true), Some(false)));
    assert!(!liveness_of_reports(Some(false), Some(false), Some(true)));
    assert!(!liveness_of_reports(None, Some(false), Some(false)));
    assert!(!liveness_of_reports(Some(false), None, Some(false)));
    assert!(!liveness_of_reports(Some(false), Some(false), None));
    assert!(!liveness_of_reports(Some(true), Some(true), Some(true)));
}

#[test]
fn hydrate_succeeds_on_every_key_that_decodes() {
    let mut padded = KEY.to_vec();
    padded.extend_from_slice(&[0x18, 0x00]);
    let generated = libp2p::identity::Keypair::generate_ed25519().to_protobuf_encoding().unwrap();
    for bytes in [KEY.to_vec(), padded, generated] {
        assert!(libp2p::identity::Keypair::from_protobuf_encoding(&bytes).is_ok());
        let node = saved(bytes).hydrate().unwrap();
        assert!(node.commands.is_none() && node.events.is_none() && node.thread.is_none());
        assert!(!node.active());
        assert_eq!(node.peers, saved(Vec::new()).peers);
        assert_eq!((node.name.as_str(), node.group.as_str(), node.port), ("alpha", "lab", 4100));
    }
}

#[test]
fn hydrate_fails_exactly_where_the_key_does_not_decode() {
    let mut broken = KEY.to_vec();
    broken[10] ^= 0x55;
    for bytes in [Vec::new(), vec![8, 1], KEY[..67].to_vec(), broken] {
        assert!(libp2p::identity::Keypair::from_protobuf_encoding(&bytes).is_err());
        assert!(matches!(saved(bytes).hydrate(), Err(KeyError::Malformed(_))));
    }
}

#[test]
fn saved_node_clone_keeps_every_field() {
    let stored = saved(KEY.to_vec());
    assert_eq!(stored.clone(), stored);
}

#[test]
fn node_clone_keeps_every_field_and_shares_the_handles() {
    let runtime = tokio::runtime::Builder::new_current_thread().build().unwrap();
    let mut node = saved(KEY.to_vec()).hydrate().unwrap();
    let dormant = node.clone();
    assert_eq!(dormant.key, node.key);
    assert_eq!(dormant.peers, node.peers);
    assert_eq!((&dormant.name, &dormant.group, dormant.port), (&node.name, &node.group, node.port));
    assert!(dormant.commands.is_none() && dormant.events.is_none() && dormant.thread.is_none());

    let (client, commands, events) = node.engine().unwrap();
    let (_gate_tx, gate_rx) = async_channel::bounded::<()>(1);
    let task = runtime.spawn(async move {
        let _ = gate_rx.recv().await;
        Ok::<(), EngineError>(())
    });
    node.activate(Ok((commands, events, Arc::new(task)))).unwrap();
    let twin = node.clone();
    assert!(node.active() && twin.active());
    assert!(twin.commands.as_ref().unwrap().same_channel(node.commands.as_ref().unwrap()));
    assert!(twin.events.as_ref().unwrap().same_channel(node.events.as_ref().unwrap()));
    assert!(Arc::ptr_eq(twin.thread.as_ref().unwrap(), node.thread.as_ref().unwrap()));
    client.commands.close();
    assert!(!node.active() && !twin.active());
}

#[test]
fn activate_with_a_failed_setup_leaves_the_node_dormant() {
    let mut node = saved(KEY.to_vec()).hydrate().unwrap();
    let res = node.activate(Err(EngineError::Setup(String::from("no transport"))));
    assert_eq!(res, Err(EngineError::Setup(String::from("no transport"))));
    assert!(node.commands.is_none() && node.events.is_none() && node.thread.is_none());
    assert_eq!(EngineError::Setup(String::from("x")).clone(), EngineError::Setup(String::from("x")));
}
