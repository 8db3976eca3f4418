//! Control plane of a peer-to-peer node: identity, peer directory, command
//! protocol and the engine's event loop, with machine-checked contracts.
//!
//! A [`Node`] is a keypair, a list of known peers and a few settings. It is
//! built by a [`NodeBuilder`], stored as a [`SavedNode`], and becomes active
//! once the handles of a running engine are installed in it.

use crate::key::{
    decoded_key, generate_keypair, keypair_from_bytes, KeyError, NodeKey, NodeKeyView,
};
use crate::net::channel::{share_receiver, share_sender, share_task};
use crate::net::client::{listen_text, Client, EngineError, EngineState};
use crate::net::command::CommandWrapper;
use crate::net::event::Event;
use crate::text::{signed_decimal, signed_decimal_string};
use crate::util::{
    clone_peers, multiaddr_from_text, peer_id_from_text, peer_views, Peer, PeerError, PeerType,
    PeerView,
};
use async_channel::{Receiver, Sender};
use std::sync::Arc;
use tokio::task::JoinHandle;
use vstd::prelude::*;
use vstd::string::StringExecFns;

pub mod key;
pub mod net;
pub mod text;
pub mod util;

verus! {

/// The port of a node that was given none.
pub const DEFAULT_PORT: usize = 8000;

/// The group of a node that was given none.
pub open spec fn default_group() -> Seq<char> {
    "modius.generic"@
}

/// The name of a node that was given none, made at the Unix time `now`.
pub open spec fn default_name(now: int) -> Seq<char> {
    signed_decimal(now) + ".modius"@
}

/// The name of a node that was given none, made at the Unix time `now`.
pub fn default_name_at(now: i64) -> (name: String)
    ensures
        name@ == default_name(now as int),
{
    let mut name = signed_decimal_string(now);
    name.append(".modius");
    name
}

/// The handle of the task that runs an engine's loop.
pub type TaskHandle = Arc<JoinHandle<Result<(), EngineError>>>;

/// A node: its identity, the peers it knows, and the handles of its engine
/// while one runs.
#[derive(Debug)]
pub struct Node {
    pub key: NodeKey,
    pub peers: Vec<Peer>,
    pub name: String,
    pub group: String,
    pub port: usize,
    /// The sending side of the engine's command channel.
    pub commands: Option<Sender<CommandWrapper>>,
    /// The receiving side of the engine's event channel.
    pub events: Option<Receiver<Event>>,
    /// The task that runs the engine's loop.
    pub thread: Option<TaskHandle>,
}

/// What a [`Node`] holds, as mathematical values.
pub struct NodeView {
    pub key: NodeKeyView,
    pub peers: Seq<PeerView>,
    pub name: Seq<char>,
    pub group: Seq<char>,
    pub port: usize,
    pub commands: Option<Sender<CommandWrapper>>,
    pub events: Option<Receiver<Event>>,
    pub thread: Option<TaskHandle>,
}

impl View for Node {
    type V = NodeView;

    open spec fn view(&self) -> NodeView {
        NodeView {
            key: self.key@,
            peers: peer_views(self.peers@),
            name: self.name@,
            group: self.group@,
            port: self.port,
            commands: self.commands,
            events: self.events,
            thread: self.thread,
        }
    }
}

impl Clone for Node {
    /// A copy of the node. Its handles are further handles on the same
    /// channels and the same task.
    fn clone(&self) -> (res: Self)
        ensures
            res@ == self@,
    {
        Node {
            key: self.key.clone(),
            peers: clone_peers(&self.peers),
            name: self.name.clone(),
            group: self.group.clone(),
            port: self.port,
            commands: match &self.commands {
                Some(sender) => Some(share_sender(sender)),
                None => None,
            },
            events: match &self.events {
                Some(receiver) => Some(share_receiver(receiver)),
                None => None,
            },
            thread: match &self.thread {
                Some(handle) => Some(share_task(handle)),
                None => None,
            },
        }
    }
}

/// Every peer of the list is well-formed.
pub open spec fn peers_wf(peers: Seq<PeerView>) -> bool {
    forall|i: int| 0 <= i < peers.len() ==> (#[trigger] peers[i]).wf()
}

impl NodeView {
    /// No engine is attached: all three handles are absent.
    pub open spec fn dormant(self) -> bool {
        self.commands is None && self.events is None && self.thread is None
    }

    /// An engine is attached: all three handles are present.
    pub open spec fn linked(self) -> bool {
        self.commands is Some && self.events is Some && self.thread is Some
    }

    /// The key is in its stored form, every peer is well-formed, and the
    /// handles are all present or all absent.
    pub open spec fn wf(self) -> bool {
        &&& self.key.wf()
        &&& peers_wf(self.peers)
        &&& (self.dormant() || self.linked())
    }

    /// The node without its handles.
    pub open spec fn at_rest(self) -> NodeView {
        NodeView { commands: None, events: None, thread: None, ..self }
    }

    /// What is stored of the node.
    pub open spec fn saved(self) -> SavedNodeView {
        SavedNodeView {
            key: self.key.encoded,
            peers: self.peers,
            name: self.name,
            group: self.group,
            port: self.port,
        }
    }
}

/// The durable part of a node: the encoded keypair, the peers and the
/// settings.
#[derive(Debug, PartialEq, Eq)]
pub struct SavedNode {
    pub key: Vec<u8>,
    pub peers: Vec<Peer>,
    pub name: String,
    pub group: String,
    pub port: usize,
}

impl Clone for SavedNode {
    fn clone(&self) -> (res: Self)
        ensures
            res@ == self@,
    {
        SavedNode {
            key: self.key.clone(),
            peers: clone_peers(&self.peers),
            name: self.name.clone(),
            group: self.group.clone(),
            port: self.port,
        }
    }
}

/// What a [`SavedNode`] holds, as mathematical values.
pub struct SavedNodeView {
    pub key: Seq<u8>,
    pub peers: Seq<PeerView>,
    pub name: Seq<char>,
    pub group: Seq<char>,
    pub port: usize,
}

impl View for SavedNode {
    type V = SavedNodeView;

    open spec fn view(&self) -> SavedNodeView {
        SavedNodeView {
            key: self.key@,
            peers: peer_views(self.peers@),
            name: self.name@,
            group: self.group@,
            port: self.port,
        }
    }
}

impl SavedNodeView {
    /// The dormant node that the stored values give, or `None` where the
    /// stored key is no keypair.
    pub open spec fn hydrated(self) -> Option<NodeView> {
        match decoded_key(self.key) {
            Some(key) => Some(
                NodeView {
                    key,
                    peers: self.peers,
                    name: self.name,
                    group: self.group,
                    port: self.port,
                    commands: None,
                    events: None,
                    thread: None,
                },
            ),
            None => None,
        }
    }
}

/// Storing a node and reading it back gives the node itself, at rest: the
/// same name, group, port and peers, and the same key, which is stored
/// again as the same bytes.
pub proof fn lemma_save_then_hydrate(node: NodeView)
    requires
        node.key.wf(),
    ensures
        node.saved().hydrated() == Some(node.at_rest()),
        node.saved().hydrated()->0.saved() == node.saved(),
        node.saved().hydrated()->0.dormant(),
{
}

impl SavedNode {
    /// The dormant node that the stored values give.
    ///
    /// Fails exactly where the stored key does not decode to a keypair, with
    /// the decoder's message. Peers, name, group and port cannot make it fail.
    pub fn hydrate(&self) -> (res: Result<Node, KeyError>)
        ensures
            res is Err <==> keypair_from_bytes(self.key@) is None,
            match res {
                Ok(node) => self@.hydrated() == Some(node@),
                Err(_) => self@.hydrated() is None,
            },
            res matches Ok(node) ==> node.key.wf() && (peers_wf(self@.peers) ==> node.wf()),
    {
        let key = match NodeKey::normalise(&self.key) {
            Ok(key) => key,
            Err(e) => {
                return Err(e);
            },
        };
        Ok(
            Node {
                key,
                peers: clone_peers(&self.peers),
                name: self.name.clone(),
                group: self.group.clone(),
                port: self.port,
                commands: None,
                events: None,
                thread: None,
            },
        )
    }

    /// What is stored of `node`: the keypair's encoding, the peers and the
    /// settings, without the handles.
    pub fn save(node: &Node) -> (saved: SavedNode)
        ensures
            saved@ == node@.saved(),
    {
        SavedNode {
            key: node.key.encoded.clone(),
            peers: clone_peers(&node.peers),
            name: node.name.clone(),
            group: node.group.clone(),
            port: node.port,
        }
    }
}

/// A node is live on these reports: the command sender is there and reports
/// its channel not closed, the event receiver is there and reports its channel
/// not closed, and the task is there and reports that it has not finished.
pub open spec fn live_on(
    commands_closed: Option<bool>,
    events_closed: Option<bool>,
    finished: Option<bool>,
) -> bool {
    commands_closed == Some(false) && events_closed == Some(false) && finished == Some(false)
}

/// `later` is a report of the handle that gave `earlier`, made no sooner: the
/// handle is there both times or neither time, and what was closed or
/// finished has stayed so.
pub open spec fn follows(earlier: Option<bool>, later: Option<bool>) -> bool {
    (earlier is None <==> later is None) && (earlier == Some(true) ==> later == Some(true))
}

/// Whether a node is live, from what its three handles report: whether the
/// command channel is closed, whether the event channel is closed, and
/// whether the task has finished, each where the handle is there. The node is
/// live where all three are there and none reports so.
pub fn liveness_of_reports(
    commands_closed: Option<bool>,
    events_closed: Option<bool>,
    finished: Option<bool>,
) -> (live: bool)
    ensures
        live == live_on(commands_closed, events_closed, finished),
{
    match (commands_closed, events_closed, finished) {
        (Some(false), Some(false), Some(false)) => true,
        _ => false,
    }
}

/// Liveness is not regained. A channel that is closed stays closed and a task
/// that has finished stays finished; so where a node was found not to be live
/// on the reports of its handles, no later reports of the same handles make
/// it live.
pub proof fn lemma_liveness_is_not_regained(
    earlier: (Option<bool>, Option<bool>, Option<bool>),
    later: (Option<bool>, Option<bool>, Option<bool>),
)
    requires
        follows(earlier.0, later.0),
        follows(earlier.1, later.1),
        follows(earlier.2, later.2),
        !live_on(earlier.0, earlier.1, earlier.2),
    ensures
        !live_on(later.0, later.1, later.2),
{
    if earlier.0 != Some(false) {
        assert(earlier.0 is None || earlier.0 == Some(true));
    } else if earlier.1 != Some(false) {
        assert(earlier.1 is None || earlier.1 == Some(true));
    } else {
        assert(earlier.2 is None || earlier.2 == Some(true));
    }
}

impl Node {
    /// The key is in its stored form, every peer is well-formed, and the
    /// handles are all present or all absent.
    pub open spec fn wf(&self) -> bool {
        self@.wf()
    }

    /// The protobuf encoding of the node's public key.
    pub fn public_key(&self) -> (public: Vec<u8>)
        ensures
            public@ == self.key.public@,
    {
        self.key.public.clone()
    }

    /// The bytes of the node's peer identifier.
    pub fn peer_id(&self) -> (id: Vec<u8>)
        ensures
            id@ == self.key.peer_id@,
    {
        self.key.peer_id.clone()
    }

    /// The node's peer identifier as text.
    pub fn id(&self) -> (id: String)
        ensures
            id@ == self.key.id@,
    {
        self.key.id.clone()
    }

    /// Whether the node's engine is up at this moment: the command sender is
    /// present and open, the event receiver is present and open, and the task
    /// is present and has not finished.
    ///
    /// The answer is made anew from the handles at every call.
    pub fn active(&self) -> (live: bool)
        ensures
            live ==> self@.linked(),
    {
        let commands_closed = match &self.commands {
            Some(sender) => Some(sender.is_closed()),
            None => None,
        };
        let events_closed = match &self.events {
            Some(receiver) => Some(receiver.is_closed()),
            None => None,
        };
        let finished = match &self.thread {
            Some(handle) => Some(handle.is_finished()),
            None => None,
        };
        liveness_of_reports(commands_closed, events_closed, finished)
    }

    /// A new engine for this node's key, name, group and port, with the
    /// sender of its commands and the receiver of its events.
    ///
    /// Fails where the node's port gives no address to listen on.
    pub fn engine(&self) -> (res: Result<
        (Client, Sender<CommandWrapper>, Receiver<Event>),
        EngineError,
    >)
        ensures
            match res {
                Ok(ends) => {
                    &&& multiaddr_from_text(listen_text(self.port)) is Some
                    &&& ends.0@ == EngineState::initial()
                    &&& ends.0.key@ == self.key.encoded@
                    &&& ends.0.name@ == self.name@
                    &&& ends.0.group@ == self.group@
                    &&& ends.0.port == self.port
                },
                Err(e) => e is Bind && multiaddr_from_text(listen_text(self.port)) is None,
            },
    {
        let ends = Client::create(
            self.key.encoded.clone(),
            self.name.clone(),
            self.group.clone(),
            self.port,
        );
        match ends.0.listen_address() {
            Ok(_) => Ok(ends),
            Err(e) => Err(e),
        }
    }

    /// Takes in the outcome of starting an engine: installs its three handles
    /// where it started, and leaves the node as it was where it did not.
    pub fn activate(
        &mut self,
        started: Result<(Sender<CommandWrapper>, Receiver<Event>, TaskHandle), EngineError>,
    ) -> (res: Result<(), EngineError>)
        ensures
            match started {
                Ok(handles) => res is Ok && final(self)@ == (NodeView {
                    commands: Some(handles.0),
                    events: Some(handles.1),
                    thread: Some(handles.2),
                    ..old(self)@
                }),
                Err(e) => res == Err::<(), EngineError>(e) && *final(self) == *old(self),
            },
            old(self).wf() ==> final(self).wf(),
    {
        match started {
            Ok((commands, events, thread)) => {
                self.commands = Some(commands);
                self.events = Some(events);
                self.thread = Some(thread);
                Ok(())
            },
            Err(e) => Err(e),
        }
    }

    /// What is stored of the node.
    pub fn save(&self) -> (saved: SavedNode)
        ensures
            saved@ == self@.saved(),
    {
        SavedNode::save(self)
    }

    /// The dormant node that the stored values give.
    pub fn load(state: SavedNode) -> (res: Result<Node, KeyError>)
        ensures
            res is Err <==> keypair_from_bytes(state.key@) is None,
            match res {
                Ok(node) => state@.hydrated() == Some(node@),
                Err(_) => state@.hydrated() is None,
            },
            res matches Ok(node) ==> node.key.wf() && (peers_wf(state@.peers) ==> node.wf()),
    {
        state.hydrate()
    }
}

/// The settings of a node that is yet to be built. What is left unset gets
/// its default when the node is built.
#[derive(Debug)]
pub struct NodeBuilder {
    /// The protobuf encoding of the keypair.
    pub key: Option<Vec<u8>>,
    pub peers: Option<Vec<Peer>>,
    pub name: Option<String>,
    pub group: Option<String>,
    pub port: Option<usize>,
}

/// What a [`NodeBuilder`] holds, as mathematical values.
pub struct NodeBuilderView {
    pub key: Option<Seq<u8>>,
    pub peers: Option<Seq<PeerView>>,
    pub name: Option<Seq<char>>,
    pub group: Option<Seq<char>>,
    pub port: Option<usize>,
}

impl View for NodeBuilder {
    type V = NodeBuilderView;

    open spec fn view(&self) -> NodeBuilderView {
        NodeBuilderView {
            key: match self.key {
                Some(k) => Some(k@),
                None => None,
            },
            peers: match self.peers {
                Some(p) => Some(peer_views(p@)),
                None => None,
            },
            name: match self.name {
                Some(n) => Some(n@),
                None => None,
            },
            group: match self.group {
                Some(g) => Some(g@),
                None => None,
            },
            port: self.port,
        }
    }
}

impl NodeBuilderView {
    /// The peers that were set, or none.
    pub open spec fn known_peers(self) -> Seq<PeerView> {
        match self.peers {
            Some(p) => p,
            None => Seq::empty(),
        }
    }

    /// The settings with one more peer at the end of the list.
    pub open spec fn with_peer(self, peer: PeerView) -> NodeBuilderView {
        NodeBuilderView { peers: Some(self.known_peers().push(peer)), ..self }
    }

    /// The node that these settings give where a key had to be generated and
    /// came out as the bytes `fresh`, at the Unix time `now`; `None` where
    /// the key, set or generated, is no keypair.
    pub open spec fn built(self, fresh: Seq<u8>, now: int) -> Option<NodeView> {
        let source = match self.key {
            Some(k) => k,
            None => fresh,
        };
        match decoded_key(source) {
            Some(key) => Some(
                NodeView {
                    key,
                    peers: self.known_peers(),
                    name: match self.name {
                        Some(n) => n,
                        None => default_name(now),
                    },
                    group: match self.group {
                        Some(g) => g,
                        None => default_group(),
                    },
                    port: match self.port {
                        Some(p) => p,
                        None => DEFAULT_PORT,
                    },
                    commands: None,
                    events: None,
                    thread: None,
                },
            ),
            None => None,
        }
    }
}

impl Default for NodeBuilder {
    fn default() -> (builder: Self)
        ensures
            builder.key is None,
            builder.peers is None,
            builder.name is None,
            builder.group is None,
            builder.port is None,
    {
        NodeBuilder { key: None, peers: None, name: None, group: None, port: None }
    }
}

impl NodeBuilder {
    /// Sets the keypair, by its protobuf encoding.
    pub fn key(&mut self, value: Vec<u8>) -> (ret: &mut Self)
        ensures
            *ret == (NodeBuilder { key: Some(value), ..*old(self) }),
            *final(self) == *final(ret),
    {
        self.key = Some(value);
        self
    }

    /// Sets the list of peers.
    pub fn peers(&mut self, value: Vec<Peer>) -> (ret: &mut Self)
        ensures
            *ret == (NodeBuilder { peers: Some(value), ..*old(self) }),
            *final(self) == *final(ret),
    {
        self.peers = Some(value);
        self
    }

    /// Sets the name.
    pub fn name(&mut self, value: String) -> (ret: &mut Self)
        ensures
            *ret == (NodeBuilder { name: Some(value), ..*old(self) }),
            *final(self) == *final(ret),
    {
        self.name = Some(value);
        self
    }

    /// Sets the group.
    pub fn group(&mut self, value: String) -> (ret: &mut Self)
        ensures
            *ret == (NodeBuilder { group: Some(value), ..*old(self) }),
            *final(self) == *final(ret),
    {
        self.group = Some(value);
        self
    }

    /// Sets the port.
    pub fn port(&mut self, value: usize) -> (ret: &mut Self)
        ensures
            *ret == (NodeBuilder { port: Some(value), ..*old(self) }),
            *final(self) == *final(ret),
    {
        self.port = Some(value);
        self
    }

    /// Adds a bootstrap peer from the text of its identifier and of its
    /// address. Where either is malformed the call fails and the settings
    /// stay as they were.
    pub fn try_bootstrap(&mut self, id: &str, addr: &str) -> (res: Result<(), PeerError>)
        ensures
            match res {
                Ok(_) => {
                    &&& peer_id_from_text(id@) matches Some(i)
                    &&& multiaddr_from_text(addr@) matches Some(a)
                    &&& final(self)@ == old(self)@.with_peer(
                        PeerView::fresh(PeerType::Bootstrap, i, a),
                    )
                },
                Err(PeerError::InvalidId(_)) => {
                    &&& peer_id_from_text(id@) is None
                    &&& *final(self) == *old(self)
                },
                Err(PeerError::InvalidAddress(_)) => {
                    &&& peer_id_from_text(id@) is Some
                    &&& multiaddr_from_text(addr@) is None
                    &&& *final(self) == *old(self)
                },
            },
            peers_wf(old(self)@.known_peers()) ==> peers_wf(final(self)@.known_peers()),
    {
        match Peer::try_new(PeerType::Bootstrap, id, addr) {
            Ok(peer) => {
                self.with_peer(peer);
                Ok(())
            },
            Err(e) => Err(e),
        }
    }

    /// Adds a peer at the end of the list.
    pub fn with_peer(&mut self, peer: Peer)
        ensures
            final(self)@ == old(self)@.with_peer(peer@),
            peer.wf() && peers_wf(old(self)@.known_peers()) ==> peers_wf(
                final(self)@.known_peers(),
            ),
    {
        let mut peers = match self.peers.take() {
            Some(peers) => peers,
            None => Vec::new(),
        };
        proof {
            assert(peer_views(peers@.push(peer)) =~= peer_views(peers@).push(peer@));
            assert(peer_views(Seq::<Peer>::empty()) =~= Seq::<PeerView>::empty());
        }
        peers.push(peer);
        self.peers = Some(peers);
    }

    /// The node that the settings give, with `fresh` for the key where none
    /// was set and the default name of the Unix time `now` where none was
    /// set.
    pub fn build_from(&self, fresh: &Vec<u8>, now: i64) -> (res: Result<Node, KeyError>)
        ensures
            match res {
                Ok(node) => self@.built(fresh@, now as int) == Some(node@) && node.key.wf(),
                Err(_) => self@.built(fresh@, now as int) is None,
            },
            res matches Ok(node) ==> (peers_wf(self@.known_peers()) ==> node.wf()),
    {
        let key = match &self.key {
            Some(encoded) => NodeKey::normalise(encoded),
            None => NodeKey::normalise(fresh),
        };
        let key = match key {
            Ok(key) => key,
            Err(e) => {
                return Err(e);
            },
        };
        let peers = match &self.peers {
            Some(peers) => clone_peers(peers),
            None => Vec::new(),
        };
        proof {
            assert(peer_views(Seq::<Peer>::empty()) =~= Seq::<PeerView>::empty());
        }
        let name = match &self.name {
            Some(name) => name.clone(),
            None => default_name_at(now),
        };
        let group = match &self.group {
            Some(group) => group.clone(),
            None => String::from_str("modius.generic"),
        };
        let port = match self.port {
            Some(port) => port,
            None => DEFAULT_PORT,
        };
        Ok(Node { key, peers, name, group, port, commands: None, events: None, thread: None })
    }

    /// The node that the settings give at the Unix time `now`. Where no key
    /// was set a new one is generated, and where no name was set the node is
    /// named after `now`.
    ///
    /// Fails exactly where a key was set that does not decode to a keypair.
    pub fn build(&self, now: i64) -> (res: Result<Node, KeyError>)
        ensures
            res is Err <==> (self.key matches Some(k) && keypair_from_bytes(k@) is None),
            res matches Ok(node) ==> node.key.wf() && exists|fresh: Seq<u8>| #[trigger]
                self@.built(fresh, now as int) == Some(node@),
            res matches Ok(node) ==> (peers_wf(self@.known_peers()) ==> node.wf()),
    {
        let fresh = match &self.key {
            Some(_) => Vec::new(),
            None => match generate_keypair() {
                Ok(encoded) => encoded,
                Err(message) => {
                    return Err(KeyError::Malformed(message));
                },
            },
        };
        self.build_from(&fresh, now)
    }
}

} // verus!
