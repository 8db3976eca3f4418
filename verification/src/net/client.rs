//! The network engine's control loop, as a state machine.
//!
//! The engine owns the receiving side of the command channel and the sending
//! side of the event channel. The network stack itself, and the waiting on
//! it, belong to whoever drives the engine: the driver reports what happened
//! as a [`LoopEvent`], and [`Client::step`] answers with the one [`Action`]
//! to perform next. Every decision of the loop is taken here.

use crate::net::command::{
    unit_response, unit_text, CommandError, CommandErrorView, CommandKind, CommandWrapper,
    Response, response_view,
};
use crate::net::event::Event;
use crate::text::{decimal, push_decimal};
use crate::util::{multiaddr_from_text, parse_multiaddr};
use async_channel::{Receiver, Sender};
use vstd::prelude::*;
use vstd::string::StringExecFns;

verus! {

/// Where the engine stands in its life.
#[derive(Clone, Copy, Debug, PartialEq, Eq, Structural)]
pub enum Phase {
    /// Created; no listener yet.
    Constructing,
    /// Bound to the configured port; the loop has not begun to wait.
    Listening,
    /// The loop is serving commands, stack events and inbound streams.
    Running,
    /// The loop has ended; the listener is being removed.
    Draining,
    /// The listener is gone and both channels are closed.
    Terminated,
}

/// How far the dispatch of the command in hand has come.
#[derive(Clone, Copy, Debug, PartialEq, Eq, Structural)]
pub enum Stage {
    /// The dial was requested; its outcome is awaited.
    Dialing,
    /// The dial succeeded and the registration was requested; its outcome is
    /// awaited.
    Registering,
}

/// The command that the engine is serving.
#[derive(Debug)]
pub struct Pending {
    pub envelope: CommandWrapper,
    pub stage: Stage,
}

/// Why the engine stopped.
#[derive(Debug, PartialEq, Eq)]
pub enum EngineError {
    /// The network stack could not be set up; the reason.
    Setup(String),
    /// The listener could not be bound; the reason.
    Bind(String),
    /// One of the sources that the loop waits on failed for good; the reason.
    Loop(String),
    /// The listener could not be removed.
    Teardown,
    /// The driver reported something that cannot happen in the engine's phase.
    Unexpected,
}

/// An [`EngineError`] as mathematical values.
pub enum FaultView {
    Setup(Seq<char>),
    Bind(Seq<char>),
    Loop(Seq<char>),
    Teardown,
    Unexpected,
}

impl View for EngineError {
    type V = FaultView;

    open spec fn view(&self) -> FaultView {
        match *self {
            EngineError::Setup(m) => FaultView::Setup(m@),
            EngineError::Bind(m) => FaultView::Bind(m@),
            EngineError::Loop(m) => FaultView::Loop(m@),
            EngineError::Teardown => FaultView::Teardown,
            EngineError::Unexpected => FaultView::Unexpected,
        }
    }
}

impl Clone for EngineError {
    fn clone(&self) -> (res: Self)
        ensures
            res@ == self@,
    {
        match self {
            EngineError::Setup(m) => EngineError::Setup(m.clone()),
            EngineError::Bind(m) => EngineError::Bind(m.clone()),
            EngineError::Loop(m) => EngineError::Loop(m.clone()),
            EngineError::Teardown => EngineError::Teardown,
            EngineError::Unexpected => EngineError::Unexpected,
        }
    }
}

/// The view of a fault that may be absent.
pub open spec fn fault_view(fault: Option<EngineError>) -> Option<FaultView> {
    match fault {
        Some(e) => Some(e@),
        None => None,
    }
}

/// The result that a run ends with: the fault, if there was one.
pub open spec fn verdict(fault: Option<FaultView>) -> Result<(), FaultView> {
    match fault {
        Some(f) => Err(f),
        None => Ok(()),
    }
}

/// What the driver reports to the engine.
#[derive(Debug)]
pub enum LoopEvent {
    /// The listener is bound.
    Bound,
    /// The listener could not be bound; the reason.
    BindFailed(String),
    /// Inbound streams of the application protocol are being accepted.
    Ready,
    /// A command arrived on the command channel.
    Command(CommandWrapper),
    /// The network stack reported something of its own.
    Swarm,
    /// The peer with this identifier opened a stream of the application
    /// protocol.
    Stream(Vec<u8>),
    /// The command channel is closed: every sender is gone.
    Closed,
    /// One of the sources that the loop waits on failed for good; the reason.
    Failed(String),
    /// The outcome of the dial that the engine asked for.
    Dialed(Result<(), String>),
    /// The outcome of the registration that the engine asked for.
    Registered(Result<(), String>),
    /// The response that the engine gave out has been put on its channel, or
    /// dropped where the caller had gone.
    Responded,
    /// The stream that the engine gave out has been handed to the stream
    /// handler.
    Handed,
    /// The listener was removed, or (`false`) could not be.
    Unbound(bool),
}

/// What the driver is to do next.
#[derive(Debug)]
pub enum Action {
    /// Accept inbound streams of this application protocol, then report
    /// `Ready` or `Failed`.
    Accept { protocol: String },
    /// Wait on the three sources and report whichever is ready first.
    Wait,
    /// Dial this address, then report `Dialed`.
    Dial { address: Vec<u8> },
    /// Register this node under the namespace with the peer as rendezvous
    /// point and without a time to live, then report `Registered`.
    Register { namespace: String, rendezvous: Vec<u8> },
    /// Send the response on the envelope's channel, then report `Responded`.
    Respond { envelope: CommandWrapper, response: Response },
    /// Hand the stream that this peer opened to the stream handler, then
    /// report `Handed`.
    Hand { peer: Vec<u8> },
    /// Remove the listener, then report `Unbound`.
    RemoveListener,
    /// Leave the loop with this result.
    Finish(Result<(), EngineError>),
}

/// An [`Action`] as mathematical values.
pub enum ActionView {
    Accept { protocol: Seq<char> },
    Wait,
    Dial { address: Seq<u8> },
    Register { namespace: Seq<char>, rendezvous: Seq<u8> },
    Respond { envelope: CommandWrapper, response: Result<Seq<char>, CommandErrorView> },
    Hand { peer: Seq<u8> },
    RemoveListener,
    Finish(Result<(), FaultView>),
}

impl View for Action {
    type V = ActionView;

    open spec fn view(&self) -> ActionView {
        match *self {
            Action::Accept { protocol } => ActionView::Accept { protocol: protocol@ },
            Action::Wait => ActionView::Wait,
            Action::Dial { address } => ActionView::Dial { address: address@ },
            Action::Register { namespace, rendezvous } => ActionView::Register {
                namespace: namespace@,
                rendezvous: rendezvous@,
            },
            Action::Respond { envelope, response } => ActionView::Respond {
                envelope,
                response: response_view(response),
            },
            Action::Hand { peer } => ActionView::Hand { peer: peer@ },
            Action::RemoveListener => ActionView::RemoveListener,
            Action::Finish(result) => ActionView::Finish(
                match result {
                    Ok(_) => Ok(()),
                    Err(e) => Err(e@),
                },
            ),
        }
    }
}

/// The application protocol under which peers open streams to this node.
pub open spec fn protocol_text() -> Seq<char> {
    "/modius/1.0.0"@
}

/// The application protocol under which peers open streams to this node.
pub fn protocol() -> (text: String)
    ensures
        text@ == protocol_text(),
{
    String::from_str("/modius/1.0.0")
}

/// The namespace under which a node registers with a rendezvous point.
pub open spec fn namespace_text() -> Seq<char> {
    "modius"@
}

/// The text of the address on which an engine listens: every interface, TCP,
/// the given port.
pub open spec fn listen_text(port: usize) -> Seq<char> {
    "/ip4/0.0.0.0/tcp/"@ + decimal(port as nat)
}

/// The fault that an event stands for where the engine's phase has no other
/// use for it. A closed command channel is the orderly way to stop.
pub open spec fn fault_of(event: LoopEvent) -> Option<FaultView> {
    match event {
        LoopEvent::Closed => None,
        LoopEvent::Failed(m) => Some(FaultView::Loop(m@)),
        LoopEvent::BindFailed(m) => Some(FaultView::Bind(m@)),
        _ => Some(FaultView::Unexpected),
    }
}

/// The state of the control loop.
pub struct EngineState {
    pub phase: Phase,
    /// The command channel has not been closed by the engine.
    pub commands_open: bool,
    /// The event channel has not been closed by the engine.
    pub events_open: bool,
    /// A listener is bound and not yet removed.
    pub listening: bool,
    /// The command being served, if any.
    pub pending: Option<Pending>,
    /// Why the loop ended, if it ended on a failure.
    pub fault: Option<FaultView>,
}

impl EngineState {
    /// The state of an engine that has just been created.
    pub open spec fn initial() -> EngineState {
        EngineState {
            phase: Phase::Constructing,
            commands_open: true,
            events_open: true,
            listening: false,
            pending: None,
            fault: None,
        }
    }

    /// What holds of every state that an engine can reach.
    pub open spec fn wf(self) -> bool {
        &&& self.phase == Phase::Terminated ==> !self.commands_open && !self.events_open
        &&& self.phase != Phase::Terminated ==> self.commands_open && self.events_open
        &&& self.listening <==> (self.phase == Phase::Listening || self.phase == Phase::Running
            || self.phase == Phase::Draining)
        &&& self.pending is Some ==> self.phase == Phase::Running
        &&& self.pending matches Some(p) ==> (p.stage == Stage::Registering
            ==> p.envelope.command is AddRendezvous)
        &&& self.fault is Some ==> (self.phase == Phase::Draining || self.phase
            == Phase::Terminated)
    }

    /// The engine is serving or about to: both channels are open and the run
    /// has not ended.
    pub open spec fn alive(self) -> bool {
        self.commands_open && self.events_open && self.phase != Phase::Terminated
    }

    /// The engine takes a command in this state: the loop runs and serves no
    /// other command.
    pub open spec fn accepts(self) -> bool {
        self.phase == Phase::Running && self.pending is None
    }

    /// The run ends at once: both channels close.
    pub open spec fn halt(self, fault: Option<FaultView>) -> (EngineState, ActionView) {
        (
            EngineState {
                phase: Phase::Terminated,
                commands_open: false,
                events_open: false,
                listening: false,
                pending: None,
                fault,
            },
            ActionView::Finish(verdict(fault)),
        )
    }

    /// The loop ends: the listener is to be removed, and a command in hand is
    /// abandoned.
    pub open spec fn drain(self, fault: Option<FaultView>) -> (EngineState, ActionView) {
        (
            EngineState { phase: Phase::Draining, pending: None, fault, ..self },
            ActionView::RemoveListener,
        )
    }

    /// The command in hand is answered: the response goes out and no command
    /// is in hand any more.
    pub open spec fn answer(
        self,
        envelope: CommandWrapper,
        response: Result<Seq<char>, CommandErrorView>,
    ) -> (EngineState, ActionView) {
        (EngineState { pending: None, ..self }, ActionView::Respond { envelope, response })
    }

    /// What a running engine with no command in hand does on `event`.
    pub open spec fn serve(self, event: LoopEvent) -> (EngineState, ActionView) {
        match event {
            LoopEvent::Command(envelope) => (
                EngineState {
                    pending: Some(Pending { envelope, stage: Stage::Dialing }),
                    ..self
                },
                ActionView::Dial { address: envelope.command.peer().address@ },
            ),
            LoopEvent::Swarm => (self, ActionView::Wait),
            LoopEvent::Stream(peer) => (self, ActionView::Hand { peer: peer@ }),
            LoopEvent::Responded => (self, ActionView::Wait),
            LoopEvent::Handed => (self, ActionView::Wait),
            _ => self.drain(fault_of(event)),
        }
    }

    /// What a running engine does on `event` while it serves `pending`.
    pub open spec fn dispatch(self, pending: Pending, event: LoopEvent) -> (
        EngineState,
        ActionView,
    ) {
        match (pending.stage, event) {
            (Stage::Dialing, LoopEvent::Dialed(Err(message))) => self.answer(
                pending.envelope,
                Err(CommandErrorView::Dial(message@)),
            ),
            (Stage::Dialing, LoopEvent::Dialed(Ok(_))) => match pending.envelope.command {
                CommandKind::AddRelay(_) => self.answer(pending.envelope, Ok(unit_text())),
                CommandKind::AddRendezvous(peer) => (
                    EngineState {
                        pending: Some(
                            Pending { envelope: pending.envelope, stage: Stage::Registering },
                        ),
                        ..self
                    },
                    ActionView::Register { namespace: namespace_text(), rendezvous: peer.id@ },
                ),
            },
            (Stage::Registering, LoopEvent::Registered(Ok(_))) => self.answer(
                pending.envelope,
                Ok(unit_text()),
            ),
            (Stage::Registering, LoopEvent::Registered(Err(message))) => self.answer(
                pending.envelope,
                Err(CommandErrorView::Register(message@)),
            ),
            _ => self.drain(fault_of(event)),
        }
    }

    /// The state after `event`, and the action that the driver is to perform.
    pub open spec fn next(self, event: LoopEvent) -> (EngineState, ActionView) {
        match self.phase {
            Phase::Constructing => match event {
                LoopEvent::Bound => (
                    EngineState { phase: Phase::Listening, listening: true, ..self },
                    ActionView::Accept { protocol: protocol_text() },
                ),
                _ => self.halt(fault_of(event)),
            },
            Phase::Listening => match event {
                LoopEvent::Ready => (
                    EngineState { phase: Phase::Running, ..self },
                    ActionView::Wait,
                ),
                _ => self.drain(fault_of(event)),
            },
            Phase::Running => match self.pending {
                None => self.serve(event),
                Some(pending) => self.dispatch(pending, event),
            },
            Phase::Draining => match event {
                LoopEvent::Unbound(removed) => self.halt(
                    if self.fault is Some {
                        self.fault
                    } else if removed {
                        None
                    } else {
                        Some(FaultView::Teardown)
                    },
                ),
                _ => (self, ActionView::RemoveListener),
            },
            Phase::Terminated => (self, ActionView::Finish(verdict(self.fault))),
        }
    }
}

/// The network engine: the two channel ends it owns, what it was configured
/// with, and the state of its loop.
#[derive(Debug)]
pub struct Client {
    pub commands: Receiver<CommandWrapper>,
    pub events: Sender<Event>,
    /// The node's keypair in its encoded form.
    pub key: Vec<u8>,
    pub name: String,
    pub group: String,
    pub port: usize,
    pub phase: Phase,
    pub commands_open: bool,
    pub events_open: bool,
    pub listening: bool,
    pub pending: Option<Pending>,
    pub fault: Option<EngineError>,
}

impl View for Client {
    type V = EngineState;

    open spec fn view(&self) -> EngineState {
        EngineState {
            phase: self.phase,
            commands_open: self.commands_open,
            events_open: self.events_open,
            listening: self.listening,
            pending: self.pending,
            fault: fault_view(self.fault),
        }
    }
}

/// The fault that an event stands for where the engine's phase has no other
/// use for it.
fn fault_from(event: LoopEvent) -> (fault: Option<EngineError>)
    ensures
        fault_view(fault) == fault_of(event),
{
    match event {
        LoopEvent::Closed => None,
        LoopEvent::Failed(m) => Some(EngineError::Loop(m)),
        LoopEvent::BindFailed(m) => Some(EngineError::Bind(m)),
        _ => Some(EngineError::Unexpected),
    }
}

impl Client {
    /// The engine's channel ends and configuration are those of `other`.
    pub open spec fn same_wiring(&self, other: &Client) -> bool {
        &&& self.commands == other.commands
        &&& self.events == other.events
        &&& self.key == other.key
        &&& self.name == other.name
        &&& self.group == other.group
        &&& self.port == other.port
    }

    /// A new engine with its two channels, and the other end of each: the
    /// sender of commands and the receiver of events.
    pub fn create(key: Vec<u8>, name: String, group: String, port: usize) -> (res: (
        Client,
        Sender<CommandWrapper>,
        Receiver<Event>,
    ))
        ensures
            res.0@ == EngineState::initial(),
            res.0@.wf(),
            res.0.key == key,
            res.0.name == name,
            res.0.group == group,
            res.0.port == port,
    {
        let (tx_cmd, rx_cmd) = async_channel::unbounded::<CommandWrapper>();
        let (tx_evt, rx_evt) = async_channel::unbounded::<Event>();
        (
            Client {
                commands: rx_cmd,
                events: tx_evt,
                key,
                name,
                group,
                port,
                phase: Phase::Constructing,
                commands_open: true,
                events_open: true,
                listening: false,
                pending: None,
                fault: None,
            },
            tx_cmd,
            rx_evt,
        )
    }

    /// The text of the address to listen on.
    pub fn listen_text(&self) -> (text: String)
        ensures
            text@ == listen_text(self.port),
    {
        let mut text = String::from_str("/ip4/0.0.0.0/tcp/");
        push_decimal(&mut text, self.port as u64);
        text
    }

    /// The address to listen on, in binary form; a bind failure where the
    /// text of the address is no multiaddress.
    pub fn listen_address(&self) -> (res: Result<Vec<u8>, EngineError>)
        ensures
            match res {
                Ok(address) => multiaddr_from_text(listen_text(self.port)) == Some(address@),
                Err(e) => e is Bind && multiaddr_from_text(listen_text(self.port)) is None,
            },
    {
        let text = self.listen_text();
        match parse_multiaddr(text.as_str()) {
            Ok(address) => Ok(address),
            Err(message) => Err(EngineError::Bind(message)),
        }
    }

    /// Ends the run at once: closes both channels and records the fault.
    fn halt(&mut self, fault: Option<EngineError>) -> (action: Action)
        ensures
            (final(self)@, action@) == old(self)@.halt(fault_view(fault)),
            final(self).same_wiring(old(self)),
    {
        let _ = self.commands.close();
        let _ = self.events.close();
        let result = match &fault {
            Some(e) => Err(e.clone()),
            None => Ok(()),
        };
        self.phase = Phase::Terminated;
        self.commands_open = false;
        self.events_open = false;
        self.listening = false;
        self.pending = None;
        self.fault = fault;
        Action::Finish(result)
    }

    /// Ends the loop: abandons the command in hand and asks for the listener
    /// to be removed.
    fn drain(&mut self, fault: Option<EngineError>) -> (action: Action)
        ensures
            (final(self)@, action@) == old(self)@.drain(fault_view(fault)),
            final(self).same_wiring(old(self)),
    {
        self.phase = Phase::Draining;
        self.pending = None;
        self.fault = fault;
        Action::RemoveListener
    }

    /// A running engine with no command in hand reacts to `event`.
    fn serve(&mut self, event: LoopEvent) -> (action: Action)
        requires
            old(self).pending is None,
        ensures
            (final(self)@, action@) == old(self)@.serve(event),
            final(self).same_wiring(old(self)),
    {
        match event {
            LoopEvent::Command(envelope) => {
                let address = envelope.command.target().address.clone();
                self.pending = Some(Pending { envelope, stage: Stage::Dialing });
                Action::Dial { address }
            },
            LoopEvent::Swarm => Action::Wait,
            LoopEvent::Stream(peer) => Action::Hand { peer },
            LoopEvent::Responded => Action::Wait,
            LoopEvent::Handed => Action::Wait,
            other => {
                let fault = fault_from(other);
                self.drain(fault)
            },
        }
    }

    /// A running engine reacts to `event` while it serves `pending`, which
    /// has been taken out of its state.
    fn dispatch(&mut self, pending: Pending, event: LoopEvent) -> (action: Action)
        requires
            old(self).pending is None,
        ensures
            (final(self)@, action@) == (EngineState {
                pending: Some(pending),
                ..old(self)@
            }).dispatch(pending, event),
            final(self).same_wiring(old(self)),
    {
        let Pending { envelope, stage } = pending;
        match (stage, event) {
            (Stage::Dialing, LoopEvent::Dialed(Err(message))) => Action::Respond {
                envelope,
                response: Err(CommandError::Dial(message)),
            },
            (Stage::Dialing, LoopEvent::Dialed(Ok(_))) => {
                if envelope.command.registers() {
                    let rendezvous = envelope.command.target().id.clone();
                    self.pending = Some(Pending { envelope, stage: Stage::Registering });
                    Action::Register { namespace: String::from_str("modius"), rendezvous }
                } else {
                    Action::Respond { envelope, response: unit_response() }
                }
            },
            (Stage::Registering, LoopEvent::Registered(Ok(_))) => Action::Respond {
                envelope,
                response: unit_response(),
            },
            (Stage::Registering, LoopEvent::Registered(Err(message))) => Action::Respond {
                envelope,
                response: Err(CommandError::Register(message)),
            },
            (_, other) => {
                let fault = fault_from(other);
                self.drain(fault)
            },
        }
    }

    /// Takes in what the driver reports and says what it is to do next.
    pub fn step(&mut self, event: LoopEvent) -> (action: Action)
        ensures
            (final(self)@, action@) == old(self)@.next(event),
            final(self).same_wiring(old(self)),
            old(self)@.wf() ==> final(self)@.wf(),
    {
        match self.phase {
            Phase::Constructing => match event {
                LoopEvent::Bound => {
                    self.phase = Phase::Listening;
                    self.listening = true;
                    Action::Accept { protocol: protocol() }
                },
                other => {
                    let fault = fault_from(other);
                    self.halt(fault)
                },
            },
            Phase::Listening => match event {
                LoopEvent::Ready => {
                    self.phase = Phase::Running;
                    Action::Wait
                },
                other => {
                    let fault = fault_from(other);
                    self.drain(fault)
                },
            },
            Phase::Running => match self.pending.take() {
                None => self.serve(event),
                Some(pending) => self.dispatch(pending, event),
            },
            Phase::Draining => match event {
                LoopEvent::Unbound(removed) => {
                    let fault = match self.fault.take() {
                        Some(e) => Some(e),
                        None => if removed {
                            None
                        } else {
                            Some(EngineError::Teardown)
                        },
                    };
                    self.halt(fault)
                },
                _ => Action::RemoveListener,
            },
            Phase::Terminated => {
                let result = match &self.fault {
                    Some(e) => Err(e.clone()),
                    None => Ok(()),
                };
                Action::Finish(result)
            },
        }
    }

    /// Whether the engine is serving or about to.
    pub fn alive(&self) -> (res: bool)
        ensures
            res == self@.alive(),
    {
        self.commands_open && self.events_open && self.phase != Phase::Terminated
    }
}

} // verus!
