//! The command protocol: typed requests, each paired with a private channel
//! on which exactly one response travels back.

use crate::net::channel::{offer, share_sender, Delivery};
use crate::util::{Peer, PeerView};
use async_channel::{Receiver, Sender, TrySendError};
use vstd::prelude::*;

verus! {

/// Why a command did not succeed.
#[derive(Debug, PartialEq, Eq)]
pub enum CommandError {
    /// The peer could not be dialed; the network stack's message.
    Dial(String),
    /// The peer was dialed but refused the registration; the network stack's
    /// message.
    Register(String),
    /// The engine no longer accepts commands.
    Rejected,
    /// The engine took the command and stopped before it answered.
    Abandoned,
}

/// A [`CommandError`] as mathematical values.
pub enum CommandErrorView {
    Dial(Seq<char>),
    Register(Seq<char>),
    Rejected,
    Abandoned,
}

impl View for CommandError {
    type V = CommandErrorView;

    open spec fn view(&self) -> CommandErrorView {
        match *self {
            CommandError::Dial(m) => CommandErrorView::Dial(m@),
            CommandError::Register(m) => CommandErrorView::Register(m@),
            CommandError::Rejected => CommandErrorView::Rejected,
            CommandError::Abandoned => CommandErrorView::Abandoned,
        }
    }
}

/// What travels back to the caller: the success value as JSON text, or the
/// typed failure.
pub type Response = Result<String, CommandError>;

/// A [`Response`] as mathematical values.
pub open spec fn response_view(response: Response) -> Result<Seq<char>, CommandErrorView> {
    match response {
        Ok(payload) => Ok(payload@),
        Err(e) => Err(e@),
    }
}

/// The JSON text of the unit value.
pub open spec fn unit_text() -> Seq<char> {
    seq!['n', 'u', 'l', 'l']
}

/// Calls `serde_json::to_string` on the unit value.
///
/// Trusted: the serializer writes `null` for the unit value, into a buffer
/// in memory, and so always gives that text.
#[verifier::external_body]
pub(crate) fn unit_json() -> (text: Option<String>)
    ensures
        text is Some,
        text matches Some(t) ==> t@ == unit_text(),
{
    serde_json::to_string(&()).ok()
}

/// The success response of a command that returns nothing.
pub fn unit_response() -> (response: Response)
    ensures
        response_view(response) == Ok::<Seq<char>, CommandErrorView>(unit_text()),
{
    Ok(unit_json().unwrap())
}

/// A control operation.
#[derive(Debug, PartialEq, Eq)]
pub enum CommandKind {
    /// Dial the peer and use it as a relay.
    AddRelay(Peer),
    /// Dial the peer and, once connected, register this node with it as the
    /// rendezvous point.
    AddRendezvous(Peer),
}

/// A [`CommandKind`] as mathematical values.
pub enum CommandView {
    AddRelay(PeerView),
    AddRendezvous(PeerView),
}

impl View for CommandKind {
    type V = CommandView;

    open spec fn view(&self) -> CommandView {
        match *self {
            CommandKind::AddRelay(p) => CommandView::AddRelay(p@),
            CommandKind::AddRendezvous(p) => CommandView::AddRendezvous(p@),
        }
    }
}

impl Clone for CommandKind {
    fn clone(&self) -> (res: Self)
        ensures
            res@ == self@,
    {
        match self {
            CommandKind::AddRelay(p) => CommandKind::AddRelay(p.clone()),
            CommandKind::AddRendezvous(p) => CommandKind::AddRendezvous(p.clone()),
        }
    }
}

/// How many messages the channel of a response sender holds at a time, as
/// fixed when the channel was made; `None` for a channel without a limit.
pub uninterp spec fn response_slots(sender: Sender<Response>) -> Option<usize>;

/// Calls `async_channel::bounded` with a capacity of one.
///
/// Trusted: the channel that is made holds at most one message at a time.
#[verifier::external_body]
pub(crate) fn single_slot() -> (ends: (Sender<Response>, Receiver<Response>))
    ensures
        response_slots(ends.0) == Some(1usize),
{
    async_channel::bounded::<Response>(1)
}

/// Calls `Sender::try_send` on a response channel; it never waits.
///
/// Trusted: only a channel with a limit reports that it is full. Which
/// outcome comes back otherwise depends on the channel's state at this
/// moment.
#[verifier::external_body]
pub(crate) fn offer_response(sender: &Sender<Response>, message: Response) -> (outcome: Delivery)
    ensures
        outcome == Delivery::Full ==> response_slots(*sender) is Some,
{
    match sender.try_send(message) {
        Ok(()) => Delivery::Sent,
        Err(TrySendError::Full(_)) => Delivery::Full,
        Err(TrySendError::Closed(_)) => Delivery::Closed,
    }
}

/// A command together with the sending side of its private response channel.
#[derive(Debug)]
pub struct CommandWrapper {
    pub command: CommandKind,
    pub response: Sender<Response>,
}

impl Clone for CommandWrapper {
    /// A copy of the envelope: a copy of the command, and one more handle on
    /// the same response channel.
    fn clone(&self) -> (res: Self)
        ensures
            res.command@ == self.command@,
            res.response == self.response,
    {
        CommandWrapper { command: self.command.clone(), response: share_sender(&self.response) }
    }
}

impl CommandWrapper {
    /// A copy of the command.
    pub fn kind(&self) -> (kind: CommandKind)
        ensures
            kind@ == self.command@,
    {
        self.command.clone()
    }

    /// Offers `result` on the envelope's response channel without waiting,
    /// and says what became of it. Which of the three outcomes it is, the
    /// channel decides; a response is only ever turned away for want of room
    /// by a channel that has a limit.
    pub fn respond(&self, result: Response) -> (outcome: Delivery)
        ensures
            outcome == Delivery::Full ==> response_slots(self.response) is Some,
    {
        offer_response(&self.response, result)
    }
}

impl CommandKind {
    /// The peer that the command is about.
    pub open spec fn peer(self) -> Peer {
        match self {
            CommandKind::AddRelay(p) => p,
            CommandKind::AddRendezvous(p) => p,
        }
    }

    /// The peer that the command is about.
    pub fn target(&self) -> (peer: &Peer)
        ensures
            *peer == self.peer(),
    {
        match self {
            CommandKind::AddRelay(p) => p,
            CommandKind::AddRendezvous(p) => p,
        }
    }

    /// Whether the command goes on to register once its dial has succeeded.
    pub fn registers(&self) -> (res: bool)
        ensures
            res == (*self is AddRendezvous),
    {
        match self {
            CommandKind::AddRelay(_) => false,
            CommandKind::AddRendezvous(_) => true,
        }
    }

    /// The command in an envelope with a fresh response channel of one slot,
    /// and the receiving side of that channel for the caller.
    pub fn wrap(&self) -> (res: (CommandWrapper, Receiver<Response>))
        ensures
            res.0.command@ == self@,
            response_slots(res.0.response) == Some(1usize),
    {
        let (tx, rx) = single_slot();
        (CommandWrapper { command: self.clone(), response: tx }, rx)
    }

    /// Puts the command in an envelope and offers the envelope to the engine
    /// on its command channel, without waiting. The caller then awaits the
    /// one response on the receiver that is handed back.
    ///
    /// Fails where the channel does not take the envelope: the engine no
    /// longer accepts commands.
    pub fn send(&self, tx: &Sender<CommandWrapper>) -> (res: Result<
        Receiver<Response>,
        CommandError,
    >)
        ensures
            res matches Err(e) ==> e is Rejected,
    {
        let (wrapped, rx) = self.wrap();
        CommandKind::submitted(offer(tx, wrapped), rx)
    }

    /// What the caller of a command gets, from what happened on the two
    /// channels: whether the engine took the envelope, and what came back on
    /// the private channel before it closed.
    pub fn settle(accepted: bool, reply: Option<Response>) -> (res: Response)
        ensures
            !accepted ==> res matches Err(CommandError::Rejected),
            accepted && reply is None ==> res matches Err(CommandError::Abandoned),
            accepted && reply is Some ==> res == reply->0,
    {
        if !accepted {
            return Err(CommandError::Rejected);
        }
        match reply {
            Some(response) => response,
            None => Err(CommandError::Abandoned),
        }
    }

    /// What `send` gives, from what became of the envelope on the command
    /// channel: the receiver of the response where the channel took the
    /// envelope, and a rejection where it did not.
    pub fn submitted(outcome: Delivery, reply: Receiver<Response>) -> (res: Result<
        Receiver<Response>,
        CommandError,
    >)
        ensures
            outcome == Delivery::Sent ==> res == Ok::<Receiver<Response>, CommandError>(reply),
            outcome != Delivery::Sent ==> res matches Err(CommandError::Rejected),
    {
        match outcome {
            Delivery::Sent => Ok(reply),
            _ => Err(CommandError::Rejected),
        }
    }
}

} // verus!
