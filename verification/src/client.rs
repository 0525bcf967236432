use vstd::prelude::*;
use crate::consts::FrontendEvent;
use crate::errors::{ClientNetworkError, CommandStatusError};
use crate::packet::{ClientboundPacket, Packet, ServerboundPacket, ServerboundPacketNonToken};
use crate::packethelper::{with_token, PacketH};

verus! {

/// What the connection loop does after a packet from the server was handled.
#[derive(Clone, Copy, Debug, PartialEq, Eq, Structural)]
pub enum PacketOutcome {
    Continue,
    Exit,
    ExitWithoutCleanup,
}

/// A command the user interface hands to the connection loop.
#[derive(Clone, Debug, PartialEq, Eq)]
pub enum ConnectionThreadCommand {
    Packet(ServerboundPacketNonToken),
    Disconnect,
}

/// Why a connection ended.
#[derive(Clone, Copy, Debug, PartialEq, Eq, Structural)]
pub enum ExitReason {
    Kicked,
    Disconnected,
    LostConnection,
}

/// How the connection loop was left: by an exit, by an exit that must not
/// say goodbye to the server, or by an error.
#[derive(Debug)]
pub enum ConnectionOutcome<E> {
    Exit,
    ExitWithoutCleanup,
    Failed(E),
}

/// The outside work a client performs in answer to a packet.
#[derive(Clone, Debug, PartialEq, Eq)]
pub enum ClientAction {
    /// Report the event, with its text, to the user interface.
    Emit(FrontendEvent, String),
    /// Send the packet to the server.
    Send(Packet),
}

/// A client's answer to a packet from the server.
#[derive(Clone, Debug, PartialEq, Eq)]
pub struct PacketResponse {
    pub action: ClientAction,
    pub outcome: PacketOutcome,
}

/// How a client answers a clientbound packet while holding the session
/// token `token`: a message is shown and the session goes on; a kick is shown
/// and the session ends without saying goodbye; a heartbeat request is
/// answered by a heartbeat that carries the token; a second token is a
/// protocol error.
pub open spec fn is_response(
    packet: ClientboundPacket,
    token: Seq<char>,
    res: Result<PacketResponse, ClientNetworkError>,
) -> bool {
    match packet {
        ClientboundPacket::Message { content } => res == Ok::<PacketResponse, ClientNetworkError>(
            PacketResponse {
                action: ClientAction::Emit(FrontendEvent::MessageReceived, content),
                outcome: PacketOutcome::Continue,
            },
        ),
        ClientboundPacket::Kicked { reason } => res == Ok::<PacketResponse, ClientNetworkError>(
            PacketResponse {
                action: ClientAction::Emit(FrontendEvent::Kicked, reason),
                outcome: PacketOutcome::ExitWithoutCleanup,
            },
        ),
        ClientboundPacket::Token { .. } => res == Err::<PacketResponse, ClientNetworkError>(
            ClientNetworkError::UnexpectedPacket,
        ),
        ClientboundPacket::HeartbeatReq => {
            &&& res is Ok
            &&& res->Ok_0.outcome == PacketOutcome::Continue
            &&& res->Ok_0.action matches ClientAction::Send(
                Packet::Serverbound(ServerboundPacket::Heartbeat { token: t }),
            ) && t@ == token
        },
    }
}

impl ClientboundPacket {
    /// Decides the client's answer to this packet (see `is_response`).
    pub fn handle_packet(self, token: &str) -> (res: Result<PacketResponse, ClientNetworkError>)
        ensures
            is_response(self, token@, res),
    {
        match self {
            ClientboundPacket::Message { content } => Ok(
                PacketResponse {
                    action: ClientAction::Emit(FrontendEvent::MessageReceived, content),
                    outcome: PacketOutcome::Continue,
                },
            ),
            ClientboundPacket::Kicked { reason } => Ok(
                PacketResponse {
                    action: ClientAction::Emit(FrontendEvent::Kicked, reason),
                    outcome: PacketOutcome::ExitWithoutCleanup,
                },
            ),
            ClientboundPacket::Token { token: _ } => Err(ClientNetworkError::UnexpectedPacket),
            ClientboundPacket::HeartbeatReq => Ok(
                PacketResponse {
                    action: ClientAction::Send(PacketH::heartbeat(String::from_str(token))),
                    outcome: PacketOutcome::Continue,
                },
            ),
        }
    }
}

/// A client's connection to a server: the stream and the session token the
/// server handed out at login.
pub struct Connection<S> {
    stream: S,
    token: String,
}

impl<S> Connection<S> {
    pub closed spec fn spec_token(&self) -> String {
        self.token
    }

    pub closed spec fn spec_stream(&self) -> S {
        self.stream
    }

    /// Completes a login: the server's first reply must be a token, which
    /// the connection keeps; any other reply is an unexpected packet.
    pub fn connect(stream: S, reply: Packet) -> (res: Result<Connection<S>, ClientNetworkError>)
        ensures
            (reply matches Packet::Clientbound(ClientboundPacket::Token { .. })) <==> res is Ok,
            res matches Ok(c) ==> reply == Packet::Clientbound(
                ClientboundPacket::Token { token: c.spec_token() },
            ) && c.spec_stream() == stream,
            res matches Err(e) ==> e == ClientNetworkError::UnexpectedPacket,
    {
        if let Packet::Clientbound(ClientboundPacket::Token { token }) = reply {
            Ok(Connection { stream, token })
        } else {
            Err(ClientNetworkError::UnexpectedPacket)
        }
    }

    pub fn get_token(&self) -> (res: &str)
        ensures
            res@ == self.spec_token()@,
    {
        self.token.as_str()
    }

    /// Gives the stream to the caller for reading and writing; the token
    /// stays as it was.
    pub fn stream_mut(&mut self) -> (res: &mut S)
        ensures
            *res == old(self).spec_stream(),
            final(self).spec_stream() == *final(res),
            final(self).spec_token() == old(self).spec_token(),
    {
        &mut self.stream
    }

    /// Decides the answer to a packet from the server: a clientbound packet
    /// is answered as `is_response` says, with this connection's token; a
    /// serverbound one is not implemented on a client.
    pub fn handle_packet(&self, packet: Packet) -> (res: Result<PacketResponse, ClientNetworkError>)
        ensures
            match packet {
                Packet::Clientbound(p) => is_response(p, self.spec_token()@, res),
                Packet::Serverbound(_) => res == Err::<PacketResponse, ClientNetworkError>(
                    ClientNetworkError::UnimplementedPacket,
                ),
            },
    {
        match packet {
            Packet::Clientbound(cbpacket) => cbpacket.handle_packet(self.token.as_str()),
            _ => Err(ClientNetworkError::UnimplementedPacket),
        }
    }
}

/// The client side's handle on its connection task: the transmitter of the
/// command channel, once the channel was made.
pub struct ClientState<T> {
    pub tx: Option<T>,
}

impl<T> ClientState<T> {
    pub fn new() -> (res: Self)
        ensures
            res.tx is None,
    {
        ClientState { tx: None }
    }

    /// The transmitter a command is sent through; without one the command
    /// fails with `NoTransmitter`.
    pub fn transmitter(&self) -> (res: Result<&T, CommandStatusError>)
        ensures
            res is Ok <==> self.tx is Some,
            res matches Ok(t) ==> self.tx == Some(*t),
            res matches Err(e) ==> e == CommandStatusError::NoTransmitter,
    {
        match &self.tx {
            Some(tx) => Ok(tx),
            None => Err(CommandStatusError::NoTransmitter),
        }
    }
}

/// What the connection loop does with a command from the user interface.
#[derive(Clone, Debug, PartialEq, Eq)]
pub enum CommandStep {
    /// Send the packet to the server and go on.
    Send(Packet),
    /// Leave the loop with `ConnectionOutcome::Exit`.
    Exit,
    /// Go on.
    Continue,
}

/// One turn of the connection loop: go on, or leave it with an outcome.
#[derive(Debug)]
pub enum LoopStep<E> {
    Continue,
    Break(ConnectionOutcome<E>),
}

pub open spec fn spec_outcome_step<E>(handled: Result<PacketOutcome, E>) -> LoopStep<E> {
    match handled {
        Ok(PacketOutcome::Continue) => LoopStep::Continue,
        Ok(PacketOutcome::Exit) => LoopStep::Break(ConnectionOutcome::Exit),
        Ok(PacketOutcome::ExitWithoutCleanup) => LoopStep::Break(ConnectionOutcome::ExitWithoutCleanup),
        Err(e) => LoopStep::Break(ConnectionOutcome::Failed(e)),
    }
}

/// Whether the client says goodbye to the server when the loop ends so.
pub open spec fn sends_farewell<E>(outcome: ConnectionOutcome<E>) -> bool {
    !(outcome is ExitWithoutCleanup)
}

/// What the client does once its loop has ended: the packet to send to the
/// server, if any, and what the connection task returns.
#[derive(Debug)]
pub struct Cleanup<E> {
    pub farewell: Option<Packet>,
    pub result: Result<ExitReason, E>,
}

/// The state of the client's connection loop: whether commands from the
/// user interface are still read.
#[derive(Clone, Copy, Debug, PartialEq, Eq, Structural)]
pub struct ConnectionLoop {
    pub rx_enabled: bool,
}

impl ConnectionLoop {
    pub fn new() -> (res: Self)
        ensures
            res.rx_enabled,
    {
        ConnectionLoop { rx_enabled: true }
    }

    /// Decides what a received command does. A packet is completed with the
    /// session token and sent; a disconnect leaves the loop; a closed channel
    /// (`None`) stops the loop from reading commands again.
    pub fn on_command(&mut self, command: Option<ConnectionThreadCommand>, token: String) -> (res: CommandStep)
        ensures
            final(self).rx_enabled == (old(self).rx_enabled && command is Some),
            res == (match command {
                Some(ConnectionThreadCommand::Packet(spnt)) => CommandStep::Send(
                    Packet::Serverbound(with_token(spnt, token)),
                ),
                Some(ConnectionThreadCommand::Disconnect) => CommandStep::Exit,
                None => CommandStep::Continue,
            }),
    {
        match command {
            Some(ConnectionThreadCommand::Packet(spnt)) => {
                CommandStep::Send(Packet::Serverbound(PacketH::from_spnt_to_sp(spnt, token)))
            },
            Some(ConnectionThreadCommand::Disconnect) => CommandStep::Exit,
            None => {
                self.rx_enabled = false;
                CommandStep::Continue
            },
        }
    }
}

/// Turns the result of handling a packet (or of the I/O around it) into the
/// next turn of the loop: an error ends the loop with that error.
pub fn outcome_step<E>(handled: Result<PacketOutcome, E>) -> (res: LoopStep<E>)
    ensures
        res == spec_outcome_step(handled),
{
    match handled {
        Ok(PacketOutcome::Continue) => LoopStep::Continue,
        Ok(PacketOutcome::Exit) => LoopStep::Break(ConnectionOutcome::Exit),
        Ok(PacketOutcome::ExitWithoutCleanup) => LoopStep::Break(ConnectionOutcome::ExitWithoutCleanup),
        Err(e) => LoopStep::Break(ConnectionOutcome::Failed(e)),
    }
}

impl<E> ConnectionOutcome<E> {
    /// Ends a connection: unless the loop was left without cleanup, a
    /// disconnect carrying the token is sent; an error is returned as is,
    /// every exit as `Disconnected`.
    pub fn finish(self, token: String) -> (res: Cleanup<E>)
        ensures
            res.farewell is Some <==> sends_farewell(self),
            res.farewell matches Some(p) ==> p == Packet::Serverbound(ServerboundPacket::Disconnect { token }),
            res.result == (match self {
                ConnectionOutcome::Failed(e) => Err::<ExitReason, E>(e),
                _ => Ok(ExitReason::Disconnected),
            }),
    {
        match self {
            ConnectionOutcome::Exit => Cleanup {
                farewell: Some(PacketH::disconnect(token)),
                result: Ok(ExitReason::Disconnected),
            },
            ConnectionOutcome::ExitWithoutCleanup => Cleanup {
                farewell: None,
                result: Ok(ExitReason::Disconnected),
            },
            ConnectionOutcome::Failed(e) => Cleanup {
                farewell: Some(PacketH::disconnect(token)),
                result: Err(e),
            },
        }
    }
}

/// A kicked client leaves its loop and closes the connection without sending
/// a disconnect to the server.
pub proof fn lemma_kicked_client_leaves_silently<E>(
    reason: String,
    token: Seq<char>,
    res: Result<PacketResponse, ClientNetworkError>,
)
    requires
        is_response(ClientboundPacket::Kicked { reason }, token, res),
    ensures
        res is Ok,
        spec_outcome_step::<E>(Ok(res->Ok_0.outcome)) matches LoopStep::Break(o) && !sends_farewell(o),
{
}

/// Every other clientbound packet that is handled keeps the session going, so
/// the client says goodbye when it later leaves by an exit or an error.
pub proof fn lemma_only_kick_skips_farewell<E>(
    packet: ClientboundPacket,
    token: Seq<char>,
    res: Result<PacketResponse, ClientNetworkError>,
)
    requires
        is_response(packet, token, res),
        !(packet is Kicked),
        res is Ok,
    ensures
        spec_outcome_step::<E>(Ok(res->Ok_0.outcome)) == LoopStep::<E>::Continue,
{
}

/// For every session token, a heartbeat request is answered by sending a
/// heartbeat that carries exactly that token, and the session goes on.
pub proof fn lemma_heartbeat_request_answered(
    token: Seq<char>,
    res: Result<PacketResponse, ClientNetworkError>,
)
    requires
        is_response(ClientboundPacket::HeartbeatReq, token, res),
    ensures
        res matches Ok(r) && r.outcome == PacketOutcome::Continue && (r.action matches ClientAction::Send(
            Packet::Serverbound(ServerboundPacket::Heartbeat { token: t }),
        ) && t@ == token),
{
}

/// For every reason, a kick is reported to the user interface as a kick,
/// with that reason, and the session ends without cleanup.
pub proof fn lemma_kick_reported_as_kick(
    reason: String,
    token: Seq<char>,
    res: Result<PacketResponse, ClientNetworkError>,
)
    requires
        is_response(ClientboundPacket::Kicked { reason }, token, res),
    ensures
        res == Ok::<PacketResponse, ClientNetworkError>(PacketResponse {
            action: ClientAction::Emit(FrontendEvent::Kicked, reason),
            outcome: PacketOutcome::ExitWithoutCleanup,
        }),
{
}

/// For every content, a chat message is shown to the user as a received
/// message, unchanged, and the session goes on.
pub proof fn lemma_message_shown(
    content: String,
    token: Seq<char>,
    res: Result<PacketResponse, ClientNetworkError>,
)
    requires
        is_response(ClientboundPacket::Message { content }, token, res),
    ensures
        res == Ok::<PacketResponse, ClientNetworkError>(PacketResponse {
            action: ClientAction::Emit(FrontendEvent::MessageReceived, content),
            outcome: PacketOutcome::Continue,
        }),
{
}

/// A second token from the server is an unexpected packet, whatever it holds.
pub proof fn lemma_second_token_unexpected(
    t: String,
    token: Seq<char>,
    res: Result<PacketResponse, ClientNetworkError>,
)
    requires
        is_response(ClientboundPacket::Token { token: t }, token, res),
    ensures
        res == Err::<PacketResponse, ClientNetworkError>(ClientNetworkError::UnexpectedPacket),
{
}

} // verus!
