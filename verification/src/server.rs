use vstd::prelude::*;
use std::collections::HashMap;
use rand::distr::{Alphanumeric, SampleString};
use crate::errors::ServerNetworkError;
use crate::packet::{ClientboundPacket, Packet, ServerboundPacket, ServerboundPacketNonToken};
use crate::packethelper::with_token;

verus! {

broadcast use vstd::std_specs::hash::group_hash_axioms;

/// The number of characters of a session token.
pub const TOKEN_LEN: usize = 32;

/// Identifies a user while it is logged in.
pub type UserId = u64;

/// An ASCII letter or digit.
pub open spec fn is_ascii_alphanumeric(c: char) -> bool {
    ||| ('a' <= c && c <= 'z')
    ||| ('A' <= c && c <= 'Z')
    ||| ('0' <= c && c <= '9')
}

/// A session token as the server hands it out: `TOKEN_LEN` ASCII letters and
/// digits.
pub open spec fn is_session_token(s: Seq<char>) -> bool {
    &&& s.len() == TOKEN_LEN
    &&& forall|i: int| 0 <= i < s.len() ==> is_ascii_alphanumeric(#[trigger] s[i])
}

/// Calls `rand::distr::SampleString::sample_string` of the `Alphanumeric`
/// distribution with the thread-local generator `rand::rng()`. Its source
/// appends exactly `len` characters, each taken from `A-Z`, `a-z` and `0-9`;
/// which characters come out is left to chance and is not stated.
#[verifier::external_body]
fn sample_alphanumeric(len: usize) -> (s: String)
    ensures
        s@.len() == len,
        forall|i: int| 0 <= i < len ==> is_ascii_alphanumeric(#[trigger] s@[i]),
{
    Alphanumeric.sample_string(&mut rand::rng(), len)
}

/// A logged-in user as its own session task sees it: its name, id, session
/// token and the stream to its client.
pub struct User<S> {
    pub username: String,
    pub id: UserId,
    pub token: String,
    pub stream: S,
}

impl<S> User<S> {
    /// A fresh session token. It is not meant to be cryptographically safe.
    pub fn gen_token() -> (res: String)
        ensures
            is_session_token(res@),
    {
        sample_alphanumeric(TOKEN_LEN)
    }

    /// Opens the session of a user that logged in: a fresh token is made, and
    /// the returned packet, which hands that token to the client, is the
    /// first the server sends.
    pub fn connect(username: String, id: UserId, stream: S) -> (res: (User<S>, Packet))
        ensures
            res.0.username == username,
            res.0.id == id,
            res.0.stream == stream,
            is_session_token(res.0.token@),
            res.1 == Packet::Clientbound(ClientboundPacket::Token { token: res.0.token }),
    {
        let token = Self::gen_token();
        let packet = Packet::Clientbound(ClientboundPacket::Token { token: token.clone() });
        (User { username, id, token, stream }, packet)
    }

    /// The packet that kicks a user, telling it why.
    pub fn kick_packet(reason: &str) -> (res: Packet)
        ensures
            res matches Packet::Clientbound(ClientboundPacket::Kicked { reason: r }) && r@ == reason@,
    {
        Packet::Clientbound(ClientboundPacket::Kicked { reason: String::from_str(reason) })
    }
}

/// What a user's session hands another user's session through their duplex
/// channel.
#[derive(Debug)]
pub enum CrossUserCommand<E> {
    Packet(Packet),
    Feedback(Feedback<E>),
    Disconnect,
    Kick(String),
    N,
}

/// An answer to a command.
#[derive(Debug)]
pub enum Feedback<E> {
    PacketSendResult(Result<(), E>),
    InvalidCommandData,
}

/// A logged-in user as every session sees it: name, id and the peer of its
/// duplex command channel.
pub struct SharedUser<P> {
    pub username: String,
    pub id: UserId,
    pub dp: P,
}

impl<P> SharedUser<P> {
    pub fn new(username: String, id: UserId, dp: P) -> (res: SharedUser<P>)
        ensures
            res.username == username,
            res.id == id,
            res.dp == dp,
    {
        SharedUser { username, id, dp }
    }
}

/// What the server does for a packet a logged-in user sent.
#[derive(Clone, Debug, PartialEq, Eq)]
pub enum ServerAction {
    /// Send the packet to every logged-in user.
    Broadcast(ClientboundPacket),
    /// Kick the sender, with this reason.
    Kick(String),
    /// Nothing.
    Ignore,
}

/// The text of a chat message as every user sees it: `[name]: message`.
pub open spec fn chat_line(username: Seq<char>, message: Seq<char>) -> Seq<char> {
    "["@ + username + "]: "@ + message
}

/// How the server answers a packet from a logged-in user named `username`
/// who holds the session token `token`: a message that carries the token is
/// broadcast as `[name]: message`; one with another token gets the user kicked;
/// heartbeats and disconnects do nothing; a second login is an invalid packet.
pub open spec fn is_server_answer(
    packet: ServerboundPacket,
    username: Seq<char>,
    token: Seq<char>,
    res: Result<ServerAction, ServerNetworkError>,
) -> bool {
    match packet {
        ServerboundPacket::Message { token: t, message } => if t@ == token {
            res matches Ok(ServerAction::Broadcast(ClientboundPacket::Message { content }))
                && content@ == chat_line(username, message@)
        } else {
            res matches Ok(ServerAction::Kick(reason)) && reason@ == "Used invalid token!"@
        },
        ServerboundPacket::Heartbeat { .. } => res == Ok::<ServerAction, ServerNetworkError>(
            ServerAction::Ignore,
        ),
        ServerboundPacket::Disconnect { .. } => res == Ok::<ServerAction, ServerNetworkError>(
            ServerAction::Ignore,
        ),
        ServerboundPacket::Login { .. } => res == Err::<ServerAction, ServerNetworkError>(
            ServerNetworkError::InvalidPacketFromClient,
        ),
    }
}

/// The registry of logged-in users, keyed by id.
pub struct ChatroomServer<P> {
    pub users: HashMap<UserId, SharedUser<P>>,
}

impl<P> ChatroomServer<P> {
    /// Every user is filed under its own id.
    pub open spec fn wf(&self) -> bool {
        forall|k: UserId| #[trigger] self.users@.contains_key(k) ==> self.users@[k].id == k
    }

    pub fn new() -> (res: Self)
        ensures
            res.users@ == Map::<UserId, SharedUser<P>>::empty(),
            res.wf(),
    {
        ChatroomServer { users: HashMap::new() }
    }

    /// The id a user logging in now gets: one more than the number of users
    /// logged in. After logouts it can be the id of a user still logged in,
    /// whom the new user then replaces.
    pub fn next_user_id(&self) -> (res: UserId)
        requires
            self.users@.len() < usize::MAX,
        ensures
            res == self.users@.len() + 1,
    {
        let n: usize = self.users.len();
        (n + 1) as UserId
    }

    /// Files a user under its id, replacing whoever was filed there.
    pub fn register(&mut self, user: SharedUser<P>)
        ensures
            final(self).users@ == old(self).users@.insert(user.id, user),
            old(self).wf() ==> final(self).wf(),
    {
        let id = user.id;
        self.users.insert(id, user);
    }

    /// Removes the user filed under `id`, if any.
    pub fn remove_user(&mut self, id: UserId)
        ensures
            final(self).users@ == old(self).users@.remove(id),
            old(self).wf() ==> final(self).wf(),
    {
        self.users.remove(&id);
    }

    /// Removes every user whose id is listed: those found dead while a
    /// packet was sent to everyone.
    pub fn remove_users(&mut self, ids: &Vec<UserId>)
        ensures
            final(self).users@ == old(self).users@.remove_keys(ids@.to_set()),
            old(self).wf() ==> final(self).wf(),
    {
        let mut i: usize = 0;
        while i < ids.len()
            invariant
                i <= ids@.len(),
                self.users@ == old(self).users@.remove_keys(ids@.subrange(0, i as int).to_set()),
            decreases ids@.len() - i,
        {
            let id = ids[i];
            self.users.remove(&id);
            assert(ids@.subrange(0, i + 1).to_set() == ids@.subrange(0, i as int).to_set().insert(id)) by {
                assert(ids@.subrange(0, i + 1) == ids@.subrange(0, i as int).push(id));
                ids@.subrange(0, i as int).lemma_push_to_set_commute(id);
            }
            assert(self.users@ == old(self).users@.remove_keys(ids@.subrange(0, i + 1).to_set()));
            i += 1;
        }
        assert(ids@.subrange(0, ids@.len() as int) == ids@);
    }

    /// Decides what a packet from a logged-in user does (see
    /// `is_server_answer`).
    pub fn handle_packet<S>(packet: ServerboundPacket, user: &User<S>) -> (res: Result<
        ServerAction,
        ServerNetworkError,
    >)
        ensures
            is_server_answer(packet, user.username@, user.token@, res),
    {
        match packet {
            ServerboundPacket::Message { token, message } => {
                if user.token == token {
                    let mut content = String::from_str("[");
                    content.append(user.username.as_str());
                    content.append("]: ");
                    content.append(message.as_str());
                    Ok(ServerAction::Broadcast(ClientboundPacket::Message { content }))
                } else {
                    Ok(ServerAction::Kick(String::from_str("Used invalid token!")))
                }
            },
            ServerboundPacket::Heartbeat { .. } => Ok(ServerAction::Ignore),
            ServerboundPacket::Disconnect { .. } => Ok(ServerAction::Ignore),
            _ => Err(ServerNetworkError::InvalidPacketFromClient),
        }
    }
}

/// How the server answers the first packet of a new connection.
#[derive(Clone, Debug, PartialEq, Eq)]
pub enum LoginStep {
    /// A login: the user with this name is let in.
    Accept(String),
    /// Refused with this error.
    Reject(ServerNetworkError),
    /// The packet is sent to the client, then the connection is refused.
    KickAndReject(Packet, ServerNetworkError),
}

/// What a session does with a packet it received from its user.
#[derive(Clone, Debug, PartialEq, Eq)]
pub enum ReceivedStep {
    /// Handle the packet (see `ChatroomServer::handle_packet`).
    Dispatch(ServerboundPacket),
    /// End the session with this error.
    Fail(ServerNetworkError),
    /// Nothing.
    Ignore,
}

/// What a session does with a command from another session.
#[derive(Clone, Debug, PartialEq, Eq)]
pub enum SessionCommandStep {
    /// Send the packet to the user and report the result back through the
    /// channel; the session ends if that report cannot be delivered.
    Forward(Packet),
    /// Send the packet to the user, then end the session.
    Kick(Packet),
    /// End the session.
    Disconnect,
    /// Nothing.
    Ignore,
}

/// The task that serves one client connection.
pub struct ClientHandler<S> {
    pub stream: S,
}

impl<S> ClientHandler<S> {
    pub fn new(stream: S) -> (res: Self)
        ensures
            res.stream == stream,
    {
        ClientHandler { stream }
    }

    /// The first packet must be a login. Another serverbound packet is an
    /// invalid packet; a clientbound one gets the client kicked before it is
    /// refused.
    pub fn login_step(packet: Packet) -> (res: LoginStep)
        ensures
            match packet {
                Packet::Serverbound(ServerboundPacket::Login { username }) => res == LoginStep::Accept(username),
                Packet::Serverbound(_) => res == LoginStep::Reject(ServerNetworkError::InvalidPacketFromClient),
                Packet::Clientbound(_) => res matches LoginStep::KickAndReject(
                    Packet::Clientbound(ClientboundPacket::Kicked { reason }),
                    ServerNetworkError::SentClientboundToServer,
                ) && reason@ == "Sent clientbound packet to server"@,
            },
    {
        match packet {
            Packet::Serverbound(p) => match p {
                ServerboundPacket::Login { username } => LoginStep::Accept(username),
                _ => LoginStep::Reject(ServerNetworkError::InvalidPacketFromClient),
            },
            Packet::Clientbound(_) => LoginStep::KickAndReject(
                Packet::Clientbound(
                    ClientboundPacket::Kicked { reason: String::from_str("Sent clientbound packet to server") },
                ),
                ServerNetworkError::SentClientboundToServer,
            ),
        }
    }

    /// A serverbound packet is handled; a clientbound one ends the session
    /// with an error; a failed receive is passed over.
    pub fn on_received<E>(received: Result<Packet, E>) -> (res: ReceivedStep)
        ensures
            res == (match received {
                Ok(Packet::Serverbound(p)) => ReceivedStep::Dispatch(p),
                Ok(Packet::Clientbound(_)) => ReceivedStep::Fail(ServerNetworkError::SentClientboundToServer),
                Err(_) => ReceivedStep::Ignore,
            }),
    {
        match received {
            Ok(Packet::Serverbound(p)) => ReceivedStep::Dispatch(p),
            Ok(Packet::Clientbound(_)) => ReceivedStep::Fail(ServerNetworkError::SentClientboundToServer),
            Err(_) => ReceivedStep::Ignore,
        }
    }

    /// A packet is forwarded to the user; a kick sends the user the reason
    /// and ends the session; a disconnect ends it; feedback, the empty command
    /// and a closed channel (`None`) do nothing.
    pub fn on_command<E>(command: Option<CrossUserCommand<E>>) -> (res: SessionCommandStep)
        ensures
            res == (match command {
                Some(CrossUserCommand::Packet(p)) => SessionCommandStep::Forward(p),
                Some(CrossUserCommand::Kick(reason)) => SessionCommandStep::Kick(
                    Packet::Clientbound(ClientboundPacket::Kicked { reason }),
                ),
                Some(CrossUserCommand::Disconnect) => SessionCommandStep::Disconnect,
                _ => SessionCommandStep::Ignore,
            }),
    {
        match command {
            Some(CrossUserCommand::Packet(p)) => SessionCommandStep::Forward(p),
            Some(CrossUserCommand::Kick(reason)) => SessionCommandStep::Kick(
                Packet::Clientbound(ClientboundPacket::Kicked { reason }),
            ),
            Some(CrossUserCommand::Disconnect) => SessionCommandStep::Disconnect,
            _ => SessionCommandStep::Ignore,
        }
    }
}

/// A chat message that a client sends with the token the server gave it
/// reaches every logged-in user as `[name]: message`.
pub proof fn lemma_client_message_is_broadcast(
    message: String,
    token: String,
    username: Seq<char>,
    res: Result<ServerAction, ServerNetworkError>,
)
    requires
        is_server_answer(
            with_token(ServerboundPacketNonToken::Message { message }, token),
            username,
            token@,
            res,
        ),
    ensures
        res matches Ok(ServerAction::Broadcast(ClientboundPacket::Message { content }))
            && content@ == chat_line(username, message@),
{
}

/// A message whose token is not the sender's own never reaches the other
/// users: the sender is kicked instead.
pub proof fn lemma_forged_token_is_kicked(
    message: String,
    forged: String,
    username: Seq<char>,
    token: Seq<char>,
    res: Result<ServerAction, ServerNetworkError>,
)
    requires
        forged@ != token,
        is_server_answer(ServerboundPacket::Message { token: forged, message }, username, token, res),
    ensures
        !(res matches Ok(ServerAction::Broadcast(_))),
        res matches Ok(ServerAction::Kick(_)),
{
}

/// A heartbeat is ignored by the server whatever token it carries, the
/// sender's own included: the session goes on and nothing is sent.
pub proof fn lemma_heartbeat_is_ignored(
    t: String,
    username: Seq<char>,
    token: Seq<char>,
    res: Result<ServerAction, ServerNetworkError>,
)
    requires
        is_server_answer(ServerboundPacket::Heartbeat { token: t }, username, token, res),
    ensures
        res == Ok::<ServerAction, ServerNetworkError>(ServerAction::Ignore),
{
}

/// A disconnect is ignored by the server whatever token it carries.
pub proof fn lemma_disconnect_is_ignored(
    t: String,
    username: Seq<char>,
    token: Seq<char>,
    res: Result<ServerAction, ServerNetworkError>,
)
    requires
        is_server_answer(ServerboundPacket::Disconnect { token: t }, username, token, res),
    ensures
        res == Ok::<ServerAction, ServerNetworkError>(ServerAction::Ignore),
{
}

/// A second login from a logged-in user is refused as an invalid packet.
pub proof fn lemma_second_login_is_refused(
    name: String,
    username: Seq<char>,
    token: Seq<char>,
    res: Result<ServerAction, ServerNetworkError>,
)
    requires
        is_server_answer(ServerboundPacket::Login { username: name }, username, token, res),
    ensures
        res == Err::<ServerAction, ServerNetworkError>(ServerNetworkError::InvalidPacketFromClient),
{
}

/// A message carrying the sender's own token is broadcast, whole, as the
/// characters `[`, the sender's name, `]`, `:`, a space, then the message
/// itself, character for character, however long it is.
pub proof fn lemma_broadcast_text(
    t: String,
    message: String,
    username: Seq<char>,
    token: Seq<char>,
    res: Result<ServerAction, ServerNetworkError>,
)
    requires
        t@ == token,
        is_server_answer(ServerboundPacket::Message { token: t, message }, username, token, res),
    ensures
        res matches Ok(ServerAction::Broadcast(ClientboundPacket::Message { content })) && {
            let n = username.len() as int;
            &&& content@.len() == n + 4 + message@.len()
            &&& content@[0] == '['
            &&& content@.subrange(1, n + 1) == username
            &&& content@[n + 1] == ']'
            &&& content@[n + 2] == ':'
            &&& content@[n + 3] == ' '
            &&& content@.subrange(n + 4, content@.len() as int) == message@
        },
{
    reveal_strlit("[");
    reveal_strlit("]: ");
    let content = res->Ok_0->Broadcast_0->Message_content;
    let n = username.len() as int;
    assert(content@ == seq!['['] + username + seq![']', ':', ' '] + message@);
    assert(content@.subrange(1, n + 1) =~= username);
    assert(content@.subrange(n + 4, content@.len() as int) =~= message@);
}

} // verus!
