use vstd::prelude::*;

verus! {

/// Packets sent from the client to the server.
#[derive(Clone, Debug, PartialEq, Eq)]
pub enum ServerboundPacket {
    Login { username: String },
    /// No username is bundled: the server knows who holds the token.
    Message { token: String, message: String },
    Heartbeat { token: String },
    Disconnect { token: String },
}

/// A serverbound packet before the session token is attached to it.
#[derive(Clone, Debug, PartialEq, Eq)]
pub enum ServerboundPacketNonToken {
    Login { username: String },
    Message { message: String },
    Heartbeat,
    Disconnect,
}

/// Packets sent from the server to the client.
#[derive(Clone, Debug, PartialEq, Eq)]
pub enum ClientboundPacket {
    Token { token: String },
    Message { content: String },
    HeartbeatReq,
    Kicked { reason: String },
}

/// Any packet that travels over a connection, tagged with its direction.
#[derive(Clone, Debug, PartialEq, Eq)]
pub enum Packet {
    Clientbound(ClientboundPacket),
    Serverbound(ServerboundPacket),
}

impl ServerboundPacket {
    /// The session token a packet carries; a login carries none.
    pub open spec fn token_of(self) -> Option<String> {
        match self {
            ServerboundPacket::Login { .. } => None,
            ServerboundPacket::Message { token, .. } => Some(token),
            ServerboundPacket::Heartbeat { token } => Some(token),
            ServerboundPacket::Disconnect { token } => Some(token),
        }
    }
}

} // verus!
