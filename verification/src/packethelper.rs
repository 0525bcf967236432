use vstd::prelude::*;
use crate::packet::{Packet, ServerboundPacket, ServerboundPacketNonToken};

verus! {

/// Builders for the packets a client sends.
pub struct PacketH;

/// A non-token packet completed with a session token.
pub open spec fn with_token(spnt: ServerboundPacketNonToken, token: String) -> ServerboundPacket {
    match spnt {
        ServerboundPacketNonToken::Login { username } => ServerboundPacket::Login { username },
        ServerboundPacketNonToken::Message { message } => ServerboundPacket::Message { token, message },
        ServerboundPacketNonToken::Heartbeat => ServerboundPacket::Heartbeat { token },
        ServerboundPacketNonToken::Disconnect => ServerboundPacket::Disconnect { token },
    }
}

impl PacketH {
    pub fn login(username: String) -> (res: Packet)
        ensures
            res == Packet::Serverbound(ServerboundPacket::Login { username }),
    {
        Packet::Serverbound(ServerboundPacket::Login { username })
    }

    pub fn message(message: String, token: String) -> (res: Packet)
        ensures
            res == Packet::Serverbound(ServerboundPacket::Message { token, message }),
    {
        Packet::Serverbound(ServerboundPacket::Message { token, message })
    }

    pub fn heartbeat(token: String) -> (res: Packet)
        ensures
            res == Packet::Serverbound(ServerboundPacket::Heartbeat { token }),
    {
        Packet::Serverbound(ServerboundPacket::Heartbeat { token })
    }

    pub fn disconnect(token: String) -> (res: Packet)
        ensures
            res == Packet::Serverbound(ServerboundPacket::Disconnect { token }),
    {
        Packet::Serverbound(ServerboundPacket::Disconnect { token })
    }

    pub fn login_nt(username: String) -> (res: ServerboundPacketNonToken)
        ensures
            res == (ServerboundPacketNonToken::Login { username }),
    {
        ServerboundPacketNonToken::Login { username }
    }

    pub fn message_nt(message: String) -> (res: ServerboundPacketNonToken)
        ensures
            res == (ServerboundPacketNonToken::Message { message }),
    {
        ServerboundPacketNonToken::Message { message }
    }

    pub fn heartbeat_nt() -> (res: ServerboundPacketNonToken)
        ensures
            res == ServerboundPacketNonToken::Heartbeat,
    {
        ServerboundPacketNonToken::Heartbeat {}
    }

    pub fn disconnect_nt() -> (res: ServerboundPacketNonToken)
        ensures
            res == ServerboundPacketNonToken::Disconnect,
    {
        ServerboundPacketNonToken::Disconnect {}
    }

    /// Attaches the session token to a packet built without one. A login
    /// keeps no token; every other packet carries `token`.
    pub fn from_spnt_to_sp(spnt: ServerboundPacketNonToken, token: String) -> (res: ServerboundPacket)
        ensures
            res == with_token(spnt, token),
    {
        match spnt {
            ServerboundPacketNonToken::Login { username } => {
                ServerboundPacket::Login { username: username }
            },
            ServerboundPacketNonToken::Message { message } => {
                ServerboundPacket::Message { token, message }
            },
            ServerboundPacketNonToken::Heartbeat => ServerboundPacket::Heartbeat { token },
            ServerboundPacketNonToken::Disconnect => ServerboundPacket::Disconnect { token },
        }
    }
}

/// Building a packet without a token and then attaching the token gives the
/// same packet as the builder that takes the token directly; a login is the
/// same whatever token is attached.
pub proof fn lemma_token_builders_agree(username: String, message: String, token: String, other: String)
    ensures
        Packet::Serverbound(with_token(ServerboundPacketNonToken::Login { username }, token))
            == Packet::Serverbound(ServerboundPacket::Login { username }),
        with_token(ServerboundPacketNonToken::Login { username }, token)
            == with_token(ServerboundPacketNonToken::Login { username }, other),
        Packet::Serverbound(with_token(ServerboundPacketNonToken::Message { message }, token))
            == Packet::Serverbound(ServerboundPacket::Message { token, message }),
        Packet::Serverbound(with_token(ServerboundPacketNonToken::Heartbeat, token))
            == Packet::Serverbound(ServerboundPacket::Heartbeat { token }),
        Packet::Serverbound(with_token(ServerboundPacketNonToken::Disconnect, token))
            == Packet::Serverbound(ServerboundPacket::Disconnect { token }),
{
}

/// Attaching a token to anything but a login makes the packet carry exactly
/// that token; a login carries none.
pub proof fn lemma_token_attached(spnt: ServerboundPacketNonToken, token: String)
    ensures
        with_token(spnt, token).token_of() == (if spnt is Login { None::<String> } else { Some(token) }),
{
}

} // verus!
