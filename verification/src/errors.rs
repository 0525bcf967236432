use vstd::prelude::*;

verus! {

/// The category an error falls in when it is reported as an I/O error.
#[derive(Clone, Copy, Debug, PartialEq, Eq, Structural)]
pub enum IoErrorKind {
    InvalidData,
    HostUnreachable,
    TimedOut,
    Unsupported,
    NotFound,
    Other,
}

/// Protocol violations a server detects in what a client sent.
#[derive(Clone, Copy, Debug, PartialEq, Eq, Structural)]
pub enum ServerNetworkError {
    SentClientboundToServer,
    InvalidPacketFromClient,
}

impl ServerNetworkError {
    pub open spec fn spec_message(self) -> Seq<char> {
        match self {
            ServerNetworkError::SentClientboundToServer => "Client sent ClientBound Packet to server."@,
            ServerNetworkError::InvalidPacketFromClient => "Client sent a invalid packet to the server."@,
        }
    }

    /// The human-readable text of the error.
    pub fn to_string(&self) -> (res: String)
        ensures
            res@ == self.spec_message(),
    {
        match self {
            ServerNetworkError::SentClientboundToServer => {
                String::from_str("Client sent ClientBound Packet to server.")
            },
            ServerNetworkError::InvalidPacketFromClient => {
                String::from_str("Client sent a invalid packet to the server.")
            },
        }
    }

    /// Both errors are reported as invalid data.
    pub fn kind(&self) -> (res: IoErrorKind)
        ensures
            res == IoErrorKind::InvalidData,
    {
        IoErrorKind::InvalidData
    }
}

/// Errors a client meets while talking to a server.
#[derive(Clone, Debug, PartialEq, Eq)]
pub enum ClientNetworkError {
    SentServerboundToClient,
    UnexpectedPacket,
    UnreachableServer,
    NotResponding,
    UnimplementedPacket,
    Other(String),
}

impl ClientNetworkError {
    pub open spec fn spec_message(self) -> Seq<char> {
        match self {
            ClientNetworkError::SentServerboundToClient => "Client sent ClientBound Packet to server."@,
            ClientNetworkError::UnexpectedPacket => "Client sent a invalid packet to the server."@,
            ClientNetworkError::UnreachableServer => "Server is unreachable."@,
            ClientNetworkError::NotResponding => "Server isn't responding."@,
            ClientNetworkError::UnimplementedPacket => "Packet is unimplemented."@,
            ClientNetworkError::Other(d) => d@,
        }
    }

    pub open spec fn spec_kind(self) -> IoErrorKind {
        match self {
            ClientNetworkError::SentServerboundToClient => IoErrorKind::InvalidData,
            ClientNetworkError::UnexpectedPacket => IoErrorKind::InvalidData,
            ClientNetworkError::UnreachableServer => IoErrorKind::HostUnreachable,
            ClientNetworkError::NotResponding => IoErrorKind::TimedOut,
            ClientNetworkError::UnimplementedPacket => IoErrorKind::Unsupported,
            ClientNetworkError::Other(_) => IoErrorKind::Other,
        }
    }

    /// The human-readable text of the error; for `Other` it is the text it holds.
    pub fn to_string(&self) -> (res: String)
        ensures
            res@ == self.spec_message(),
    {
        match self {
            ClientNetworkError::SentServerboundToClient => {
                String::from_str("Client sent ClientBound Packet to server.")
            },
            ClientNetworkError::UnexpectedPacket => {
                String::from_str("Client sent a invalid packet to the server.")
            },
            ClientNetworkError::UnreachableServer => String::from_str("Server is unreachable."),
            ClientNetworkError::NotResponding => String::from_str("Server isn't responding."),
            ClientNetworkError::UnimplementedPacket => String::from_str("Packet is unimplemented."),
            ClientNetworkError::Other(d) => d.clone(),
        }
    }

    /// The I/O error category the error is reported under.
    pub fn kind(&self) -> (res: IoErrorKind)
        ensures
            res == self.spec_kind(),
    {
        match self {
            ClientNetworkError::SentServerboundToClient => IoErrorKind::InvalidData,
            ClientNetworkError::UnexpectedPacket => IoErrorKind::InvalidData,
            ClientNetworkError::UnreachableServer => IoErrorKind::HostUnreachable,
            ClientNetworkError::NotResponding => IoErrorKind::TimedOut,
            ClientNetworkError::UnimplementedPacket => IoErrorKind::Unsupported,
            ClientNetworkError::Other(_) => IoErrorKind::Other,
        }
    }
}

/// Errors answered to a command of the user interface.
#[derive(Clone, Copy, Debug, PartialEq, Eq, Structural)]
pub enum CommandStatusError {
    InvalidIp,
    NoTransmitter,
}

impl CommandStatusError {
    pub open spec fn spec_message(self) -> Seq<char> {
        match self {
            CommandStatusError::InvalidIp => "Invalid IP entered!"@,
            CommandStatusError::NoTransmitter => "No transmitter available."@,
        }
    }

    /// The human-readable text of the error.
    pub fn to_string(&self) -> (res: String)
        ensures
            res@ == self.spec_message(),
    {
        match self {
            CommandStatusError::InvalidIp => String::from_str("Invalid IP entered!"),
            CommandStatusError::NoTransmitter => String::from_str("No transmitter available."),
        }
    }

    /// An invalid address is invalid data; a missing transmitter is not found.
    pub fn kind(&self) -> (res: IoErrorKind)
        ensures
            res == (match self {
                CommandStatusError::InvalidIp => IoErrorKind::InvalidData,
                CommandStatusError::NoTransmitter => IoErrorKind::NotFound,
            }),
    {
        match self {
            CommandStatusError::InvalidIp => IoErrorKind::InvalidData,
            CommandStatusError::NoTransmitter => IoErrorKind::NotFound,
        }
    }
}

} // verus!
