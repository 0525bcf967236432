//! Verified core of a small chatroom: the packet model shared by client and
//! server, the length-prefixed wire framing, and the decisions that the client
//! and server sessions take on each packet or command.
pub mod packet;
pub mod packethelper;
pub mod framing;
pub mod errors;
pub mod consts;
pub mod client;
pub mod server;
