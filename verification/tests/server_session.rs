use chatroom::client::{CommandStep, ConnectionLoop, ConnectionThreadCommand};
use chatroom::packethelper::PacketH;
use chatroom::errors::ServerNetworkError;
use chatroom::packet::{ClientboundPacket, Packet, ServerboundPacket};
use chatroom::server::{
    ChatroomServer, ClientHandler, CrossUserCommand, Feedback, LoginStep, ReceivedStep, ServerAction,
    SessionCommandStep, SharedUser, User, TOKEN_LEN,
};

fn s(x: &str) -> String {
    x.to_string()
}

fn alice() -> User<()> {
    User { username: s("alice"), id: 1, token: s("good"), stream: () }
}

#[test]
fn valid_message_is_broadcast_with_name() {
    let res = ChatroomServer::<u8>::handle_packet(
        ServerboundPacket::Message { token: s("good"), message: s("hello all") },
        &alice(),
    );
    assert_eq!(res, Ok(ServerAction::Broadcast(ClientboundPacket::Message { content: s("[alice]: hello all") })));
}

#[test]
fn empty_message_is_still_broadcast() {
    let res = ChatroomServer::<u8>::handle_packet(
        ServerboundPacket::Message { token: s("good"), message: s("") },
        &alice(),
    );
    assert_eq!(res, Ok(ServerAction::Broadcast(ClientboundPacket::Message { content: s("[alice]: ") })));
}

#[test]
fn forged_token_gets_user_kicked() {
    let res = ChatroomServer::<u8>::handle_packet(
        ServerboundPacket::Message { token: s("bad"), message: s("hi") },
        &alice(),
    );
    assert_eq!(res, Ok(ServerAction::Kick(s("Used invalid token!"))));
}

#[test]
fn heartbeat_disconnect_ignored_and_relogin_invalid() {
    let u = alice();
    assert_eq!(
        ChatroomServer::<u8>::handle_packet(ServerboundPacket::Heartbeat { token: s("x") }, &u),
        Ok(ServerAction::Ignore)
    );
    assert_eq!(
        ChatroomServer::<u8>::handle_packet(ServerboundPacket::Disconnect { token: s("good") }, &u),
        Ok(ServerAction::Ignore)
    );
    assert_eq!(
        ChatroomServer::<u8>::handle_packet(ServerboundPacket::Login { username: s("alice") }, &u),
        Err(ServerNetworkError::InvalidPacketFromClient)
    );
}

#[test]
fn registry_assigns_ids_and_removes_dead_users() {
    let mut srv: ChatroomServer<u8> = ChatroomServer::new();
    assert_eq!(srv.next_user_id(), 1);
    srv.register(SharedUser::new(s("a"), 1, 10));
    assert_eq!(srv.next_user_id(), 2);
    srv.register(SharedUser::new(s("b"), 2, 20));
    srv.register(SharedUser::new(s("c"), 3, 30));
    assert_eq!(srv.users.len(), 3);
    srv.remove_users(&vec![1, 3, 99]);
    assert_eq!(srv.users.len(), 1);
    assert_eq!(srv.users.get(&2).map(|u| u.username.clone()), Some(s("b")));
    srv.remove_user(2);
    assert!(srv.users.is_empty());
}

#[test]
fn new_user_can_replace_one_with_same_id() {
    let mut srv: ChatroomServer<u8> = ChatroomServer::new();
    srv.register(SharedUser::new(s("a"), 1, 10));
    srv.register(SharedUser::new(s("b"), 2, 20));
    srv.remove_user(1);
    let id = srv.next_user_id();
    assert_eq!(id, 2);
    srv.register(SharedUser::new(s("c"), id, 30));
    assert_eq!(srv.users.len(), 1);
    assert_eq!(srv.users.get(&2).map(|u| u.username.clone()), Some(s("c")));
}

#[test]
fn tokens_are_alphanumeric_of_fixed_length() {
    let t = User::<()>::gen_token();
    assert_eq!(t.chars().count(), TOKEN_LEN);
    assert!(t.chars().all(|c| c.is_ascii_alphanumeric()));
    assert_ne!(t, User::<()>::gen_token());
}

#[test]
fn connect_hands_the_token_to_the_client() {
    let (user, packet) = User::connect(s("zoe"), 4, 77u8);
    assert_eq!(user.username, "zoe");
    assert_eq!(user.id, 4);
    assert_eq!(user.stream, 77);
    assert_eq!(user.token.len(), TOKEN_LEN);
    assert_eq!(packet, Packet::Clientbound(ClientboundPacket::Token { token: user.token.clone() }));
}

#[test]
fn kick_packet_carries_reason() {
    assert_eq!(
        User::<()>::kick_packet("Used invalid token!"),
        Packet::Clientbound(ClientboundPacket::Kicked { reason: s("Used invalid token!") })
    );
}

#[test]
fn login_step_cases() {
    assert_eq!(
        ClientHandler::<()>::login_step(Packet::Serverbound(ServerboundPacket::Login { username: s("al") })),
        LoginStep::Accept(s("al"))
    );
    assert_eq!(
        ClientHandler::<()>::login_step(Packet::Serverbound(ServerboundPacket::Heartbeat { token: s("t") })),
        LoginStep::Reject(ServerNetworkError::InvalidPacketFromClient)
    );
    assert_eq!(
        ClientHandler::<()>::login_step(Packet::Clientbound(ClientboundPacket::HeartbeatReq)),
        LoginStep::KickAndReject(
            Packet::Clientbound(ClientboundPacket::Kicked { reason: s("Sent clientbound packet to server") }),
            ServerNetworkError::SentClientboundToServer
        )
    );
}

#[test]
fn received_packets_are_sorted() {
    let p = ServerboundPacket::Heartbeat { token: s("t") };
    assert_eq!(
        ClientHandler::<()>::on_received::<String>(Ok(Packet::Serverbound(p.clone()))),
        ReceivedStep::Dispatch(p)
    );
    assert_eq!(
        ClientHandler::<()>::on_received::<String>(Ok(Packet::Clientbound(ClientboundPacket::HeartbeatReq))),
        ReceivedStep::Fail(ServerNetworkError::SentClientboundToServer)
    );
    assert_eq!(ClientHandler::<()>::on_received::<String>(Err(s("eof"))), ReceivedStep::Ignore);
}

#[test]
fn commands_from_other_sessions() {
    let p = Packet::Clientbound(ClientboundPacket::Message { content: s("[a]: b") });
    assert_eq!(
        ClientHandler::<()>::on_command::<String>(Some(CrossUserCommand::Packet(p.clone()))),
        SessionCommandStep::Forward(p)
    );
    assert_eq!(
        ClientHandler::<()>::on_command::<String>(Some(CrossUserCommand::Kick(s("spam")))),
        SessionCommandStep::Kick(Packet::Clientbound(ClientboundPacket::Kicked { reason: s("spam") }))
    );
    assert_eq!(
        ClientHandler::<()>::on_command::<String>(Some(CrossUserCommand::Disconnect)),
        SessionCommandStep::Disconnect
    );
    assert_eq!(ClientHandler::<()>::on_command::<String>(Some(CrossUserCommand::N)), SessionCommandStep::Ignore);
    assert_eq!(
        ClientHandler::<()>::on_command::<String>(Some(CrossUserCommand::Feedback(Feedback::PacketSendResult(Ok(()))))),
        SessionCommandStep::Ignore
    );
    assert_eq!(ClientHandler::<()>::on_command::<String>(None), SessionCommandStep::Ignore);
}

#[test]
fn client_handler_keeps_stream() {
    let h = ClientHandler::new(5u8);
    assert_eq!(h.stream, 5);
}

#[test]
fn client_message_reaches_everyone_as_chat_line() {
    let user = User { username: s("bob"), id: 2, token: s("T0K3N"), stream: () };
    let mut lp = ConnectionLoop::new();
    let step = lp.on_command(Some(ConnectionThreadCommand::Packet(PacketH::message_nt(s("hi there")))), s("T0K3N"));
    let sent = match step {
        CommandStep::Send(Packet::Serverbound(p)) => p,
        other => panic!("expected a packet to send, got {:?}", other),
    };
    assert_eq!(
        ChatroomServer::<u8>::handle_packet(sent, &user),
        Ok(ServerAction::Broadcast(ClientboundPacket::Message { content: s("[bob]: hi there") }))
    );
}
