use chatroom::packet::{ClientboundPacket, Packet, ServerboundPacket, ServerboundPacketNonToken};
use chatroom::packethelper::PacketH;

fn s(x: &str) -> String {
    x.to_string()
}

#[test]
fn login_builder_makes_serverbound_login() {
    assert_eq!(
        PacketH::login(s("alice")),
        Packet::Serverbound(ServerboundPacket::Login { username: s("alice") })
    );
}

#[test]
fn message_builder_carries_token_and_text() {
    assert_eq!(
        PacketH::message(s("hello"), s("tok")),
        Packet::Serverbound(ServerboundPacket::Message { token: s("tok"), message: s("hello") })
    );
}

#[test]
fn heartbeat_and_disconnect_builders_carry_token() {
    assert_eq!(
        PacketH::heartbeat(s("tok")),
        Packet::Serverbound(ServerboundPacket::Heartbeat { token: s("tok") })
    );
    assert_eq!(
        PacketH::disconnect(s("tok")),
        Packet::Serverbound(ServerboundPacket::Disconnect { token: s("tok") })
    );
}

#[test]
fn non_token_builders() {
    assert_eq!(PacketH::login_nt(s("bob")), ServerboundPacketNonToken::Login { username: s("bob") });
    assert_eq!(PacketH::message_nt(s("yo")), ServerboundPacketNonToken::Message { message: s("yo") });
    assert_eq!(PacketH::heartbeat_nt(), ServerboundPacketNonToken::Heartbeat);
    assert_eq!(PacketH::disconnect_nt(), ServerboundPacketNonToken::Disconnect);
}

#[test]
fn attaching_token_matches_token_builders() {
    let pairs = vec![
        (PacketH::message_nt(s("m")), PacketH::message(s("m"), s("t"))),
        (PacketH::heartbeat_nt(), PacketH::heartbeat(s("t"))),
        (PacketH::disconnect_nt(), PacketH::disconnect(s("t"))),
        (PacketH::login_nt(s("u")), PacketH::login(s("u"))),
    ];
    for (nt, full) in pairs {
        assert_eq!(Packet::Serverbound(PacketH::from_spnt_to_sp(nt, s("t"))), full);
    }
}

#[test]
fn login_ignores_token() {
    let a = PacketH::from_spnt_to_sp(PacketH::login_nt(s("u")), s("one"));
    let b = PacketH::from_spnt_to_sp(PacketH::login_nt(s("u")), s("two"));
    assert_eq!(a, b);
    assert_eq!(a, ServerboundPacket::Login { username: s("u") });
}

#[test]
fn packets_of_both_directions_differ() {
    let c = Packet::Clientbound(ClientboundPacket::HeartbeatReq);
    let sb = PacketH::heartbeat(s(""));
    assert_ne!(c, sb);
}
