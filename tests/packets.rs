use std::collections::BTreeMap;
use synac_common::limits::{ERR_UNKNOWN_USER, PERM_ALL, PERM_READ, PERM_WRITE};
use synac_common::model::{Channel, ChannelReceive, Login, LoginUpdate, User};
use synac_common::{packet_kind, read, tag_name, Packet, PacketKind};

fn frame_and_read(body: &[u8]) -> Vec<u8> {
    let mut stream = Vec::new();
    synac_common::frame::write(&mut stream, body).unwrap();
    let mut pos = 0usize;
    let got = read(&stream, &mut pos).unwrap();
    assert_eq!(pos, stream.len());
    got
}

#[test]
fn tag_names_are_snake_case() {
    assert_eq!(tag_name(PacketKind::Error), "err");
    assert_eq!(tag_name(PacketKind::RateLimited), "rate_limited");
    assert_eq!(tag_name(PacketKind::ChannelCreate), "channel_create");
    assert_eq!(tag_name(PacketKind::MessageDeleteBulk), "message_delete_bulk");
    assert_eq!(tag_name(PacketKind::UserUpdate), "user_update");
    assert_eq!(tag_name(PacketKind::ChannelDeleteReceive), "channel_delete_receive");
    assert_eq!(tag_name(PacketKind::LoginSuccess), "login_success");
    assert_eq!(tag_name(PacketKind::MessageListReceived), "message_list_received");
    assert_eq!(tag_name(PacketKind::TypingReceive), "typing_receive");
}

#[test]
fn packet_kind_follows_variant() {
    let login = Packet::Login(Login {
        bot: false,
        name: "alice".to_string(),
        password: Some("pw".to_string()),
        token: None,
    });
    assert_eq!(login.kind(), PacketKind::Login);
    assert_eq!(Packet::Error(ERR_UNKNOWN_USER).kind(), PacketKind::Error);
    assert_eq!(Packet::RateLimited(5).kind(), PacketKind::RateLimited);
    assert_eq!(Packet::MessageListReceived.kind(), PacketKind::MessageListReceived);
    let ch = Packet::ChannelReceive(ChannelReceive { inner: Channel::default() });
    assert_eq!(ch.kind(), PacketKind::ChannelReceive);
}

#[test]
fn err_packet_keeps_its_code() {
    let mut m = BTreeMap::new();
    m.insert(tag_name(PacketKind::Error), ERR_UNKNOWN_USER);
    let body = rmp_serde::to_vec_named(&m).unwrap();
    let got = frame_and_read(&body);
    assert_eq!(packet_kind(&got), Some(PacketKind::Error));
    let back: BTreeMap<String, u8> = rmp_serde::from_slice(&got).unwrap();
    assert_eq!(back.get("err"), Some(&12));
}

#[test]
fn login_packet_keeps_name_and_absent_token() {
    let mut m = BTreeMap::new();
    m.insert(tag_name(PacketKind::Login), (false, "alice", Some("pw"), None::<&str>));
    let body = rmp_serde::to_vec(&m).unwrap();
    assert!(body.len() <= 65535);
    let got = frame_and_read(&body);
    assert_eq!(packet_kind(&got), Some(PacketKind::Login));
    let back: BTreeMap<String, (bool, String, Option<String>, Option<String>)> =
        rmp_serde::from_slice(&got).unwrap();
    let login = &back["login"];
    assert_eq!(login.1, "alice");
    assert_eq!(login.2.as_deref(), Some("pw"));
    assert_eq!(login.3, None);
}

#[test]
fn channel_receive_keeps_permission_mask() {
    let channel = (0u8, PERM_READ | PERM_WRITE, 3usize, "general", false);
    let mut m = BTreeMap::new();
    m.insert(tag_name(PacketKind::ChannelReceive), (channel,));
    let body = rmp_serde::to_vec(&m).unwrap();
    let got = frame_and_read(&body);
    assert_eq!(packet_kind(&got), Some(PacketKind::ChannelReceive));
    let back: BTreeMap<String, ((u8, u8, usize, String, bool),)> =
        rmp_serde::from_slice(&got).unwrap();
    let inner = &back["channel_receive"].0;
    assert_eq!(inner.1, 3);
    assert_eq!(inner.0, 0);
    assert_eq!(inner.2, 3);
    assert_eq!(inner.3, "general");
}

#[test]
fn unit_variant_travels_as_bare_tag() {
    let body = rmp_serde::to_vec(tag_name(PacketKind::MessageListReceived)).unwrap();
    let got = frame_and_read(&body);
    assert_eq!(packet_kind(&got), Some(PacketKind::MessageListReceived));
}

#[test]
fn permission_all_is_every_bit() {
    assert_eq!(PERM_ALL, 31);
}

#[test]
fn user_mode_prefers_override() {
    let channel = Channel {
        default_mode_bot: 0,
        default_mode_user: PERM_READ | PERM_WRITE,
        id: 3,
        name: "general".to_string(),
        private: false,
    };
    let mut user = User::default();
    assert_eq!(user.mode_in(&channel), 3);
    user.bot = true;
    assert_eq!(user.mode_in(&channel), 0);
    user.modes.insert(3, PERM_ALL);
    user.modes.insert(4, 0);
    assert_eq!(user.mode_in(&channel), 31);
}

#[test]
fn new_password_resets_token() {
    let mut u = LoginUpdate::default();
    assert!(!u.resets_token());
    u.reset_token = true;
    assert!(u.resets_token());
    u.reset_token = false;
    u.password_new = Some("new".to_string());
    assert!(u.resets_token());
}
