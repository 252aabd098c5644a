use null_chat::backend::commands::Cmd;
use null_chat::backend::rules::{Action, Event};
use null_chat::backend::setup::{NULLSEC_CH_CHAT, NULLSEC_CODE, NULLSEC_SERVER_ID};
use null_chat::backend::state::{AppState, Phase, Role, UserStatus};
use null_chat::model::{WireKind, WireMessage};

const FRIEND_ID: u128 = 0x11111111_2222_3333_4444_555555555555;

fn wire(kind: WireKind, from: &str, body: &str) -> WireMessage {
    WireMessage {
        kind,
        from_id: from.to_string(),
        from_name: format!("{}-name", from),
        target_id: String::new(),
        body: body.to_string(),
        timestamp: 42,
    }
}

fn uuid_text(v: u128) -> String {
    let h = format!("{:032x}", v);
    format!("{}-{}-{}-{}-{}", &h[..8], &h[8..12], &h[12..16], &h[16..20], &h[20..])
}

#[test]
fn backend_initial_state() {
    let s = AppState::new(true, 100);
    assert_eq!(s.phase, Phase::Setup);
    assert_eq!(s.my_name, "Anonymous");
    assert_eq!(s.my_user_id.len(), 64);
    assert_eq!(s.my_status, UserStatus::Online);
    assert_eq!(s.servers.len(), 1);
    let srv = &s.servers[0];
    assert_eq!(srv.id, NULLSEC_SERVER_ID);
    assert_eq!(srv.server_code, NULLSEC_CODE);
    assert_eq!(srv.channels.len(), 3);
    assert_eq!(srv.channels[1].name, "chat");
    assert_eq!(srv.members.len(), 1);
    assert_eq!(srv.members[0].user_id, s.my_user_id);
    assert_eq!(srv.members[0].role, Role::Owner);
    assert_eq!(AppState::new(false, 0).phase, Phase::Unlock);
}

#[test]
fn incoming_direct_message_adds_friend_and_counts_unread() {
    let mut s = AppState::new(true, 0);
    s.handle_incoming(wire(WireKind::DirectMessage, "peer.onion", "hi"), 7, 1, 2);
    assert_eq!(s.friends.len(), 1);
    assert_eq!(s.friends[0].id, 1);
    assert_eq!(s.friends[0].user_id, "peer.onion");
    assert_eq!(s.friends[0].display_name, "peer.onion-name");
    assert_eq!(s.friends[0].added_at, 7);
    assert_eq!(s.conversations.len(), 1);
    assert_eq!(s.conversations[0].friend_id, 1);
    assert_eq!(s.conversations[0].messages[0].body, "hi");
    assert!(!s.conversations[0].messages[0].outgoing);
    assert_eq!(s.unread.len(), 1);
    assert_eq!(s.unread[0].count, 1);
    s.handle_incoming(wire(WireKind::DirectMessage, "peer.onion", "again"), 8, 3, 4);
    assert_eq!(s.friends.len(), 1);
    assert_eq!(s.conversations[0].messages.len(), 2);
    assert_eq!(s.unread[0].count, 2);
}

#[test]
fn incoming_friend_request_once() {
    let mut s = AppState::new(true, 0);
    s.handle_incoming(wire(WireKind::FriendRequest, "peer.onion", ""), 7, 1, 2);
    s.handle_incoming(wire(WireKind::FriendRequest, "peer.onion", ""), 8, 3, 4);
    assert_eq!(s.friends.len(), 1);
    s.handle_incoming(wire(WireKind::Ping, "other.onion", ""), 8, 5, 6);
    assert_eq!(s.friends.len(), 1);
}

#[test]
fn incoming_channel_and_group_messages() {
    let mut s = AppState::new(true, 0);
    let kind = WireKind::ChannelMessage {
        server_id: uuid_text(NULLSEC_SERVER_ID),
        channel_id: uuid_text(NULLSEC_CH_CHAT),
    };
    s.handle_incoming(wire(kind, "peer.onion", "hello chat"), 7, 1, 2);
    assert_eq!(s.servers[0].channels[1].messages.len(), 1);
    assert_eq!(s.servers[0].channels[1].messages[0].body, "hello chat");
    assert_eq!(s.unread[0].id, NULLSEC_CH_CHAT);
    let unknown = WireKind::GroupMessage { group_id: uuid_text(99) };
    s.handle_incoming(wire(unknown, "peer.onion", "lost"), 7, 3, 4);
    assert_eq!(s.unread.len(), 1);
    let bad = WireKind::GroupMessage { group_id: "not a uuid".to_string() };
    s.handle_incoming(wire(bad, "peer.onion", "lost"), 7, 3, 4);
    assert_eq!(s.unread.len(), 1);
}

fn error_of(events: &[Event]) -> Option<String> {
    match events.first() {
        Some(Event::Error { msg }) => Some(msg.clone()),
        _ => None,
    }
}

#[test]
fn add_friend_validates() {
    let mut s = AppState::new(true, 0);
    let (ev, _) = s.process_cmd(Cmd::AddFriend { user_id: "  ".into(), name: "x".into() }, 1, 10);
    assert_eq!(error_of(&ev).as_deref(), Some("Enter a User ID."));
    let (ev, _) = s.process_cmd(Cmd::AddFriend { user_id: "a.onion".into(), name: " ".into() }, 1, 10);
    assert_eq!(error_of(&ev).as_deref(), Some("Enter a display name."));
    let (ev, _) = s.process_cmd(Cmd::AddFriend { user_id: " a.onion ".into(), name: " Al ".into() }, 1, 10);
    assert!(matches!(&ev[0], Event::Notif { kind, msg } if kind == "success" && msg == "Friend added!"));
    assert!(matches!(ev[1], Event::State));
    assert_eq!(s.friends[0].user_id, "a.onion");
    assert_eq!(s.friends[0].display_name, "Al");
    assert_eq!(s.friends[0].id, 10);
    let (ev, _) = s.process_cmd(Cmd::AddFriend { user_id: "a.onion".into(), name: "Al".into() }, 1, 11);
    assert_eq!(error_of(&ev).as_deref(), Some("Already in your friends list."));
    assert_eq!(s.friends.len(), 1);
}

#[test]
fn send_dm_stores_and_sends() {
    let mut s = AppState::new(true, 0);
    s.process_cmd(Cmd::AddFriend { user_id: "a.onion".into(), name: "Al".into() }, 1, FRIEND_ID);
    let (ev, actions) = s.process_cmd(Cmd::SendDm { friend_id: uuid_text(FRIEND_ID), body: "  hey ".into() }, 5, 77);
    assert!(matches!(ev[0], Event::State));
    assert_eq!(s.conversations[0].messages[0].body, "hey");
    assert!(s.conversations[0].messages[0].outgoing);
    assert_eq!(actions.len(), 1);
    match &actions[0] {
        Action::Send { peer, wire, socks } => {
            assert_eq!(peer, "a.onion");
            assert_eq!(wire.body, "hey");
            assert_eq!(wire.from_name, "Anonymous");
            assert!(socks.is_none());
        }
    }
    let (ev, actions) = s.process_cmd(Cmd::SendDm { friend_id: uuid_text(FRIEND_ID), body: "  ".into() }, 5, 78);
    assert!(ev.is_empty() && actions.is_empty());
}

#[test]
fn create_group_and_moderate() {
    let mut s = AppState::new(true, 0);
    let (ev, _) = s.process_cmd(Cmd::CreateGroup { name: " ".into(), desc: String::new() }, 1, 5);
    assert_eq!(error_of(&ev).as_deref(), Some("Enter a group name."));
    s.process_cmd(Cmd::CreateGroup { name: " crew ".into(), desc: String::new() }, 1, 5);
    assert_eq!(s.groups[0].name, "crew");
    assert!(s.groups[0].description.is_none());
    assert_eq!(s.groups[0].members[0].role, Role::Owner);
    let me = s.my_user_id.clone();
    let gid = uuid_text(5);
    s.process_cmd(Cmd::Mute { context_id: gid.clone(), user_id: me.clone(), is_server: false }, 2, 6);
    assert!(s.groups[0].members[0].muted);
    s.process_cmd(Cmd::Unmute { context_id: gid.clone(), user_id: me.clone(), is_server: false }, 2, 6);
    assert!(!s.groups[0].members[0].muted);
    let (ev, _) = s.process_cmd(Cmd::Kick { context_id: gid, user_id: me.clone(), is_server: false }, 2, 6);
    assert!(s.groups[0].members.is_empty());
    assert!(matches!(&ev[0], Event::Notif { kind, msg } if kind == "warn" && *msg == format!("Kicked {}....", &me[..10])));
}

#[test]
fn ban_and_unban_in_owned_server() {
    let mut s = AppState::new(true, 0);
    let sid = uuid_text(NULLSEC_SERVER_ID);
    let (ev, _) = s.process_cmd(Cmd::Ban { context_id: sid.clone(), user_id: "bad.onion".into(), is_server: true }, 1, 2);
    assert_eq!(s.servers[0].banned_ids, vec!["bad.onion".to_string()]);
    assert!(matches!(&ev[0], Event::Notif { kind, msg } if kind == "error" && msg == "Banned bad.onion."));
    s.process_cmd(Cmd::Ban { context_id: sid.clone(), user_id: "bad.onion".into(), is_server: true }, 1, 2);
    assert_eq!(s.servers[0].banned_ids.len(), 1);
    s.process_cmd(Cmd::Unban { context_id: sid, user_id: "bad.onion".into() }, 1, 2);
    assert!(s.servers[0].banned_ids.is_empty());
}

#[test]
fn ban_needs_a_moderator() {
    let mut s = AppState::new(true, 0);
    s.servers[0].members[0].role = Role::Member;
    let sid = uuid_text(NULLSEC_SERVER_ID);
    s.process_cmd(Cmd::Ban { context_id: sid, user_id: "bad.onion".into(), is_server: true }, 1, 2);
    assert!(s.servers[0].banned_ids.is_empty());
}

#[test]
fn set_status_words() {
    let mut s = AppState::new(true, 0);
    s.process_cmd(Cmd::SetStatus { status: "Away".into() }, 1, 2);
    assert_eq!(s.my_status, UserStatus::Away);
    s.process_cmd(Cmd::SetStatus { status: "whatever".into() }, 1, 2);
    assert_eq!(s.my_status, UserStatus::Online);
    let (ev, _) = s.process_cmd(Cmd::GetState, 1, 2);
    assert!(matches!(ev[0], Event::State));
}
