use null_chat::backend::commands::Cmd;
use null_chat::backend::lifecycle::{check_setup, check_unlock, TorOutcome, VaultOutcome};
use null_chat::backend::rules::{Action, Event};
use null_chat::backend::setup::{NULLSEC_CH_ANN, NULLSEC_CH_CHAT, NULLSEC_CODE, NULLSEC_SERVER_ID};
use null_chat::backend::state::{AppState, Phase, Role};
use null_chat::model::WireKind;
use null_chat::network::p2p::P2PStatus;

fn uuid_text(v: u128) -> String {
    let h = format!("{:032x}", v);
    format!("{}-{}-{}-{}-{}", &h[..8], &h[8..12], &h[12..16], &h[16..20], &h[20..])
}

fn error_of(events: &[Event]) -> Option<String> {
    match events.first() {
        Some(Event::Error { msg }) => Some(msg.clone()),
        _ => None,
    }
}

fn notif_of(events: &[Event]) -> Option<(String, String)> {
    match events.first() {
        Some(Event::Notif { kind, msg }) => Some((kind.clone(), msg.clone())),
        _ => None,
    }
}

#[test]
fn join_server_by_code() {
    let mut s = AppState::new(true, 0);
    let (ev, _) = s.process_cmd(Cmd::JoinServer { code: "abc".into() }, 1, 2);
    assert_eq!(error_of(&ev).as_deref(), Some("Server code is 8 characters."));
    let (ev, _) = s.process_cmd(Cmd::JoinServer { code: "ZZZZZZZZ".into() }, 1, 2);
    assert_eq!(error_of(&ev).as_deref(), Some("Server not found. Check the code."));
    // Already a member: nothing is added, the join is still reported.
    let (ev, _) = s.process_cmd(Cmd::JoinServer { code: format!("  {}  ", NULLSEC_CODE.to_lowercase()) }, 1, 2);
    assert_eq!(notif_of(&ev), Some(("success".to_string(), "Joined server!".to_string())));
    assert_eq!(s.servers[0].members.len(), 1);
    // A newcomer joins as a plain member.
    s.servers[0].members.clear();
    s.process_cmd(Cmd::JoinServer { code: NULLSEC_CODE.into() }, 9, 2);
    assert_eq!(s.servers[0].members.len(), 1);
    assert_eq!(s.servers[0].members[0].role, Role::Member);
    assert_eq!(s.servers[0].members[0].joined_at, 9);
    assert_eq!(s.servers[0].members[0].display_name, "Anonymous");
}

#[test]
fn join_server_refuses_the_banned() {
    let mut s = AppState::new(true, 0);
    let me = s.my_user_id.clone();
    s.servers[0].banned_ids.push(me);
    let (ev, _) = s.process_cmd(Cmd::JoinServer { code: NULLSEC_CODE.into() }, 1, 2);
    assert_eq!(error_of(&ev).as_deref(), Some("You are banned from this server."));
}

#[test]
fn save_profile_renames_in_nullsec() {
    let mut s = AppState::new(true, 0);
    let (ev, _) = s.process_cmd(
        Cmd::SaveProfile { name: " Ada ".into(), nick: " ada ".into(), bio: "   ".into() },
        1,
        2,
    );
    assert_eq!(notif_of(&ev), Some(("success".to_string(), "Profile saved!".to_string())));
    assert_eq!(s.my_name, "Ada");
    assert_eq!(s.my_nick.as_deref(), Some("ada"));
    assert!(s.my_bio.is_none());
    assert_eq!(s.servers[0].members[0].display_name, "Ada");
    s.process_cmd(Cmd::SaveProfile { name: " ".into(), nick: String::new(), bio: "hi".into() }, 1, 2);
    assert_eq!(s.my_name, "Ada");
    assert!(s.my_nick.is_none());
    assert_eq!(s.my_bio.as_deref(), Some("hi"));
}

#[test]
fn set_role_by_the_owner_only() {
    let mut s = AppState::new(true, 0);
    s.process_cmd(Cmd::JoinServer { code: NULLSEC_CODE.into() }, 1, 2);
    let sid = uuid_text(NULLSEC_SERVER_ID);
    s.servers[0].members.push(null_chat::backend::state::Member {
        user_id: "b.onion".into(),
        display_name: "B".into(),
        role: Role::Member,
        muted: false,
        banned: false,
        joined_at: 0,
    });
    let (ev, _) = s.process_cmd(
        Cmd::SetRole { context_id: sid.clone(), user_id: "b.onion".into(), role: "Co-Owner".into(), is_server: true },
        1,
        2,
    );
    assert_eq!(notif_of(&ev), Some(("success".to_string(), "Role updated to Co-Owner.".to_string())));
    assert_eq!(s.servers[0].members[1].role, Role::CoOwner);
    s.process_cmd(
        Cmd::SetRole { context_id: sid.clone(), user_id: "b.onion".into(), role: "boss".into(), is_server: true },
        1,
        2,
    );
    assert_eq!(s.servers[0].members[1].role, Role::Member);
    s.servers[0].members[0].role = Role::Admin;
    s.process_cmd(
        Cmd::SetRole { context_id: sid, user_id: "b.onion".into(), role: "Admin".into(), is_server: true },
        1,
        2,
    );
    assert_eq!(s.servers[0].members[1].role, Role::Member);
}

#[test]
fn add_group_member_once() {
    let mut s = AppState::new(true, 0);
    s.process_cmd(Cmd::CreateGroup { name: "crew".into(), desc: String::new() }, 1, 5);
    let gid = uuid_text(5);
    let (ev, _) = s.process_cmd(
        Cmd::AddGroupMember { group_id: gid.clone(), user_id: "  ".into(), name: String::new(), role: String::new() },
        1,
        2,
    );
    assert_eq!(error_of(&ev).as_deref(), Some("Enter a User ID."));
    let (ev, _) = s.process_cmd(
        Cmd::AddGroupMember {
            group_id: gid.clone(),
            user_id: " abcdefghijklmnop.onion ".into(),
            name: " ".into(),
            role: "Moderator".into(),
        },
        3,
        2,
    );
    assert_eq!(notif_of(&ev), Some(("success".to_string(), "Member added!".to_string())));
    assert_eq!(s.groups[0].members.len(), 2);
    assert_eq!(s.groups[0].members[1].user_id, "abcdefghijklmnop.onion");
    assert_eq!(s.groups[0].members[1].display_name, "abcdefghij...");
    assert_eq!(s.groups[0].members[1].role, Role::Moderator);
    s.process_cmd(
        Cmd::AddGroupMember { group_id: gid, user_id: "abcdefghijklmnop.onion".into(), name: "X".into(), role: String::new() },
        3,
        2,
    );
    assert_eq!(s.groups[0].members.len(), 2);
}

#[test]
fn send_group_fans_out_to_the_others() {
    let mut s = AppState::new(true, 0);
    s.process_cmd(Cmd::CreateGroup { name: "crew".into(), desc: String::new() }, 1, 5);
    let gid = uuid_text(5);
    for peer in ["p1.onion", "p2.onion"] {
        s.process_cmd(
            Cmd::AddGroupMember { group_id: gid.clone(), user_id: peer.into(), name: "P".into(), role: String::new() },
            1,
            2,
        );
    }
    let (ev, actions) = s.process_cmd(Cmd::SendGroup { group_id: gid.clone(), body: " yo ".into() }, 8, 99);
    assert!(matches!(ev[0], Event::State));
    assert_eq!(s.groups[0].messages.len(), 1);
    assert_eq!(s.groups[0].messages[0].body, "yo");
    assert_eq!(s.groups[0].messages[0].id, 99);
    let peers: Vec<String> = actions
        .iter()
        .map(|a| match a {
            Action::Send { peer, wire, .. } => {
                assert_eq!(wire.target_id, gid);
                assert!(matches!(&wire.kind, WireKind::GroupMessage { group_id } if *group_id == gid));
                peer.clone()
            }
        })
        .collect();
    assert_eq!(peers, vec!["p1.onion".to_string(), "p2.onion".to_string()]);
    let me = s.my_user_id.clone();
    s.process_cmd(Cmd::Mute { context_id: gid.clone(), user_id: me, is_server: false }, 1, 2);
    let (ev, actions) = s.process_cmd(Cmd::SendGroup { group_id: gid, body: "x".into() }, 8, 100);
    assert_eq!(error_of(&ev).as_deref(), Some("You are muted in this group."));
    assert!(actions.is_empty());
}

#[test]
fn send_channel_checks_the_channel() {
    let mut s = AppState::new(true, 0);
    let sid = uuid_text(NULLSEC_SERVER_ID);
    let (ev, _) = s.process_cmd(
        Cmd::SendChannel { server_id: "nope".into(), channel_id: uuid_text(NULLSEC_CH_CHAT), body: "x".into() },
        1,
        2,
    );
    assert_eq!(error_of(&ev).as_deref(), Some("Invalid IDs."));
    let (ev, actions) = s.process_cmd(
        Cmd::SendChannel { server_id: sid.clone(), channel_id: uuid_text(NULLSEC_CH_CHAT), body: " hello ".into() },
        4,
        7,
    );
    assert!(matches!(ev[0], Event::State));
    assert!(actions.is_empty());
    assert_eq!(s.servers[0].channels[1].messages[0].body, "hello");
    // A plain member cannot post in the announcements channel.
    s.servers[0].members[0].role = Role::Member;
    let (ev, _) = s.process_cmd(
        Cmd::SendChannel { server_id: sid, channel_id: uuid_text(NULLSEC_CH_ANN), body: "x".into() },
        4,
        8,
    );
    assert_eq!(error_of(&ev).as_deref(), Some("You cannot send messages in this channel."));
}

#[test]
fn setup_and_unlock_checks() {
    assert!(matches!(check_setup(&" ".into(), &"long enough pass".into()),
        Err(Event::Error { msg }) if msg == "Enter a display name."));
    assert!(matches!(check_setup(&"Ada".into(), &" short ".into()),
        Err(Event::Error { msg }) if msg == "Passphrase must be \u{2265}12 characters."));
    let (n, p) = match check_setup(&" Ada ".into(), &" twelve chars ".into()) {
        Ok(x) => x,
        Err(_) => panic!("setup refused"),
    };
    assert_eq!((n.as_str(), p.as_str()), ("Ada", "twelve chars"));
    assert!(matches!(check_unlock(&"  ".into()), Err(Event::Error { msg }) if msg == "Enter your passphrase."));
    assert!(matches!(check_unlock(&" pw ".into()), Ok(p) if p == "pw"));
}

#[test]
fn vault_opened_enters_main() {
    let mut s = AppState::new(true, 0);
    let ev = s.vault_opened(Some("Ada".into()), VaultOutcome::Refused);
    assert_eq!(error_of(&ev).as_deref(), Some("Vault error: incorrect passphrase or corrupted vault"));
    assert_eq!(s.phase, Phase::Setup);
    let ev = s.vault_opened(None, VaultOutcome::Refused);
    assert_eq!(error_of(&ev).as_deref(), Some("Incorrect passphrase."));
    let ev = s.vault_opened(None, VaultOutcome::Failed("disk".into()));
    assert_eq!(error_of(&ev).as_deref(), Some("Vault error: disk"));
    let ev = s.vault_opened(Some("Ada".into()), VaultOutcome::Opened);
    assert!(matches!(&ev[0], Event::Phase { phase } if phase == "main"));
    assert!(matches!(ev[1], Event::State));
    assert_eq!(s.phase, Phase::Main);
    assert_eq!(s.my_name, "Ada");
    assert_eq!(s.servers[0].members[0].display_name, "Ada");
}

#[test]
fn tor_outcomes() {
    let mut s = AppState::new(true, 0);
    let me = s.my_user_id.clone();
    let ev = s.tor_started(TorOutcome::SystemTor);
    assert!(matches!(&ev[0], Event::Tor { status, onion: Some(o) } if status == "Tor Connected" && *o == me));
    assert_eq!(s.tor_status, P2PStatus::TorReady { onion: format!("{}...@tor", &me[..10]) });
    assert_eq!(s.tor_socks.as_deref(), Some("127.0.0.1:9050"));
    let ev = s.tor_started(TorOutcome::HiddenService("x.onion".into()));
    assert!(matches!(&ev[0], Event::Tor { status, onion: Some(o) } if status == "Tor Ready" && o == "x.onion"));
    assert_eq!(s.my_user_id, "x.onion");
    assert_eq!(s.servers[0].owner_id, "x.onion");
    assert_eq!(s.servers[0].members[0].user_id, "x.onion");
    assert_eq!(s.tor_socks.as_deref(), Some("127.0.0.1:9150"));
    let ev = s.tor_started(TorOutcome::Failed("no tor".into()));
    assert!(matches!(&ev[0], Event::Tor { status, onion: None } if status == "Tor unavailable: no tor"));
    assert_eq!(s.tor_status, P2PStatus::Error("no tor".into()));
}

#[test]
fn snapshot_names_every_message() {
    let mut s = AppState::new(true, 0);
    s.process_cmd(Cmd::SaveProfile { name: "Ada".into(), nick: "ada".into(), bio: String::new() }, 1, 2);
    s.process_cmd(Cmd::AddFriend { user_id: "b.onion".into(), name: "Bob".into() }, 1, 10);
    s.process_cmd(Cmd::SendDm { friend_id: uuid_text(10), body: "hi".into() }, 2, 11);
    s.handle_incoming(
        null_chat::model::WireMessage {
            kind: WireKind::DirectMessage,
            from_id: "b.onion".into(),
            from_name: "Bobby".into(),
            target_id: String::new(),
            body: "yo".into(),
            timestamp: 3,
        },
        3,
        12,
        13,
    );
    s.process_cmd(
        Cmd::SendChannel { server_id: uuid_text(NULLSEC_SERVER_ID), channel_id: uuid_text(NULLSEC_CH_CHAT), body: "all".into() },
        4,
        14,
    );
    let snap = s.snapshot();
    assert_eq!(snap.my_name, "Ada");
    assert_eq!(snap.my_nick.as_deref(), Some("ada"));
    assert_eq!(snap.my_status, "Online");
    assert_eq!(snap.tor_status, "Offline");
    assert_eq!(snap.friends.len(), 1);
    assert_eq!(snap.friends[0].display_name, "Bob");
    let dms = &snap.conversations[0].messages;
    assert_eq!(dms.len(), 2);
    assert_eq!((dms[0].from_name.as_str(), dms[0].outgoing), ("ada", true));
    assert_eq!((dms[1].from_name.as_str(), dms[1].outgoing), ("Bob", false));
    let chat = &snap.servers[0].channels[1];
    assert_eq!(chat.ch_type, "Public");
    assert_eq!(snap.servers[0].channels[0].ch_type, "Announcement");
    assert!(chat.messages[0].outgoing);
    assert_eq!(chat.messages[0].from_name, "ada");
    assert_eq!(snap.servers[0].members[0].role, "Owner");
    assert_eq!(snap.unread.len(), 1);
    assert_eq!(snap.unread[0].count, 1);
}

#[test]
fn snapshot_of_a_stranger_conversation() {
    let mut s = AppState::new(true, 0);
    s.process_cmd(Cmd::SendDm { friend_id: uuid_text(7), body: "anyone?".into() }, 2, 11);
    s.conversations[0].messages[0].outgoing = false;
    let snap = s.snapshot();
    assert_eq!(snap.conversations[0].messages[0].from_name, "Unknown");
}

#[test]
fn joining_twice_is_joining_once() {
    let mut s = AppState::new(true, 0);
    s.servers[0].members.clear();
    s.process_cmd(Cmd::JoinServer { code: NULLSEC_CODE.into() }, 1, 2);
    s.process_cmd(Cmd::JoinServer { code: NULLSEC_CODE.into() }, 5, 2);
    assert_eq!(s.servers[0].members.len(), 1);
    assert_eq!(s.servers[0].members[0].joined_at, 1);
}

#[test]
fn ban_then_unban_leaves_no_member_and_no_ban() {
    let mut s = AppState::new(true, 0);
    let sid = uuid_text(NULLSEC_SERVER_ID);
    s.servers[0].members.push(null_chat::backend::state::Member {
        user_id: "b.onion".into(),
        display_name: "B".into(),
        role: Role::Member,
        muted: false,
        banned: false,
        joined_at: 0,
    });
    s.process_cmd(Cmd::Ban { context_id: sid.clone(), user_id: "b.onion".into(), is_server: true }, 1, 2);
    s.process_cmd(Cmd::Unban { context_id: sid, user_id: "b.onion".into() }, 1, 2);
    assert!(s.servers[0].members.iter().all(|m| m.user_id != "b.onion"));
    assert!(s.servers[0].banned_ids.is_empty());
}

#[test]
fn a_refused_command_changes_nothing() {
    let mut s = AppState::new(true, 0);
    let (ev, actions) = s.process_cmd(Cmd::CreateGroup { name: "  ".into(), desc: "d".into() }, 1, 2);
    assert!(matches!(ev[0], Event::Error { .. }));
    assert!(actions.is_empty());
    assert!(s.groups.is_empty());
    let (ev, actions) = s.process_cmd(Cmd::JoinServer { code: "nope".into() }, 1, 2);
    assert!(matches!(ev[0], Event::Error { .. }));
    assert!(actions.is_empty());
    assert_eq!(s.servers[0].members.len(), 1);
}

#[test]
fn command_checks() {
    assert!(Cmd::Kick { context_id: String::new(), user_id: "short".into(), is_server: true }.is_ok());
    assert!(!Cmd::Ban { context_id: String::new(), user_id: "a\u{e9}\u{e9}\u{e9}\u{e9}\u{e9}\u{e9}".into(), is_server: true }.is_ok());
    assert!(Cmd::GetState.is_ok());
}
