use null_chat::ui::command_center::{
    truncate_fingerprint, truncate_fingerprint_short, utc_time_string, CommandCenter,
    TorCircuitDisplay, UiMessage,
};

fn unlocked() -> CommandCenter {
    let mut cc = CommandCenter::new();
    cc.update(UiMessage::PassphraseChanged("long enough".to_string()));
    cc.update(UiMessage::UnlockVault);
    cc
}

#[test]
fn command_center_starts_locked() {
    let cc = CommandCenter::new();
    assert!(!cc.in_main_interface());
    assert_eq!(cc.passphrase(), "");
    assert_eq!(cc.unlock_error(), None);
    assert_eq!(cc.selected_workspace(), 0);
    assert_eq!(cc.selected_room(), None);
    assert_eq!(cc.message_input(), "");
    assert!(cc.messages().is_empty());
    assert_eq!(*cc.tor_state(), TorCircuitDisplay::Initializing);
    assert_eq!(cc.local_fingerprint().len(), 64);
}

#[test]
fn command_center_initial_workspaces_and_rooms() {
    let cc = CommandCenter::new();
    let ws: Vec<(&str, &str, &str)> = cc
        .workspaces()
        .iter()
        .map(|w| (w.id.as_str(), w.label.as_str(), w.protocol.as_str()))
        .collect();
    assert_eq!(
        ws,
        vec![
            ("ncp-sovereign", "NULL NETWORK", "NCP v1"),
            ("discord-gateway", "DISCORD", "GATEWAY"),
            ("matrix-homeserver", "MATRIX", "CS API"),
        ]
    );
    assert!(cc.workspaces().iter().all(|w| !w.connected));
    let rooms: Vec<&str> = cc.rooms().iter().map(|r| r.id.as_str()).collect();
    assert_eq!(rooms, vec!["null-main", "null-ops"]);
    assert!(cc.rooms().iter().all(|r| r.is_encrypted && r.unread == 0));
}

#[test]
fn unlock_with_short_passphrase_shows_error() {
    let mut cc = CommandCenter::new();
    cc.update(UiMessage::PassphraseChanged("short".to_string()));
    cc.update(UiMessage::UnlockVault);
    assert!(!cc.in_main_interface());
    assert_eq!(cc.unlock_error(), Some("PASSPHRASE TOO SHORT  //  MINIMUM 8 CHARACTERS"));
    assert_eq!(cc.passphrase(), "short");
}

#[test]
fn new_passphrase_clears_error() {
    let mut cc = CommandCenter::new();
    cc.update(UiMessage::UnlockVault);
    assert!(cc.unlock_error().is_some());
    cc.update(UiMessage::PassphraseChanged("x".to_string()));
    assert_eq!(cc.unlock_error(), None);
}

#[test]
fn unlock_counts_bytes() {
    let mut cc = CommandCenter::new();
    cc.update(UiMessage::PassphraseChanged("éééé".to_string()));
    cc.update(UiMessage::UnlockVault);
    assert!(cc.in_main_interface());
}

#[test]
fn unlock_with_exactly_eight_bytes() {
    let cc = {
        let mut cc = CommandCenter::new();
        cc.update(UiMessage::PassphraseChanged("12345678".to_string()));
        cc.update(UiMessage::UnlockVault);
        cc
    };
    assert!(cc.in_main_interface());
    assert_eq!(cc.passphrase(), "");
    assert_eq!(cc.unlock_error(), None);
}

#[test]
fn selecting_workspace_clears_room() {
    let mut cc = unlocked();
    cc.update(UiMessage::RoomSelected(1));
    assert_eq!(cc.selected_room(), Some(1));
    cc.update(UiMessage::WorkspaceSelected(2));
    assert_eq!(cc.selected_workspace(), 2);
    assert_eq!(cc.selected_room(), None);
}

#[test]
fn sending_appends_trimmed_message() {
    let mut cc = unlocked();
    cc.update(UiMessage::MessageInputChanged("  hello world \n".to_string()));
    assert_eq!(cc.message_input(), "  hello world \n");
    cc.update(UiMessage::MessageSendRequested);
    assert_eq!(cc.message_input(), "");
    assert_eq!(cc.messages().len(), 1);
    let m = &cc.messages()[0];
    assert_eq!(m.body, "hello world");
    assert_eq!(m.sender_id, "local");
    assert_eq!(m.sender_fingerprint, cc.local_fingerprint());
    assert!(m.is_verified);
    assert_eq!(m.timestamp_utc.len(), 8);
    assert_eq!(&m.timestamp_utc[2..3], ":");
    assert_eq!(&m.timestamp_utc[5..6], ":");
}

#[test]
fn sending_blank_input_does_nothing() {
    let mut cc = unlocked();
    cc.update(UiMessage::MessageInputChanged("   \t ".to_string()));
    cc.update(UiMessage::MessageSendRequested);
    assert!(cc.messages().is_empty());
    assert_eq!(cc.message_input(), "   \t ");
}

#[test]
fn tor_state_follows() {
    let mut cc = CommandCenter::new();
    cc.update(UiMessage::TorStateChanged(TorCircuitDisplay::Ready));
    assert_eq!(*cc.tor_state(), TorCircuitDisplay::Ready);
    cc.update(UiMessage::TorStateChanged(TorCircuitDisplay::Failed));
    assert_eq!(*cc.tor_state(), TorCircuitDisplay::Failed);
}

#[test]
fn account_actions_change_nothing() {
    let mut cc = unlocked();
    cc.update(UiMessage::ConnectAccount("discord-gateway".to_string()));
    cc.update(UiMessage::DisconnectAccount("discord-gateway".to_string()));
    cc.update(UiMessage::SafetyNumberVerified("abc".to_string()));
    assert!(cc.workspaces().iter().all(|w| !w.connected));
    assert!(cc.messages().is_empty());
}

#[test]
fn tor_display_default_is_initializing() {
    assert_eq!(TorCircuitDisplay::default(), TorCircuitDisplay::Initializing);
}

#[test]
fn utc_time_string_shape() {
    let t = utc_time_string();
    assert_eq!(t.len(), 8);
    let parts: Vec<u32> = t.split(':').map(|p| p.parse().unwrap()).collect();
    assert_eq!(parts.len(), 3);
    assert!(parts[0] < 24 && parts[1] < 60 && parts[2] < 60);
}

#[test]
fn truncate_fingerprint_examples() {
    assert_eq!(truncate_fingerprint("0123456789abcdef"), "01234567...89abcdef");
    assert_eq!(truncate_fingerprint("short"), "short");
    assert_eq!(
        truncate_fingerprint("a07ffc5e1799c00f3ac9fa7bbf1db75a25aaf4d0ac1e104f3f16a5445cd9c571"),
        "a07ffc5e...5cd9c571"
    );
}

#[test]
fn truncate_fingerprint_short_examples() {
    assert_eq!(truncate_fingerprint_short("0123456789abcd"), "0123456789abcd");
    assert_eq!(truncate_fingerprint_short("0123456789abcde"), "0123456789ab...");
}
