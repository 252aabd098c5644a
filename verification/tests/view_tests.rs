use null_chat::ui::command_center::{CommandCenter, MessageEntry, RoomEntry, TorCircuitDisplay, UiMessage};
use null_chat::ui::view_model::{
    fingerprint_prefix, room_button_label, room_label_tone, room_lock_tag, sender_tone,
    tor_indicator, verified_tag, workspace_indicator, Tone,
};

fn room(label: &str, unread: u32, is_encrypted: bool) -> RoomEntry {
    RoomEntry { id: label.to_string(), label: label.to_string(), unread, is_encrypted }
}

fn message(sender_id: &str, is_verified: bool) -> MessageEntry {
    MessageEntry {
        sender_id: sender_id.to_string(),
        sender_fingerprint: "0123456789abcdef".to_string(),
        body: "hi".to_string(),
        timestamp_utc: "00:00:00".to_string(),
        is_verified,
    }
}

#[test]
fn tor_indicator_each_state() {
    let ready = tor_indicator(&TorCircuitDisplay::Ready);
    assert_eq!((ready.glyph, ready.label, ready.tone), ("\u{25cf}", "CIRCUIT READY", Tone::Secure));
    let building = tor_indicator(&TorCircuitDisplay::Building);
    assert_eq!(
        (building.glyph, building.label, building.tone),
        ("\u{25d1}", "BUILDING CIRCUIT", Tone::Pending)
    );
    let init = tor_indicator(&TorCircuitDisplay::Initializing);
    assert_eq!((init.glyph, init.label, init.tone), ("\u{25cb}", "TOR INITIALIZING", Tone::Dim));
    let failed = tor_indicator(&TorCircuitDisplay::Failed);
    assert_eq!(
        (failed.glyph, failed.label, failed.tone),
        ("\u{2717}", "CIRCUIT FAILED", Tone::Insecure)
    );
}

#[test]
fn workspace_indicator_marks() {
    let on = workspace_indicator(true);
    assert_eq!((on.text, on.tone), ("\u{25cf} ", Tone::Secure));
    let off = workspace_indicator(false);
    assert_eq!((off.text, off.tone), ("\u{25cb} ", Tone::Dim));
}

#[test]
fn room_labels() {
    assert_eq!(room_button_label(&room("null-main", 0, true)), "# null-main");
    assert_eq!(room_button_label(&room("null-ops", 12, true)), "\u{25b8} null-ops  [12]");
    assert_eq!(room_label_tone(&room("a", 0, true)), Tone::Primary);
    assert_eq!(room_label_tone(&room("a", 1, true)), Tone::Bright);
}

#[test]
fn room_lock_tags() {
    let e = room_lock_tag(&room("a", 0, true));
    assert_eq!((e.text, e.tone), ("[E]", Tone::Secure));
    let u = room_lock_tag(&room("a", 0, false));
    assert_eq!((u.text, u.tone), ("[!]", Tone::Pending));
}

#[test]
fn message_markers() {
    assert_eq!(sender_tone(&message("local", true)), Tone::Secure);
    assert_eq!(sender_tone(&message("peer", true)), Tone::Primary);
    let v = verified_tag(&message("peer", true));
    assert_eq!((v.text, v.tone), ("[\u{2713}]", Tone::Secure));
    let q = verified_tag(&message("peer", false));
    assert_eq!((q.text, q.tone), ("[?]", Tone::Pending));
}

#[test]
fn fingerprint_prefixes() {
    assert_eq!(fingerprint_prefix("0123456789abcdef"), "01234567");
    assert_eq!(fingerprint_prefix("abc"), "abc");
    assert_eq!(fingerprint_prefix(""), "");
}

#[test]
fn column_headers_follow_selection() {
    let mut cc = CommandCenter::new();
    assert_eq!(cc.room_column_header(), "NULL NETWORK");
    cc.update(UiMessage::WorkspaceSelected(2));
    assert_eq!(cc.room_column_header(), "MATRIX");
    cc.update(UiMessage::WorkspaceSelected(7));
    assert_eq!(cc.room_column_header(), "UNKNOWN");
    assert_eq!(cc.channel_label(), "  SELECT A CHANNEL");
    assert!(cc.security_badge().is_none());
    assert_eq!(cc.compose_placeholder(), "select a channel to begin...");
    cc.update(UiMessage::RoomSelected(1));
    assert_eq!(cc.channel_label(), "  #  null-ops");
    let badge = cc.security_badge().unwrap();
    assert_eq!((badge.text, badge.tone), ("  E2E SECURE  ", Tone::Secure));
    assert_eq!(cc.compose_placeholder(), "compose encrypted message...");
    cc.update(UiMessage::RoomSelected(9));
    assert_eq!(cc.channel_label(), "  SELECT A CHANNEL");
    assert!(cc.security_badge().is_none());
    assert_eq!(cc.compose_placeholder(), "compose encrypted message...");
}

#[test]
fn active_rows() {
    let mut cc = CommandCenter::new();
    assert!(cc.is_workspace_active(0));
    assert!(!cc.is_workspace_active(1));
    assert!(!cc.is_room_active(0));
    cc.update(UiMessage::RoomSelected(0));
    assert!(cc.is_room_active(0));
    assert!(!cc.is_room_active(1));
}

#[test]
fn fingerprint_cuts_of_the_panels() {
    let cc = CommandCenter::new();
    let fp = cc.local_fingerprint().to_string();
    assert_eq!(cc.status_fingerprint(), format!("{}...{}", &fp[..8], &fp[56..]));
    assert_eq!(cc.panel_fingerprint(), format!("{}...", &fp[..12]));
}
