//! The state of the command center (vault unlock screen, workspaces, rooms,
//! messages and the Tor indicator) and how each user action changes it.
use vstd::prelude::*;

use crate::crypto::identity::{fingerprint_of, LocalIdentity};
use crate::model::{ellipsis, now_unix, push_ellipsis};
use crate::text::{
    hex_lower, is_lower_hex_text, push_two_digits, str_trim, string_push, trim_spec, two_digits,
};

verus! {

/// The Tor indicator of the status bar.
#[derive(Debug, Clone, PartialEq, Eq)]
pub enum TorCircuitDisplay {
    Initializing,
    Building,
    Ready,
    Failed,
}

impl Default for TorCircuitDisplay {
    fn default() -> (res: Self)
        ensures
            res is Initializing,
    {
        TorCircuitDisplay::Initializing
    }
}

/// A user action.
#[derive(Debug, Clone)]
pub enum UiMessage {
    PassphraseChanged(String),
    UnlockVault,
    WorkspaceSelected(usize),
    RoomSelected(usize),
    MessageInputChanged(String),
    MessageSendRequested,
    TorStateChanged(TorCircuitDisplay),
    ConnectAccount(String),
    DisconnectAccount(String),
    SafetyNumberVerified(String),
}

#[derive(Debug)]
enum AppPhase {
    VaultUnlock,
    MainInterface,
}

/// A network in the left column.
#[derive(Debug, Clone)]
pub struct WorkspaceEntry {
    pub id: String,
    pub label: String,
    pub protocol: String,
    pub connected: bool,
}

/// A room in the middle column.
#[derive(Debug, Clone)]
pub struct RoomEntry {
    pub id: String,
    pub label: String,
    pub unread: u32,
    pub is_encrypted: bool,
}

/// A message in the right column.
#[derive(Debug, Clone)]
pub struct MessageEntry {
    pub sender_id: String,
    pub sender_fingerprint: String,
    pub body: String,
    pub timestamp_utc: String,
    pub is_verified: bool,
}

/// The command center's state.
#[derive(Debug)]
pub struct CommandCenter {
    phase: AppPhase,
    passphrase: String,
    unlock_error: Option<String>,
    selected_workspace: usize,
    selected_room: Option<usize>,
    message_input: String,
    workspaces: Vec<WorkspaceEntry>,
    rooms: Vec<RoomEntry>,
    messages: Vec<MessageEntry>,
    tor_state: TorCircuitDisplay,
    local_fingerprint: String,
}

/// The command center's state, as values.
#[verifier::ext_equal]
pub struct CommandCenterView {
    pub main_interface: bool,
    pub passphrase: Seq<char>,
    pub unlock_error: Option<Seq<char>>,
    pub selected_workspace: usize,
    pub selected_room: Option<usize>,
    pub message_input: Seq<char>,
    pub workspaces: Seq<WorkspaceEntry>,
    pub rooms: Seq<RoomEntry>,
    pub messages: Seq<MessageEntry>,
    pub tor_state: TorCircuitDisplay,
    pub local_fingerprint: Seq<char>,
}

impl View for CommandCenter {
    type V = CommandCenterView;

    closed spec fn view(&self) -> CommandCenterView {
        CommandCenterView {
            main_interface: self.phase is MainInterface,
            passphrase: self.passphrase@,
            unlock_error: match self.unlock_error {
                Some(e) => Some(e@),
                None => None,
            },
            selected_workspace: self.selected_workspace,
            selected_room: self.selected_room,
            message_input: self.message_input@,
            workspaces: self.workspaces@,
            rooms: self.rooms@,
            messages: self.messages@,
            tor_state: self.tor_state,
            local_fingerprint: self.local_fingerprint@,
        }
    }
}

/// The length in bytes (UTF-8) of a text.
pub open spec fn byte_len(s: Seq<char>) -> usize {
    vstd::utf8::encode_utf8(s).len() as usize
}

/// The message shown for a passphrase under 8 bytes.
pub open spec fn short_passphrase_error() -> Seq<char> {
    "PASSPHRASE TOO SHORT  //  MINIMUM 8 CHARACTERS"@
}

/// `HH:MM:SS` of a Unix time.
pub open spec fn hms_spec(secs: u64) -> Seq<char> {
    two_digits(((secs / 3600) % 24) as u64) + seq![':'] + two_digits(((secs / 60) % 60) as u64) + seq![':']
        + two_digits((secs % 60) as u64)
}

/// The networks that the command center starts with.
pub open spec fn initial_workspaces(ws: Seq<WorkspaceEntry>) -> bool {
    &&& ws.len() == 3
    &&& ws[0].id@ == "ncp-sovereign"@ && ws[0].label@ == "NULL NETWORK"@ && ws[0].protocol@ == "NCP v1"@
    &&& ws[1].id@ == "discord-gateway"@ && ws[1].label@ == "DISCORD"@ && ws[1].protocol@ == "GATEWAY"@
    &&& ws[2].id@ == "matrix-homeserver"@ && ws[2].label@ == "MATRIX"@ && ws[2].protocol@ == "CS API"@
    &&& !ws[0].connected && !ws[1].connected && !ws[2].connected
}

/// The rooms that the command center starts with.
pub open spec fn initial_rooms(rooms: Seq<RoomEntry>) -> bool {
    &&& rooms.len() == 2
    &&& rooms[0].id@ == "null-main"@ && rooms[0].label@ == "null-main"@
    &&& rooms[1].id@ == "null-ops"@ && rooms[1].label@ == "null-ops"@
    &&& rooms[0].unread == 0 && rooms[1].unread == 0
    &&& rooms[0].is_encrypted && rooms[1].is_encrypted
}

/// The current time of day as `HH:MM:SS`.
pub fn utc_time_string() -> (res: String)
    ensures
        exists|secs: u64| res@ == #[trigger] hms_spec(secs),
{
    let secs = now_unix();
    let h = (secs / 3600) % 24;
    let m = (secs / 60) % 60;
    let s = secs % 60;
    let mut out = String::new();
    push_two_digits(&mut out, h);
    string_push(&mut out, ':');
    push_two_digits(&mut out, m);
    string_push(&mut out, ':');
    push_two_digits(&mut out, s);
    assert(out@ =~= hms_spec(secs));
    out
}

/// A fingerprint shortened for the status bar: from 16 bytes on, its first
/// and last 8 bytes around `...`.
pub fn truncate_fingerprint(fp: &str) -> (res: String)
    requires
        fp.len() >= 16 ==> vstd::utf8::is_char_boundary(vstd::utf8::encode_utf8(fp@), 8)
            && vstd::utf8::is_char_boundary(vstd::utf8::encode_utf8(fp@), fp.len() - 8),
    ensures
        res@ == if fp.len() >= 16 {
            vstd::utf8::decode_utf8(vstd::utf8::encode_utf8(fp@).subrange(0, 8)) + ellipsis()
                + vstd::utf8::decode_utf8(
                vstd::utf8::encode_utf8(fp@).subrange(fp.len() - 8, vstd::utf8::encode_utf8(fp@).len() as int),
            )
        } else {
            fp@
        },
{
    let n = fp.len();
    if n >= 16 {
        let (head, _rest) = fp.split_at(8);
        let (_front, tail) = fp.split_at(n - 8);
        proof {
            vstd::utf8::encode_utf8_decode_utf8(head@);
            vstd::utf8::encode_utf8_decode_utf8(tail@);
        }
        let mut res = head.to_owned();
        push_ellipsis(&mut res);
        res.append(tail);
        res
    } else {
        fp.to_owned()
    }
}

/// A fingerprint shortened for the identity panel: above 14 bytes, its
/// first 12 bytes and `...`.
pub fn truncate_fingerprint_short(fp: &str) -> (res: String)
    requires
        fp.len() > 14 ==> vstd::utf8::is_char_boundary(vstd::utf8::encode_utf8(fp@), 12),
    ensures
        res@ == if fp.len() > 14 {
            vstd::utf8::decode_utf8(vstd::utf8::encode_utf8(fp@).subrange(0, 12)) + ellipsis()
        } else {
            fp@
        },
{
    if fp.len() > 14 {
        let (head, _rest) = fp.split_at(12);
        proof {
            vstd::utf8::encode_utf8_decode_utf8(head@);
        }
        let mut res = head.to_owned();
        push_ellipsis(&mut res);
        res
    } else {
        fp.to_owned()
    }
}

fn workspace(id: &str, label: &str, protocol: &str) -> (res: WorkspaceEntry)
    ensures
        res.id@ == id@,
        res.label@ == label@,
        res.protocol@ == protocol@,
        !res.connected,
{
    WorkspaceEntry { id: id.to_owned(), label: label.to_owned(), protocol: protocol.to_owned(), connected: false }
}

fn room(id: &str) -> (res: RoomEntry)
    ensures
        res.id@ == id@,
        res.label@ == id@,
        res.unread == 0,
        res.is_encrypted,
{
    RoomEntry { id: id.to_owned(), label: id.to_owned(), unread: 0, is_encrypted: true }
}

impl CommandCenter {
    /// The local fingerprint is 64 lower-case hexadecimal digits.
    pub open spec fn wf(&self) -> bool {
        &&& self@.local_fingerprint.len() == 64
        &&& is_lower_hex_text(self@.local_fingerprint)
    }

    /// The command center at start: the vault unlock screen, a fresh
    /// identity's fingerprint, the three networks and the two rooms, no
    /// messages, Tor initializing.
    pub fn new() -> (res: Self)
        ensures
            res.wf(),
            !res@.main_interface,
            res@.passphrase.len() == 0,
            res@.unlock_error is None,
            res@.selected_workspace == 0,
            res@.selected_room is None,
            res@.message_input.len() == 0,
            initial_workspaces(res@.workspaces),
            initial_rooms(res@.rooms),
            res@.messages.len() == 0,
            res@.tor_state is Initializing,
            exists|secret: Seq<u8>|
                secret.len() == 32 && res@.local_fingerprint == hex_lower(#[trigger] fingerprint_of(secret)),
    {
        let identity = LocalIdentity::generate();
        let fingerprint = identity.fingerprint_hex();
        let mut workspaces: Vec<WorkspaceEntry> = Vec::new();
        workspaces.push(workspace("ncp-sovereign", "NULL NETWORK", "NCP v1"));
        workspaces.push(workspace("discord-gateway", "DISCORD", "GATEWAY"));
        workspaces.push(workspace("matrix-homeserver", "MATRIX", "CS API"));
        let mut rooms: Vec<RoomEntry> = Vec::new();
        rooms.push(room("null-main"));
        rooms.push(room("null-ops"));
        let state = CommandCenter {
            phase: AppPhase::VaultUnlock,
            passphrase: String::new(),
            unlock_error: None,
            selected_workspace: 0,
            selected_room: None,
            message_input: String::new(),
            local_fingerprint: fingerprint,
            workspaces,
            rooms,
            messages: Vec::new(),
            tor_state: TorCircuitDisplay::Initializing,
        };
        assert(fingerprint_of(identity.secret()) == identity.fingerprint());
        state
    }

    /// Applies a user action: a new passphrase clears the error; unlocking
    /// needs a passphrase of at least 8 bytes (else the error is shown),
    /// then enters the main interface and forgets the passphrase; selecting
    /// a workspace clears the room; sending appends the trimmed input as a
    /// local, verified message stamped with the time of day, unless it is
    /// empty; the Tor indicator follows its state; the other actions change
    /// nothing.
    pub fn update(&mut self, message: UiMessage)
        ensures
            old(self).wf() ==> final(self).wf(),
            match message {
                UiMessage::PassphraseChanged(p) => final(self)@ == CommandCenterView {
                    passphrase: p@,
                    unlock_error: None,
                    ..old(self)@
                },
                UiMessage::UnlockVault => if byte_len(old(self)@.passphrase) < 8 {
                    final(self)@ == CommandCenterView {
                        unlock_error: Some(short_passphrase_error()),
                        ..old(self)@
                    }
                } else {
                    final(self)@ == CommandCenterView {
                        main_interface: true,
                        passphrase: Seq::empty(),
                        unlock_error: None,
                        ..old(self)@
                    }
                },
                UiMessage::WorkspaceSelected(i) => final(self)@ == CommandCenterView {
                    selected_workspace: i,
                    selected_room: None,
                    ..old(self)@
                },
                UiMessage::RoomSelected(i) => final(self)@ == CommandCenterView {
                    selected_room: Some(i),
                    ..old(self)@
                },
                UiMessage::MessageInputChanged(s) => final(self)@ == CommandCenterView {
                    message_input: s@,
                    ..old(self)@
                },
                UiMessage::MessageSendRequested => if trim_spec(old(self)@.message_input).len() == 0 {
                    final(self)@ == old(self)@
                } else {
                    &&& final(self)@ == CommandCenterView {
                        message_input: Seq::empty(),
                        messages: final(self)@.messages,
                        ..old(self)@
                    }
                    &&& final(self)@.messages.len() == old(self)@.messages.len() + 1
                    &&& final(self)@.messages.subrange(0, old(self)@.messages.len() as int)
                        == old(self)@.messages
                    &&& ({
                        let e = final(self)@.messages.last();
                        &&& e.sender_id@ == "local"@
                        &&& e.sender_fingerprint@ == old(self)@.local_fingerprint
                        &&& e.body@ == trim_spec(old(self)@.message_input)
                        &&& e.is_verified
                        &&& exists|secs: u64| e.timestamp_utc@ == #[trigger] hms_spec(secs)
                    })
                },
                UiMessage::TorStateChanged(s) => final(self)@ == CommandCenterView {
                    tor_state: s,
                    ..old(self)@
                },
                _ => final(self)@ == old(self)@,
            },
    {
        match message {
            UiMessage::PassphraseChanged(p) => {
                self.passphrase = p;
                self.unlock_error = None;
            },
            UiMessage::UnlockVault => {
                if self.passphrase.as_str().len() < 8 {
                    self.unlock_error = Some("PASSPHRASE TOO SHORT  //  MINIMUM 8 CHARACTERS".to_owned());
                } else {
                    self.phase = AppPhase::MainInterface;
                    self.passphrase = String::new();
                    self.unlock_error = None;
                }
            },
            UiMessage::WorkspaceSelected(idx) => {
                self.selected_workspace = idx;
                self.selected_room = None;
            },
            UiMessage::RoomSelected(idx) => {
                self.selected_room = Some(idx);
            },
            UiMessage::MessageInputChanged(s) => {
                self.message_input = s;
            },
            UiMessage::MessageSendRequested => {
                let body = str_trim(self.message_input.as_str()).to_owned();
                if !body.as_str().is_empty() {
                    let fp = self.local_fingerprint.clone();
                    let ghost old_messages = self.messages@;
                    self.messages.push(
                        MessageEntry {
                            sender_id: "local".to_owned(),
                            sender_fingerprint: fp,
                            body,
                            timestamp_utc: utc_time_string(),
                            is_verified: true,
                        },
                    );
                    assert(self.messages@.subrange(0, old_messages.len() as int) =~= old_messages);
                    self.message_input = String::new();
                }
            },
            UiMessage::TorStateChanged(state) => {
                self.tor_state = state;
            },
            UiMessage::ConnectAccount(_) | UiMessage::DisconnectAccount(_) => {},
            UiMessage::SafetyNumberVerified(_) => {},
        }
    }

    /// The view's data: whether the main interface shows.
    pub fn in_main_interface(&self) -> (res: bool)
        ensures
            res == self@.main_interface,
    {
        match self.phase {
            AppPhase::MainInterface => true,
            AppPhase::VaultUnlock => false,
        }
    }

    /// The passphrase typed so far.
    pub fn passphrase(&self) -> (res: &str)
        ensures
            res@ == self@.passphrase,
    {
        self.passphrase.as_str()
    }

    /// The unlock error, if any.
    pub fn unlock_error(&self) -> (res: Option<&str>)
        ensures
            match res {
                Some(e) => self@.unlock_error == Some(e@),
                None => self@.unlock_error is None,
            },
    {
        match &self.unlock_error {
            Some(e) => Some(e.as_str()),
            None => None,
        }
    }

    /// The selected workspace.
    pub fn selected_workspace(&self) -> (res: usize)
        ensures
            res == self@.selected_workspace,
    {
        self.selected_workspace
    }

    /// The selected room, if any.
    pub fn selected_room(&self) -> (res: Option<usize>)
        ensures
            res == self@.selected_room,
    {
        self.selected_room
    }

    /// The message being typed.
    pub fn message_input(&self) -> (res: &str)
        ensures
            res@ == self@.message_input,
    {
        self.message_input.as_str()
    }

    /// The networks.
    pub fn workspaces(&self) -> (res: &Vec<WorkspaceEntry>)
        ensures
            res@ == self@.workspaces,
    {
        &self.workspaces
    }

    /// The rooms.
    pub fn rooms(&self) -> (res: &Vec<RoomEntry>)
        ensures
            res@ == self@.rooms,
    {
        &self.rooms
    }

    /// The messages.
    pub fn messages(&self) -> (res: &Vec<MessageEntry>)
        ensures
            res@ == self@.messages,
    {
        &self.messages
    }

    /// The Tor indicator.
    pub fn tor_state(&self) -> (res: &TorCircuitDisplay)
        ensures
            *res == self@.tor_state,
    {
        &self.tor_state
    }

    /// The local fingerprint in hexadecimal.
    pub fn local_fingerprint(&self) -> (res: &str)
        ensures
            res@ == self@.local_fingerprint,
    {
        self.local_fingerprint.as_str()
    }
}

} // verus!
