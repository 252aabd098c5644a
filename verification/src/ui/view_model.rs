//! What the command center's panels show: the texts, markers and colour
//! roles chosen from its state. Drawing them is left to the toolkit.
use vstd::prelude::*;

use crate::network::tor_manager::{decimal, push_decimal};
use crate::model::ellipsis;
use crate::text::{lemma_ascii_cut, lemma_lower_hex_ascii, string_push};
use crate::ui::command_center::{
    truncate_fingerprint, truncate_fingerprint_short, CommandCenter, MessageEntry, RoomEntry,
    TorCircuitDisplay,
};

verus! {

/// The colour role of a piece of text; the theme gives each role a colour.
#[derive(Debug, Clone, Copy, PartialEq, Eq, Structural)]
pub enum Tone {
    Dim,
    Primary,
    Bright,
    Secure,
    Pending,
    Insecure,
}

/// A short marker and its colour role.
#[derive(Debug, Clone, Copy)]
pub struct Tag {
    pub text: &'static str,
    pub tone: Tone,
}

/// The Tor indicator of the status bar: a glyph, a label and their colour
/// role.
#[derive(Debug, Clone, Copy)]
pub struct TorIndicator {
    pub glyph: &'static str,
    pub label: &'static str,
    pub tone: Tone,
}

/// The status bar's Tor indicator for each circuit state.
pub fn tor_indicator(state: &TorCircuitDisplay) -> (res: TorIndicator)
    ensures
        match *state {
            TorCircuitDisplay::Ready => res.glyph@ == "\u{25cf}"@ && res.label@ == "CIRCUIT READY"@
                && res.tone == Tone::Secure,
            TorCircuitDisplay::Building => res.glyph@ == "\u{25d1}"@ && res.label@ == "BUILDING CIRCUIT"@
                && res.tone == Tone::Pending,
            TorCircuitDisplay::Initializing => res.glyph@ == "\u{25cb}"@ && res.label@
                == "TOR INITIALIZING"@ && res.tone == Tone::Dim,
            TorCircuitDisplay::Failed => res.glyph@ == "\u{2717}"@ && res.label@ == "CIRCUIT FAILED"@
                && res.tone == Tone::Insecure,
        },
{
    match state {
        TorCircuitDisplay::Ready => TorIndicator { glyph: "\u{25cf}", label: "CIRCUIT READY", tone: Tone::Secure },
        TorCircuitDisplay::Building => TorIndicator {
            glyph: "\u{25d1}",
            label: "BUILDING CIRCUIT",
            tone: Tone::Pending,
        },
        TorCircuitDisplay::Initializing => TorIndicator {
            glyph: "\u{25cb}",
            label: "TOR INITIALIZING",
            tone: Tone::Dim,
        },
        TorCircuitDisplay::Failed => TorIndicator {
            glyph: "\u{2717}",
            label: "CIRCUIT FAILED",
            tone: Tone::Insecure,
        },
    }
}

/// The marker in front of a network: filled when connected.
pub fn workspace_indicator(connected: bool) -> (res: Tag)
    ensures
        connected ==> res.text@ == "\u{25cf} "@ && res.tone == Tone::Secure,
        !connected ==> res.text@ == "\u{25cb} "@ && res.tone == Tone::Dim,
{
    if connected {
        Tag { text: "\u{25cf} ", tone: Tone::Secure }
    } else {
        Tag { text: "\u{25cb} ", tone: Tone::Dim }
    }
}

/// The text of a room's button: `# name`, or `▸ name  [n]` with `n` unread
/// messages.
pub open spec fn room_label_spec(label: Seq<char>, unread: u32) -> Seq<char> {
    if unread > 0 {
        seq!['\u{25b8}', ' '] + label + seq![' ', ' ', '['] + decimal(unread as nat) + seq![']']
    } else {
        seq!['#', ' '] + label
    }
}

/// The text of a room's button.
pub fn room_button_label(room: &RoomEntry) -> (res: String)
    ensures
        res@ == room_label_spec(room.label@, room.unread),
{
    let mut s = String::new();
    if room.unread > 0 {
        string_push(&mut s, '\u{25b8}');
        string_push(&mut s, ' ');
        s.append(room.label.as_str());
        string_push(&mut s, ' ');
        string_push(&mut s, ' ');
        string_push(&mut s, '[');
        push_decimal(&mut s, room.unread as u64);
        string_push(&mut s, ']');
    } else {
        string_push(&mut s, '#');
        string_push(&mut s, ' ');
        s.append(room.label.as_str());
    }
    assert(s@ =~= room_label_spec(room.label@, room.unread));
    s
}

/// The colour role of a room's button text: bright with unread messages.
pub fn room_label_tone(room: &RoomEntry) -> (res: Tone)
    ensures
        res == if room.unread > 0 { Tone::Bright } else { Tone::Primary },
{
    if room.unread > 0 {
        Tone::Bright
    } else {
        Tone::Primary
    }
}

/// The lock marker of a room: `[E]` when encrypted, else `[!]`.
pub fn room_lock_tag(room: &RoomEntry) -> (res: Tag)
    ensures
        room.is_encrypted ==> res.text@ == "[E]"@ && res.tone == Tone::Secure,
        !room.is_encrypted ==> res.text@ == "[!]"@ && res.tone == Tone::Pending,
{
    if room.is_encrypted {
        Tag { text: "[E]", tone: Tone::Secure }
    } else {
        Tag { text: "[!]", tone: Tone::Pending }
    }
}

/// The colour role of a message's sender: the local user's own messages
/// stand out.
pub fn sender_tone(message: &MessageEntry) -> (res: Tone)
    ensures
        res == if message.sender_id@ == "local"@ { Tone::Secure } else { Tone::Primary },
{
    let local = "local".to_owned();
    if message.sender_id == local {
        Tone::Secure
    } else {
        Tone::Primary
    }
}

/// The marker of a message: `[✓]` when verified, else `[?]`.
pub fn verified_tag(message: &MessageEntry) -> (res: Tag)
    ensures
        message.is_verified ==> res.text@ == "[\u{2713}]"@ && res.tone == Tone::Secure,
        !message.is_verified ==> res.text@ == "[?]"@ && res.tone == Tone::Pending,
{
    if message.is_verified {
        Tag { text: "[\u{2713}]", tone: Tone::Secure }
    } else {
        Tag { text: "[?]", tone: Tone::Pending }
    }
}

/// The sender column of a message: the first eight bytes of the sender's
/// fingerprint, or all of it when shorter.
pub fn fingerprint_prefix(fp: &str) -> (res: &str)
    requires
        vstd::utf8::is_char_boundary(
            vstd::utf8::encode_utf8(fp@),
            if fp.len() < 8 { fp.len() as int } else { 8 },
        ),
    ensures
        res@ == vstd::utf8::decode_utf8(
            vstd::utf8::encode_utf8(fp@).subrange(0, if fp.len() < 8 { fp.len() as int } else { 8 }),
        ),
{
    let n: usize = if fp.len() < 8 { fp.len() } else { 8 };
    let (head, _rest) = fp.split_at(n);
    proof {
        vstd::utf8::encode_utf8_decode_utf8(head@);
    }
    head
}

impl CommandCenter {
    /// The header of the room column: the selected network's label, or
    /// `UNKNOWN` when the selection is out of range.
    pub fn room_column_header(&self) -> (res: &str)
        ensures
            res@ == if self@.selected_workspace < self@.workspaces.len() {
                self@.workspaces[self@.selected_workspace as int].label@
            } else {
                "UNKNOWN"@
            },
    {
        let i = self.selected_workspace();
        let ws = self.workspaces();
        if i < ws.len() {
            ws[i].label.as_str()
        } else {
            "UNKNOWN"
        }
    }

    /// The selected room, when the selection is in range.
    pub open spec fn shown_room(&self) -> Option<RoomEntry> {
        match self@.selected_room {
            Some(i) => if i < self@.rooms.len() {
                Some(self@.rooms[i as int])
            } else {
                None
            },
            None => None,
        }
    }

    fn room_shown(&self) -> (res: Option<&RoomEntry>)
        ensures
            match self.shown_room() {
                Some(r) => res matches Some(x) && *x == r,
                None => res is None,
            },
    {
        let rooms = self.rooms();
        match self.selected_room() {
            Some(i) => if i < rooms.len() {
                Some(&rooms[i])
            } else {
                None
            },
            None => None,
        }
    }

    /// The header of the message column: `  #  ` and the shown room's label,
    /// or `  SELECT A CHANNEL`.
    pub fn channel_label(&self) -> (res: String)
        ensures
            res@ == match self.shown_room() {
                Some(r) => seq![' ', ' ', '#', ' ', ' '] + r.label@,
                None => "  SELECT A CHANNEL"@,
            },
    {
        match self.room_shown() {
            Some(r) => {
                let mut s = String::new();
                string_push(&mut s, ' ');
                string_push(&mut s, ' ');
                string_push(&mut s, '#');
                string_push(&mut s, ' ');
                string_push(&mut s, ' ');
                s.append(r.label.as_str());
                assert(s@ =~= seq![' ', ' ', '#', ' ', ' '] + r.label@);
                s
            },
            None => "  SELECT A CHANNEL".to_owned(),
        }
    }

    /// The security badge of the message column: none without a shown room.
    pub fn security_badge(&self) -> (res: Option<Tag>)
        ensures
            match self.shown_room() {
                Some(r) => res matches Some(t) && if r.is_encrypted {
                    t.text@ == "  E2E SECURE  "@ && t.tone == Tone::Secure
                } else {
                    t.text@ == "  UNENCRYPTED  "@ && t.tone == Tone::Pending
                },
                None => res is None,
            },
    {
        match self.room_shown() {
            Some(r) => if r.is_encrypted {
                Some(Tag { text: "  E2E SECURE  ", tone: Tone::Secure })
            } else {
                Some(Tag { text: "  UNENCRYPTED  ", tone: Tone::Pending })
            },
            None => None,
        }
    }

    /// The placeholder of the compose field: it asks for a channel until a
    /// room is selected.
    pub fn compose_placeholder(&self) -> (res: &'static str)
        ensures
            res@ == if self@.selected_room is Some {
                "compose encrypted message..."@
            } else {
                "select a channel to begin..."@
            },
    {
        match self.selected_room() {
            Some(_) => "compose encrypted message...",
            None => "select a channel to begin...",
        }
    }

    /// The fingerprint in the status bar: its first and last eight digits
    /// around `...`.
    pub fn status_fingerprint(&self) -> (res: String)
        requires
            self.wf(),
        ensures
            res@ == self@.local_fingerprint.subrange(0, 8) + ellipsis() + self@.local_fingerprint.subrange(
                56,
                64,
            ),
    {
        let fp = self.local_fingerprint();
        proof {
            lemma_lower_hex_ascii(fp@);
            lemma_ascii_cut(fp@, 8);
            lemma_ascii_cut(fp@, 56);
        }
        truncate_fingerprint(fp)
    }

    /// The fingerprint in the identity panel: its first twelve digits and
    /// `...`.
    pub fn panel_fingerprint(&self) -> (res: String)
        requires
            self.wf(),
        ensures
            res@ == self@.local_fingerprint.subrange(0, 12) + ellipsis(),
    {
        let fp = self.local_fingerprint();
        proof {
            lemma_lower_hex_ascii(fp@);
            lemma_ascii_cut(fp@, 12);
        }
        truncate_fingerprint_short(fp)
    }

    /// Whether network `i` is the selected one.
    pub fn is_workspace_active(&self, i: usize) -> (res: bool)
        ensures
            res == (self@.selected_workspace == i),
    {
        self.selected_workspace() == i
    }

    /// Whether room `i` is the selected one.
    pub fn is_room_active(&self, i: usize) -> (res: bool)
        ensures
            res == (self@.selected_room == Some(i)),
    {
        match self.selected_room() {
            Some(j) => j == i,
            None => false,
        }
    }
}

} // verus!
