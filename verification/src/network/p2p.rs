//! Peer-to-peer links over Tor: the link's status, the framing of incoming
//! messages, and the order in which a link is tried (own hidden service,
//! then the system's Tor, then direct).
use vstd::prelude::*;

use crate::network::tor_manager::{decimal, host_port, host_port_spec, push_decimal};
use crate::text::{str_trim, trim_spec};

verus! {

/// The port that the hidden service listens on and forwards to locally.
pub const P2P_PORT: u16 = 17777;

/// The system Tor's SOCKS5 proxy.
pub const TOR_SOCKS_SYSTEM: &'static str = "127.0.0.1:9050";

/// The SOCKS5 proxy of the Tor instance started here.
pub const TOR_SOCKS_LOCAL: &'static str = "127.0.0.1:9150";

/// Incoming messages larger than this many bytes are dropped.
pub const MAX_INCOMING_BYTES: usize = 1_048_576;

/// The status of the peer-to-peer link.
#[derive(Debug, Clone, PartialEq)]
pub enum P2PStatus {
    Offline,
    TorConnecting,
    TorReady { onion: String },
    DirectMode,
    Error(String),
}

/// The label of a status.
pub open spec fn label_spec(s: P2PStatus) -> Seq<char> {
    match s {
        P2PStatus::Offline => "Offline"@,
        P2PStatus::TorConnecting => "Connecting to Tor..."@,
        P2PStatus::TorReady { .. } => "Tor Connected"@,
        P2PStatus::DirectMode => "Direct (no Tor)"@,
        P2PStatus::Error(_) => "Tor Error"@,
    }
}

impl P2PStatus {
    /// The status's label.
    pub fn label(&self) -> (res: &'static str)
        ensures
            res@ == label_spec(*self),
    {
        match self {
            P2PStatus::Offline => "Offline",
            P2PStatus::TorConnecting => "Connecting to Tor...",
            P2PStatus::TorReady { .. } => "Tor Connected",
            P2PStatus::DirectMode => "Direct (no Tor)",
            P2PStatus::Error(_) => "Tor Error",
        }
    }

    /// Whether messages can be sent: over Tor or directly.
    pub fn is_ready(&self) -> (res: bool)
        ensures
            res == (*self is TorReady || *self is DirectMode),
    {
        match self {
            P2PStatus::TorReady { .. } | P2PStatus::DirectMode => true,
            _ => false,
        }
    }
}

/// The target that a message to `peer_id` is sent to: `peer_id:17777`.
pub fn peer_target(peer_id: &str) -> (res: String)
    ensures
        res@ == host_port_spec(peer_id@, P2P_PORT),
{
    host_port(peer_id, P2P_PORT)
}

/// How many times the hidden service's hostname file is looked for.
pub const HOSTNAME_POLLS: u32 = 120;

/// The wait before each look, in milliseconds.
pub const HOSTNAME_POLL_MS: u64 = 500;

/// The configuration of the Tor instance started here: its data directory,
/// the hidden service's directory and port, SOCKS port 9150, control port
/// 9151, notices to stderr and no exits.
pub open spec fn torrc_spec(tor_dir: Seq<char>, hs_dir: Seq<char>) -> Seq<char> {
    "DataDirectory "@ + tor_dir + "\n"@ + "HiddenServiceDir "@ + hs_dir + "\n"@
        + "HiddenServicePort "@ + decimal(P2P_PORT as nat) + " 127.0.0.1:"@ + decimal(P2P_PORT as nat)
        + "\n"@ + "SocksPort 9150\n"@ + "ControlPort 9151\n"@ + "Log notice stderr\n"@
        + "ExitPolicy reject *:*\n"@
}

/// The text of the torrc file for the directories `tor_dir` and `hs_dir`.
pub fn torrc_text(tor_dir: &str, hs_dir: &str) -> (res: String)
    ensures
        res@ == torrc_spec(tor_dir@, hs_dir@),
{
    let mut s = String::new();
    s.append("DataDirectory ");
    s.append(tor_dir);
    s.append("\n");
    s.append("HiddenServiceDir ");
    s.append(hs_dir);
    s.append("\n");
    s.append("HiddenServicePort ");
    push_decimal(&mut s, P2P_PORT as u64);
    s.append(" 127.0.0.1:");
    push_decimal(&mut s, P2P_PORT as u64);
    s.append("\n");
    s.append("SocksPort 9150\n");
    s.append("ControlPort 9151\n");
    s.append("Log notice stderr\n");
    s.append("ExitPolicy reject *:*\n");
    assert(s@ =~= torrc_spec(tor_dir@, hs_dir@));
    s
}

/// The onion address that the hostname file's text holds: the text without
/// surrounding whitespace.
pub fn onion_from_hostname(text: &str) -> (res: String)
    ensures
        res@ == trim_spec(text@),
{
    str_trim(text).to_owned()
}

/// What the bytes received so far on a connection hold.
#[derive(Debug)]
pub enum LineFrame {
    /// A complete message: the bytes before the first newline.
    Complete(usize),
    /// No newline, and more bytes than a message may have.
    Overflow,
    /// No newline yet.
    Incomplete,
}

/// Reads the bytes received so far: a complete message ends at the first
/// newline; without one, more than `MAX_INCOMING_BYTES` bytes overflow.
pub fn frame_line(buf: &[u8]) -> (res: LineFrame)
    ensures
        match res {
            LineFrame::Complete(pos) => pos < buf@.len() && buf@[pos as int] == 10 && forall|j: int|
                0 <= j < pos ==> buf@[j] != 10,
            LineFrame::Overflow => (forall|j: int| 0 <= j < buf@.len() ==> buf@[j] != 10) && buf@.len()
                > MAX_INCOMING_BYTES,
            LineFrame::Incomplete => (forall|j: int| 0 <= j < buf@.len() ==> buf@[j] != 10) && buf@.len()
                <= MAX_INCOMING_BYTES,
        },
{
    let mut i: usize = 0;
    while i < buf.len()
        invariant
            i <= buf@.len(),
            forall|j: int| 0 <= j < i ==> buf@[j] != 10,
        decreases buf@.len() - i,
    {
        if buf[i] == 10 {
            return LineFrame::Complete(i);
        }
        i = i + 1;
    }
    if buf.len() > MAX_INCOMING_BYTES {
        LineFrame::Overflow
    } else {
        LineFrame::Incomplete
    }
}

/// Where the start of a peer-to-peer link stands.
#[derive(Debug)]
pub enum P2PInit {
    /// Start the own Tor instance with a hidden service.
    StartHiddenService,
    /// Start the listener behind the hidden service at `onion`.
    ListenBehindHiddenService { onion: String },
    /// Probe the system's Tor proxy.
    ProbeSystemTor,
    /// Start the listener for the system's Tor.
    ListenBehindSystemTor,
    /// Start the listener for direct connections.
    ListenDirect,
    /// Done: the link's status and the SOCKS5 proxy to send through.
    Done { status: P2PStatus, socks: Option<String> },
}

/// The outcome of the step that a `P2PInit` asks for.
#[derive(Debug)]
pub enum P2PInitOutcome {
    /// The hidden service started at this onion address.
    HiddenServiceUp(String),
    /// The step succeeded (the listener bound, or the system Tor answered).
    Succeeded,
    /// The step failed.
    Failed,
}

impl P2PInit {
    /// The next stage of starting a link, given the outcome of this one: the
    /// own hidden service first, then the system's Tor, then direct
    /// connections; the first listener that binds ends it.
    pub fn advance(self, outcome: P2PInitOutcome) -> (res: P2PInit)
        ensures
            self is StartHiddenService ==> match outcome {
                P2PInitOutcome::HiddenServiceUp(onion) => res == P2PInit::ListenBehindHiddenService { onion },
                _ => res is ProbeSystemTor,
            },
            self matches P2PInit::ListenBehindHiddenService { onion } ==> if outcome is Succeeded {
                res matches P2PInit::Done { status: P2PStatus::TorReady { onion: o }, socks: Some(x) } && o
                    == onion && x@ == TOR_SOCKS_LOCAL@
            } else {
                res is ProbeSystemTor
            },
            self is ProbeSystemTor ==> if outcome is Succeeded {
                res is ListenBehindSystemTor
            } else {
                res is ListenDirect
            },
            self is ListenBehindSystemTor ==> if outcome is Succeeded {
                res matches P2PInit::Done { status: P2PStatus::TorReady { onion: o }, socks: Some(x) } && o@
                    == "(system Tor \u{2014} no hidden service)"@ && x@ == TOR_SOCKS_SYSTEM@
            } else {
                res is ListenDirect
            },
            self is ListenDirect ==> if outcome is Succeeded {
                res matches P2PInit::Done { status: P2PStatus::DirectMode, socks: None }
            } else {
                res matches P2PInit::Done { status: P2PStatus::Error(m), socks: None } && m@
                    == "P2P listener failed to bind"@
            },
            self is Done ==> res == self,
    {
        match self {
            P2PInit::StartHiddenService => match outcome {
                P2PInitOutcome::HiddenServiceUp(onion) => P2PInit::ListenBehindHiddenService { onion },
                _ => P2PInit::ProbeSystemTor,
            },
            P2PInit::ListenBehindHiddenService { onion } => match outcome {
                P2PInitOutcome::Succeeded => P2PInit::Done {
                    status: P2PStatus::TorReady { onion },
                    socks: Some(TOR_SOCKS_LOCAL.to_owned()),
                },
                _ => P2PInit::ProbeSystemTor,
            },
            P2PInit::ProbeSystemTor => match outcome {
                P2PInitOutcome::Succeeded => P2PInit::ListenBehindSystemTor,
                _ => P2PInit::ListenDirect,
            },
            P2PInit::ListenBehindSystemTor => match outcome {
                P2PInitOutcome::Succeeded => P2PInit::Done {
                    status: P2PStatus::TorReady { onion: "(system Tor \u{2014} no hidden service)".to_owned() },
                    socks: Some(TOR_SOCKS_SYSTEM.to_owned()),
                },
                _ => P2PInit::ListenDirect,
            },
            P2PInit::ListenDirect => match outcome {
                P2PInitOutcome::Succeeded => P2PInit::Done { status: P2PStatus::DirectMode, socks: None },
                _ => P2PInit::Done {
                    status: P2PStatus::Error("P2P listener failed to bind".to_owned()),
                    socks: None,
                },
            },
            P2PInit::Done { status, socks } => P2PInit::Done { status, socks },
        }
    }
}

} // verus!
