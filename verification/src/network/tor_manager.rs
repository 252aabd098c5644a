//! The state of the link to the Tor SOCKS5 proxy, and the `host:port`
//! targets that connections through it name.
use vstd::prelude::*;

use crate::text::string_push;

verus! {

/// The Tor SOCKS5 proxy.
pub const TOR_SOCKS_ADDR: &'static str = "127.0.0.1:9050";

/// The Tor control port.
pub const TOR_CONTROL_ADDR: &'static str = "127.0.0.1:9051";

/// What is written to the control port to ask for a new circuit.
pub const TOR_NEWNYM_COMMAND: &'static str = "AUTHENTICATE \"\"\r\nSIGNAL NEWNYM\r\n";

/// Why a Tor operation failed.
#[derive(Debug)]
pub enum TorError {
    SocksUnreachable(String),
    CircuitTimeout,
    ResolutionFailed(String),
    Io(std::io::Error),
}

/// The state of the Tor circuit.
#[derive(Debug, Clone, PartialEq, Eq)]
pub enum TorCircuitState {
    Uninitialized,
    Building,
    Ready,
    Failed(String),
}

/// The decimal digits of `n`, without leading zeros.
pub open spec fn decimal(n: nat) -> Seq<char>
    decreases n,
{
    if n < 10 {
        seq![(48 + n) as char]
    } else {
        decimal(n / 10).push((48 + n % 10) as char)
    }
}

/// Appends the decimal digits of `n`.
pub fn push_decimal(s: &mut String, n: u64)
    ensures
        final(s)@ == old(s)@ + decimal(n as nat),
    decreases n,
{
    if n >= 10 {
        push_decimal(s, n / 10);
    }
    let d = n % 10;
    let c = crate::text::digit_char(d);
    string_push(s, c);
    assert(final(s)@ =~= old(s)@ + decimal(n as nat));
}

/// `host:port`.
pub open spec fn host_port_spec(host: Seq<char>, port: u16) -> Seq<char> {
    host + seq![':'] + decimal(port as nat)
}

/// The `host:port` target of a connection.
pub fn host_port(host: &str, port: u16) -> (res: String)
    ensures
        res@ == host_port_spec(host@, port),
{
    let mut s = host.to_owned();
    string_push(&mut s, ':');
    push_decimal(&mut s, port as u64);
    assert(s@ =~= host_port_spec(host@, port));
    s
}

/// The link to the Tor SOCKS5 proxy.
pub struct TorManager {
    state: TorCircuitState,
    socks_addr: String,
}

impl TorManager {
    /// The circuit state.
    pub closed spec fn state(&self) -> TorCircuitState {
        self.state
    }

    /// The proxy's address.
    pub closed spec fn socks(&self) -> Seq<char> {
        self.socks_addr@
    }

    /// A manager that has not tried the proxy yet.
    pub fn new() -> (res: Self)
        ensures
            res.state() == TorCircuitState::Uninitialized,
            res.socks() == TOR_SOCKS_ADDR@,
    {
        TorManager { state: TorCircuitState::Uninitialized, socks_addr: TOR_SOCKS_ADDR.to_owned() }
    }

    /// Marks the circuit as being built, before the proxy is tried.
    pub fn begin_init(&mut self)
        ensures
            final(self).state() == TorCircuitState::Building,
            final(self).socks() == old(self).socks(),
    {
        self.state = TorCircuitState::Building;
    }

    /// Records the outcome of trying the proxy: ready when it was reached;
    /// otherwise failed with the message `127.0.0.1:9050:` and the error's
    /// text, which the error carries too.
    pub fn finish_init(&mut self, connect_error: Option<String>) -> (res: Result<(), TorError>)
        ensures
            final(self).socks() == old(self).socks(),
            match connect_error {
                None => res is Ok && final(self).state() == TorCircuitState::Ready,
                Some(e) => res matches Err(TorError::SocksUnreachable(m)) && m@ == TOR_SOCKS_ADDR@ + seq![
                    ':',
                ] + e@ && final(self).state() == TorCircuitState::Failed(m),
            },
    {
        match connect_error {
            None => {
                self.state = TorCircuitState::Ready;
                Ok(())
            },
            Some(e) => {
                let mut msg = TOR_SOCKS_ADDR.to_owned();
                string_push(&mut msg, ':');
                msg.append(e.as_str());
                self.state = TorCircuitState::Failed(msg.clone());
                Err(TorError::SocksUnreachable(msg))
            },
        }
    }

    /// The circuit state.
    pub fn circuit_state(&self) -> (res: &TorCircuitState)
        ensures
            *res == self.state(),
    {
        &self.state
    }

    /// Whether the circuit is ready.
    pub fn is_ready(&self) -> (res: bool)
        ensures
            res == (self.state() is Ready),
    {
        match self.state {
            TorCircuitState::Ready => true,
            _ => false,
        }
    }

    /// The proxy's address.
    pub fn socks_addr(&self) -> (res: &str)
        ensures
            res@ == self.socks(),
    {
        self.socks_addr.as_str()
    }
}

impl Default for TorManager {
    fn default() -> (res: Self)
        ensures
            res.state() == TorCircuitState::Uninitialized,
            res.socks() == TOR_SOCKS_ADDR@,
    {
        TorManager::new()
    }
}

} // verus!
