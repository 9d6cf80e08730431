//! The connection status model and its decoding. The Wi-Fi stack reports a
//! composite status: a client sub-status (disconnected, transitional, or
//! connected with IP settings) and an access-point sub-status (stopped or
//! started). For this device the one success terminal is the pair
//! (connected-with-IP, access-point-stopped); every other pair decodes to an
//! error carrying that exact pair for diagnostics.

use vstd::prelude::*;

verus! {

/// The IP settings handed out on a successful connection.
#[derive(Clone, Copy, Debug, PartialEq, Eq, Structural)]
pub struct IpInfo {
    /// The device's IPv4 address, as its four bytes in big-endian order
    /// packed into one integer.
    pub addr: u32,
    /// The gateway's IPv4 address, packed the same way.
    pub gateway: u32,
}

/// The client side of the stack's status.
#[derive(Clone, Copy, Debug, PartialEq, Eq, Structural)]
pub enum ClientStatus {
    Disconnected,
    /// Association or negotiation in progress: neither connected nor failed.
    Transitional,
    Connected(IpInfo),
}

/// The access-point side of the stack's status.
#[derive(Clone, Copy, Debug, PartialEq, Eq, Structural)]
pub enum ApStatus {
    Stopped,
    Started,
}

/// The composite status the stack reports.
#[derive(Clone, Copy, Debug, PartialEq, Eq, Structural)]
pub struct WifiStatus {
    pub client: ClientStatus,
    pub ap: ApStatus,
}

/// Why a connection attempt failed: the status stayed transitional past the
/// bounded wait, or it settled on a pair other than the success terminal
/// (carried whole for diagnostics).
#[derive(Clone, Copy, Debug, PartialEq, Eq, Structural)]
pub enum ConnectError {
    Timeout,
    UnexpectedStatus(WifiStatus),
}

impl WifiStatus {
    /// Still in flux: the bounded wait keeps polling exactly while this
    /// holds.
    pub open spec fn is_transitional_spec(&self) -> bool {
        self.client is Transitional
    }

    /// Executable form of `is_transitional_spec`.
    pub fn is_transitional(&self) -> (r: bool)
        ensures
            r == self.is_transitional_spec(),
    {
        match self.client {
            ClientStatus::Transitional => true,
            _ => false,
        }
    }
}

/// How a settled status is read: the success terminal yields its IP
/// settings, every other pair is unexpected and carried back whole.
pub open spec fn decode_status_spec(s: WifiStatus) -> Result<IpInfo, ConnectError> {
    match s.client {
        ClientStatus::Connected(ip) => if s.ap is Stopped {
            Ok(ip)
        } else {
            Err(ConnectError::UnexpectedStatus(s))
        },
        _ => Err(ConnectError::UnexpectedStatus(s)),
    }
}

/// Decode a settled status, exactly as `decode_status_spec` reads it: the
/// pair (connected-with-IP, stopped) succeeds with the matching IP settings,
/// and any other pair fails carrying that exact pair.
pub fn decode_status(s: &WifiStatus) -> (r: Result<IpInfo, ConnectError>)
    ensures
        r == decode_status_spec(*s),
{
    match s.client {
        ClientStatus::Connected(ip) => match s.ap {
            ApStatus::Stopped => Ok(ip),
            ApStatus::Started => Err(ConnectError::UnexpectedStatus(*s)),
        },
        _ => Err(ConnectError::UnexpectedStatus(*s)),
    }
}

} // verus!
