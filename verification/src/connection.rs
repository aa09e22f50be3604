//! Connection status, client errors, the address that a connection is made to, and the
//! decisions of the loops that follow the switcher's state.
use vstd::prelude::*;
use crate::address::{ipv4_octets, ipv4_text};

verus! {

/// The state of the link to the switcher.
#[derive(Debug, Clone, PartialEq, Eq)]
pub enum ConnectionStatus {
    Disconnected,
    Connected,
    Error(String),
}

/// Why a client call failed.
#[derive(Debug)]
pub enum ClientError {
    /// The protocol library reported an error; its message.
    Necromancer(String),
    /// The text given as the switcher's address is no IPv4 address.
    InvalidIp(String),
}

/// The UDP endpoint of a switcher.
#[derive(Debug, Clone, Copy)]
pub struct UdpTarget {
    pub octets: (u8, u8, u8, u8),
    pub port: u16,
}

/// The endpoint to connect to for the address text `ip` and `port`: `ip` must be a
/// dotted-quad IPv4 address; any other text is refused with `InvalidIp` carrying it.
pub fn resolve_udp_target(ip: &str, port: u16) -> (r: Result<UdpTarget, ClientError>)
    ensures
        ipv4_text(ip@) is Some ==> r == Ok::<UdpTarget, ClientError>(
            UdpTarget { octets: ipv4_text(ip@)->0, port },
        ),
        ipv4_text(ip@) is None ==> (r matches Err(ClientError::InvalidIp(s)) && s@ == ip@),
{
    match ipv4_octets(ip) {
        Some(octets) => Ok(UdpTarget { octets, port }),
        None => Err(ClientError::InvalidIp(String::from_str(ip))),
    }
}

/// What a state-following loop received from the channel it listens to.
#[derive(Debug, Clone, Copy, PartialEq, Eq, Structural)]
pub enum StateUpdate {
    /// A new state (or a change of a watched value) arrived.
    Changed,
    /// Some updates were dropped because the loop fell behind.
    Lagged,
    /// The sending side is gone.
    Closed,
}

/// What a state-following loop does next.
#[derive(Debug, Clone, Copy, PartialEq, Eq, Structural)]
pub enum PumpStep {
    /// Read the current state and publish it.
    Publish,
    /// Wait for the next update without publishing.
    Skip,
    /// Leave the loop.
    Stop,
}

/// The step of the loop that publishes snapshots of the switcher's state: a new state is
/// published, a lag is passed over, and a closed channel ends the loop.
pub fn pump_step(update: StateUpdate) -> (r: PumpStep)
    ensures
        update == StateUpdate::Changed ==> r == PumpStep::Publish,
        update == StateUpdate::Lagged ==> r == PumpStep::Skip,
        update == StateUpdate::Closed ==> r == PumpStep::Stop,
{
    match update {
        StateUpdate::Changed => PumpStep::Publish,
        StateUpdate::Lagged => PumpStep::Skip,
        StateUpdate::Closed => PumpStep::Stop,
    }
}

/// The status that the snapshot loop reports once it has ended.
pub fn status_after_pump() -> (r: ConnectionStatus)
    ensures
        r == ConnectionStatus::Disconnected,
{
    ConnectionStatus::Disconnected
}

/// The step of the loop that relays snapshots to the interface: either watched value having
/// changed leads to a publication, and a closed watch ends the loop.
pub fn relay_step(watch_open: bool) -> (r: PumpStep)
    ensures
        watch_open ==> r == PumpStep::Publish,
        !watch_open ==> r == PumpStep::Stop,
{
    if watch_open {
        PumpStep::Publish
    } else {
        PumpStep::Stop
    }
}

} // verus!
