//! What the server is configured with. The relay reads it and never changes it.

use crate::address::IpAddress;
use vstd::prelude::*;

verus! {

/// A span of time: whole seconds and the nanoseconds beyond them.
#[derive(Clone, Copy, Debug, PartialEq, Eq, Structural)]
pub struct TimeSpan {
    pub secs: u64,
    pub nanos: u32,
}

/// The configuration of a server.
#[derive(Debug)]
pub struct ServerConfig {
    /// Peers that may not join, by IP address.
    pub banned_users: Vec<IpAddress>,
    /// The shared secret that seals the challenge of the handshake, if any.
    pub auth: Option<String>,
    /// Whether files may be sent to the chat.
    pub allow_files: bool,
    /// The span within which a peer may send only so many messages.
    pub message_timeout: TimeSpan,
    /// The IP address that the server binds to.
    pub ip_addr: IpAddress,
    /// The port that the server binds to.
    pub port: u16,
}

/// Files are allowed unless the configuration says otherwise.
pub fn default_allow_files() -> (allowed: bool)
    ensures
        allowed,
{
    true
}

/// The default message window: five seconds.
pub fn default_message_timout() -> (window: TimeSpan)
    ensures
        window == (TimeSpan { secs: 5, nanos: 0 }),
{
    TimeSpan { secs: 5, nanos: 0 }
}

/// The default bind address: the IPv4 loopback address, 127.0.0.1.
pub fn default_ip() -> (ip: IpAddress)
    ensures
        ip == IpAddress::V4(0x7f00_0001),
{
    IpAddress::V4(0x7f00_0001)
}

/// The default port.
pub fn default_port() -> (port: u16)
    ensures
        port == 2004,
{
    2004
}

impl ServerConfig {
    /// Whether `ip` is on the ban list.
    pub open spec fn bans(&self, ip: IpAddress) -> bool {
        self.banned_users@.contains(ip)
    }

    /// Whether `ip` is on the ban list.
    pub fn is_banned(&self, ip: IpAddress) -> (banned: bool)
        ensures
            banned == self.bans(ip),
    {
        listed(&self.banned_users, ip)
    }
}

/// Whether `ip` occurs in `list`.
pub fn listed(list: &Vec<IpAddress>, ip: IpAddress) -> (found: bool)
    ensures
        found == list@.contains(ip),
{
    let mut i: usize = 0;
    while i < list.len()
        invariant
            i <= list@.len(),
            forall|k: int| 0 <= k < i ==> list@[k] != ip,
        decreases list@.len() - i,
    {
        if list[i] == ip {
            return true;
        }
        i += 1;
    }
    false
}

} // verus!
