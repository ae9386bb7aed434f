//! Where the dashboard daemon listens.

use vstd::prelude::*;

verus! {

/// An IP address, as plain values.
#[derive(Debug, Clone, Copy, PartialEq, Eq, Structural)]
pub enum IpAddress {
    V4(u8, u8, u8, u8),
    V6(u16, u16, u16, u16, u16, u16, u16, u16),
}

/// Whether an address is a loopback address: `127.0.0.0/8` or `::1`.
pub open spec fn is_loopback(a: IpAddress) -> bool {
    match a {
        IpAddress::V4(a, _, _, _) => a == 127,
        IpAddress::V6(a, b, c, d, e, f, g, h) => a == 0 && b == 0 && c == 0 && d == 0 && e == 0
            && f == 0 && g == 0 && h == 1,
    }
}

/// Bind policy: localhost only unless the caller explicitly widens it. A start-page
/// daemon binding `0.0.0.0` by default would expose a user's dashboard on their LAN.
#[derive(Debug, Clone, Copy, PartialEq, Eq, Structural)]
pub struct BindPolicy {
    pub host: IpAddress,
    pub port: u16,
}

impl Default for BindPolicy {
    /// `127.0.0.1:7878`.
    fn default() -> (p: Self)
        ensures
            p.host == IpAddress::V4(127, 0, 0, 1),
            is_loopback(p.host),
            p.port == 7878,
    {
        BindPolicy { host: IpAddress::V4(127, 0, 0, 1), port: 7878 }
    }
}

impl BindPolicy {
    /// Explicit opt-in to widen the bind address beyond localhost.
    pub fn expose(self, host: IpAddress) -> (p: Self)
        ensures
            p.host == host,
            p.port == self.port,
    {
        let mut p = self;
        p.host = host;
        p
    }

    /// The same policy on another port; the address is left alone.
    pub fn with_port(self, port: u16) -> (p: Self)
        ensures
            p.port == port,
            p.host == self.host,
    {
        let mut p = self;
        p.port = port;
        p
    }
}

} // verus!
