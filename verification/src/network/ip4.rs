//! IPv4 configuration as NetworkManager reports it. An IPv4 address is held
//! as its 32-bit value.

use vstd::prelude::*;

verus! {

/// IPv4 address with prefix length
#[derive(Debug, Clone, Copy, PartialEq, Eq, Structural)]
pub struct Ipv4Address {
    /// The IPv4 address.
    pub address: u32,
    /// Network prefix length in bits (0-32).
    pub prefix: u8,
}

/// IPv4 route entry
#[derive(Debug, Clone, Copy, PartialEq, Eq, Structural)]
pub struct Ipv4Route {
    /// Destination network address.
    pub destination: u32,
    /// Network prefix length in bits (0-32).
    pub prefix: u8,
    /// Gateway address for this route, if any.
    pub next_hop: Option<u32>,
    /// Route metric for priority ordering (lower is higher priority).
    pub metric: Option<u32>,
}

/// IPv4 configuration for a network device.
#[derive(Debug, Clone, Default)]
pub struct Ip4Config {
    /// D-Bus object path for this IP4Config
    pub path: String,
    /// Array of IP address data objects.
    pub address_data: Vec<Ipv4Address>,
    /// The gateway in use.
    pub gateway: Option<u32>,
    /// Array of nameserver data objects.
    pub nameserver_data: Vec<u32>,
    /// A list of domains this address belongs to.
    pub domains: Vec<String>,
    /// A list of dns searches.
    pub searches: Vec<String>,
    /// A list of DNS options that modify the behavior of the DNS resolver.
    pub dns_options: Vec<String>,
    /// The relative priority of DNS servers.
    pub dns_priority: i32,
    /// Array of IP route data objects.
    pub route_data: Vec<Ipv4Route>,
    /// The Windows Internet Name Service servers associated with the connection.
    pub wins_server_data: Vec<u32>,
}

} // verus!
