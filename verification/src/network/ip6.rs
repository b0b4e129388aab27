//! Reading the IPv6 configuration NetworkManager reports.
//!
//! NetworkManager reports addresses, name servers and routes as lists of
//! dictionaries. The entry types here hold the dictionary fields that are
//! read, each `None` when the key is missing or its value has another type.
//! Entries that do not yield a complete item are skipped. An IPv6 address
//! is held as its 128-bit value.

use vstd::prelude::*;

verus! {

/// The 128-bit value of the IPv6 address that `text` spells, if it spells
/// one in the notation the Rust standard library reads.
pub uninterp spec fn ipv6_from_text(text: Seq<char>) -> Option<u128>;

/// Reads an IPv6 address in text form.
///
/// Calls `str::parse::<core::net::Ipv6Addr>` and takes the address's 128-bit
/// value; the contract names the result and says nothing of the notation.
#[verifier::external_body]
fn parse_ipv6(text: &str) -> (r: Option<u128>)
    ensures
        r == ipv6_from_text(text@),
{
    text.parse::<core::net::Ipv6Addr>().ok().map(u128::from)
}

/// The unspecified address `::`.
pub open spec fn is_unspecified(a: u128) -> bool {
    a == 0
}

/// One entry of the address data.
#[derive(Debug, Clone)]
pub struct AddressEntry {
    /// The "address" value, if it is a string
    pub address: Option<String>,
    /// The "prefix" value, if it is a `u32`
    pub prefix: Option<u32>,
}

/// One entry of the name server data.
#[derive(Debug, Clone)]
pub struct NameserverEntry {
    /// The "address" value, if it is a string
    pub address: Option<String>,
}

/// One entry of the route data.
#[derive(Debug, Clone)]
pub struct RouteEntry {
    /// The "dest" value, if it is a string
    pub dest: Option<String>,
    /// The "prefix" value, if it is a `u32`
    pub prefix: Option<u32>,
    /// The "next-hop" value, if it is a string
    pub next_hop: Option<String>,
    /// The "metric" value, if it is a `u32`
    pub metric: Option<u32>,
}

/// IPv6 address with prefix length
#[derive(Debug, Clone, Copy, PartialEq, Eq, Structural)]
pub struct Ipv6Address {
    /// The IPv6 address.
    pub address: u128,
    /// Network prefix length in bits (0-128).
    pub prefix: u8,
}

/// IPv6 route entry
#[derive(Debug, Clone, Copy, PartialEq, Eq, Structural)]
pub struct Ipv6Route {
    /// Destination network address.
    pub destination: u128,
    /// Network prefix length in bits (0-128).
    pub prefix: u8,
    /// Gateway address for this route, if any.
    pub next_hop: Option<u128>,
    /// Route metric for priority ordering (lower is higher priority).
    pub metric: Option<u32>,
}

/// The present items of a sequence of optional items, in order.
pub open spec fn present<T>(s: Seq<Option<T>>) -> Seq<T>
    decreases s.len(),
{
    if s.len() == 0 {
        Seq::empty()
    } else {
        match s.last() {
            Some(x) => present(s.drop_last()).push(x),
            None => present(s.drop_last()),
        }
    }
}

/// A prefix length as a byte (its low eight bits).
pub open spec fn prefix_byte(p: u32) -> u8 {
    (p % 256) as u8
}

/// A read address, unless it is the unspecified address.
pub open spec fn specified(parsed: Option<u128>) -> Option<u128> {
    match parsed {
        Some(v) => if is_unspecified(v) {
            None
        } else {
            Some(v)
        },
        None => None,
    }
}

/// The address item made of a read address and a prefix length.
pub open spec fn address_item(parsed: Option<u128>, prefix: u32) -> Option<Ipv6Address> {
    match parsed {
        Some(v) => Some(Ipv6Address { address: v, prefix: prefix_byte(prefix) }),
        None => None,
    }
}

/// The route item made of a read destination, a prefix length, a read next
/// hop and a metric; an unspecified next hop counts as none.
pub open spec fn route_item(
    destination: Option<u128>,
    prefix: u32,
    next_hop: Option<u128>,
    metric: Option<u32>,
) -> Option<Ipv6Route> {
    match destination {
        Some(v) => Some(
            Ipv6Route {
                destination: v,
                prefix: prefix_byte(prefix),
                next_hop: specified(next_hop),
                metric,
            },
        ),
        None => None,
    }
}

/// The address read from an optional text.
pub open spec fn read_text(text: Option<String>) -> Option<u128> {
    match text {
        Some(t) => ipv6_from_text(t@),
        None => None,
    }
}

/// The address an address entry describes.
pub open spec fn address_of(e: AddressEntry) -> Option<Ipv6Address> {
    match (e.address, e.prefix) {
        (Some(a), Some(p)) => address_item(ipv6_from_text(a@), p),
        _ => None,
    }
}

/// The name server a name server entry describes.
pub open spec fn nameserver_of(e: NameserverEntry) -> Option<u128> {
    read_text(e.address)
}

/// The route a route entry describes.
pub open spec fn route_of(e: RouteEntry) -> Option<Ipv6Route> {
    match (e.dest, e.prefix) {
        (Some(d), Some(p)) => route_item(ipv6_from_text(d@), p, read_text(e.next_hop), e.metric),
        _ => None,
    }
}

/// The gateway in use, unless it is unreadable or unspecified.
pub open spec fn gateway_of(text: Seq<char>) -> Option<u128> {
    specified(ipv6_from_text(text))
}

/// Keeps a read address unless it is the unspecified address `::`.
pub fn keep_specified(parsed: Option<u128>) -> (r: Option<u128>)
    ensures
        r == specified(parsed),
{
    match parsed {
        Some(v) => if v == 0 {
            None
        } else {
            Some(v)
        },
        None => None,
    }
}

/// The address item made of a read address and a prefix length (its low
/// eight bits).
pub fn address_from_parts(parsed: Option<u128>, prefix: u32) -> (r: Option<Ipv6Address>)
    ensures
        r == address_item(parsed, prefix),
{
    match parsed {
        Some(v) => Some(Ipv6Address { address: v, prefix: (prefix % 256) as u8 }),
        None => None,
    }
}

/// The route item made of a read destination, a prefix length (its low
/// eight bits), a read next hop (dropped when unspecified) and a metric.
pub fn route_from_parts(
    destination: Option<u128>,
    prefix: u32,
    next_hop: Option<u128>,
    metric: Option<u32>,
) -> (r: Option<Ipv6Route>)
    ensures
        r == route_item(destination, prefix, next_hop, metric),
{
    match destination {
        Some(v) => Some(
            Ipv6Route {
                destination: v,
                prefix: (prefix % 256) as u8,
                next_hop: keep_specified(next_hop),
                metric,
            },
        ),
        None => None,
    }
}

fn read_optional(text: &Option<String>) -> (r: Option<u128>)
    ensures
        r == read_text(*text),
{
    match text {
        Some(t) => parse_ipv6(t.as_str()),
        None => None,
    }
}

fn address_entry(e: &AddressEntry) -> (r: Option<Ipv6Address>)
    ensures
        r == address_of(*e),
{
    match (&e.address, e.prefix) {
        (Some(a), Some(p)) => address_from_parts(parse_ipv6(a.as_str()), p),
        _ => None,
    }
}

fn nameserver_entry(e: &NameserverEntry) -> (r: Option<u128>)
    ensures
        r == nameserver_of(*e),
{
    read_optional(&e.address)
}

fn route_entry(e: &RouteEntry) -> (r: Option<Ipv6Route>)
    ensures
        r == route_of(*e),
{
    match (&e.dest, e.prefix) {
        (Some(d), Some(p)) => route_from_parts(
            parse_ipv6(d.as_str()),
            p,
            read_optional(&e.next_hop),
            e.metric,
        ),
        _ => None,
    }
}

proof fn lemma_present_step<T>(s: Seq<Option<T>>, i: int)
    requires
        0 <= i < s.len(),
    ensures
        present(s.take(i + 1)) == match s[i] {
            Some(x) => present(s.take(i)).push(x),
            None => present(s.take(i)),
        },
{
    assert(s.take(i + 1).drop_last() =~= s.take(i));
}

/// IPv6 Configuration Set.
///
/// Represents the current IPv6 configuration including addresses, routes,
/// DNS servers, and other network parameters.
#[derive(Debug, Clone)]
pub struct Ip6Config {
    /// D-Bus object path for this IP6Config
    pub path: String,
    /// Array of IP address data objects.
    pub address_data: Vec<Ipv6Address>,
    /// The gateway in use.
    pub gateway: Option<u128>,
    /// The nameservers in use.
    pub nameservers: Vec<u128>,
    /// A list of domains this address belongs to.
    pub domains: Vec<String>,
    /// A list of dns searches.
    pub searches: Vec<String>,
    /// A list of DNS options that modify the behavior of the DNS resolver.
    pub dns_options: Vec<String>,
    /// The relative priority of DNS servers.
    pub dns_priority: i32,
    /// Array of IP route data objects.
    pub route_data: Vec<Ipv6Route>,
}

/// The IPv6 configuration properties as NetworkManager reports them.
#[derive(Debug, Clone)]
pub struct Ip6ConfigProperties {
    /// The "AddressData" entries
    pub address_data: Vec<AddressEntry>,
    /// The "Gateway" text
    pub gateway: String,
    /// The "NameserverData" entries
    pub nameserver_data: Vec<NameserverEntry>,
    /// The "Domains" list
    pub domains: Vec<String>,
    /// The "Searches" list
    pub searches: Vec<String>,
    /// The "DnsOptions" list
    pub dns_options: Vec<String>,
    /// The "DnsPriority" value
    pub dns_priority: i32,
    /// The "RouteData" entries
    pub route_data: Vec<RouteEntry>,
}

impl Ip6Config {
    /// The configuration described by the reported properties.
    pub fn from_props(path: String, props: Ip6ConfigProperties) -> (r: Self)
        ensures
            r.path == path,
            r.address_data@ == present(props.address_data@.map_values(|e: AddressEntry| address_of(e))),
            r.gateway == gateway_of(props.gateway@),
            r.nameservers@ == present(props.nameserver_data@.map_values(|e: NameserverEntry| nameserver_of(e))),
            r.domains == props.domains,
            r.searches == props.searches,
            r.dns_options == props.dns_options,
            r.dns_priority == props.dns_priority,
            r.route_data@ == present(props.route_data@.map_values(|e: RouteEntry| route_of(e))),
    {
        let address_data = Self::parse_address_data(props.address_data.as_slice());
        let gateway = Self::parse_gateway(props.gateway.as_str());
        let nameservers = Self::parse_nameserver_data(props.nameserver_data.as_slice());
        let route_data = Self::parse_route_data(props.route_data.as_slice());
        Ip6Config {
            path,
            address_data,
            gateway,
            nameservers,
            domains: props.domains,
            searches: props.searches,
            dns_options: props.dns_options,
            dns_priority: props.dns_priority,
            route_data,
        }
    }

    /// The addresses of the address data, in order.
    pub fn parse_address_data(data: &[AddressEntry]) -> (r: Vec<Ipv6Address>)
        ensures
            r@ == present(data@.map_values(|e: AddressEntry| address_of(e))),
    {
        let ghost m = data@.map_values(|e: AddressEntry| address_of(e));
        let mut r: Vec<Ipv6Address> = Vec::new();
        let mut i: usize = 0;
        while i < data.len()
            invariant
                i <= data@.len(),
                m == data@.map_values(|e: AddressEntry| address_of(e)),
                r@ == present(m.take(i as int)),
            decreases data@.len() - i,
        {
            proof {
                lemma_present_step(m, i as int);
            }
            match address_entry(&data[i]) {
                Some(a) => r.push(a),
                None => {},
            }
            i = i + 1;
        }
        proof {
            assert(m.take(data@.len() as int) =~= m);
        }
        r
    }

    /// The name servers of the name server data, in order.
    pub fn parse_nameserver_data(data: &[NameserverEntry]) -> (r: Vec<u128>)
        ensures
            r@ == present(data@.map_values(|e: NameserverEntry| nameserver_of(e))),
    {
        let ghost m = data@.map_values(|e: NameserverEntry| nameserver_of(e));
        let mut r: Vec<u128> = Vec::new();
        let mut i: usize = 0;
        while i < data.len()
            invariant
                i <= data@.len(),
                m == data@.map_values(|e: NameserverEntry| nameserver_of(e)),
                r@ == present(m.take(i as int)),
            decreases data@.len() - i,
        {
            proof {
                lemma_present_step(m, i as int);
            }
            match nameserver_entry(&data[i]) {
                Some(a) => r.push(a),
                None => {},
            }
            i = i + 1;
        }
        proof {
            assert(m.take(data@.len() as int) =~= m);
        }
        r
    }

    /// The routes of the route data, in order.
    pub fn parse_route_data(data: &[RouteEntry]) -> (r: Vec<Ipv6Route>)
        ensures
            r@ == present(data@.map_values(|e: RouteEntry| route_of(e))),
    {
        let ghost m = data@.map_values(|e: RouteEntry| route_of(e));
        let mut r: Vec<Ipv6Route> = Vec::new();
        let mut i: usize = 0;
        while i < data.len()
            invariant
                i <= data@.len(),
                m == data@.map_values(|e: RouteEntry| route_of(e)),
                r@ == present(m.take(i as int)),
            decreases data@.len() - i,
        {
            proof {
                lemma_present_step(m, i as int);
            }
            match route_entry(&data[i]) {
                Some(a) => r.push(a),
                None => {},
            }
            i = i + 1;
        }
        proof {
            assert(m.take(data@.len() as int) =~= m);
        }
        r
    }

    /// The gateway in use, unless it cannot be read or is unspecified.
    pub fn parse_gateway(gateway: &str) -> (r: Option<u128>)
        ensures
            r == gateway_of(gateway@),
    {
        keep_specified(parse_ipv6(gateway))
    }
}

} // verus!
