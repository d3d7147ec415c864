//! The objects that the subsystem manages, as plain values.
//!
//! A virtual service is an endpoint that the kernel balances over a set of
//! destinations. Both are snapshots: a caller supplies one with a command, or
//! gets one back with the counters the kernel keeps for it. Nothing here is
//! tied to how the values travel on the wire.

use vstd::prelude::*;

verus! {

/// The kind of address an object has.
#[derive(Clone, Copy, Debug, PartialEq, Eq, Structural)]
pub enum AddressFamily {
    IPv4,
    IPv6,
}

impl AddressFamily {
    /// The number of bits in an address of this family.
    pub open spec fn bits(self) -> u8 {
        match self {
            AddressFamily::IPv4 => 32,
            AddressFamily::IPv6 => 128,
        }
    }

    /// The number of bits in an address of this family.
    pub fn address_bits(self) -> (n: u8)
        ensures
            n == self.bits(),
    {
        match self {
            AddressFamily::IPv4 => 32,
            AddressFamily::IPv6 => 128,
        }
    }
}

/// An address, as its octets in network order.
#[derive(Clone, Copy, Debug, PartialEq, Eq)]
pub enum Address {
    V4([u8; 4]),
    V6([u8; 16]),
}

impl Address {
    /// The family that the address belongs to.
    pub open spec fn family(self) -> AddressFamily {
        match self {
            Address::V4(_) => AddressFamily::IPv4,
            Address::V6(_) => AddressFamily::IPv6,
        }
    }

    /// The family that the address belongs to.
    pub fn address_family(&self) -> (family: AddressFamily)
        ensures
            family == self.family(),
    {
        match self {
            Address::V4(_) => AddressFamily::IPv4,
            Address::V6(_) => AddressFamily::IPv6,
        }
    }
}

/// The transport protocol of a service.
#[derive(Clone, Copy, Debug, PartialEq, Eq, Structural)]
pub enum Protocol {
    TCP,
    UDP,
    SCTP,
}

/// The policy by which a service picks a destination for a new connection.
#[derive(Clone, Copy, Debug, PartialEq, Eq, Structural)]
pub enum Scheduler {
    RoundRobin,
    WeightedRoundRobin,
    LeastConnection,
    WeightedLeastConnection,
    LocalityBasedLeastConnection,
    LocalityBasedLeastConnectionWithReplication,
    DestinationHashing,
    SourceHashing,
    ShortestExpectedDelay,
    NeverQueue,
    WeightedFailover,
    WeightedOverflow,
    MaglevHashing,
}

/// The flag bits of a service.
#[derive(Clone, Copy, Debug, PartialEq, Eq, Structural)]
pub struct Flags(pub u32);

/// A netmask, as the number of its leading one bits. There are never more of
/// them than an address of its family has bits.
#[derive(Clone, Copy, Debug, PartialEq, Eq)]
pub struct Netmask {
    ones: u8,
    address_family: AddressFamily,
}

impl Netmask {
    #[verifier::type_invariant]
    spec fn valid(self) -> bool {
        self.ones <= self.address_family.bits()
    }

    /// The number of leading one bits.
    pub closed spec fn prefix(self) -> u8 {
        self.ones
    }

    /// The family of the addresses that the mask applies to.
    pub closed spec fn family(self) -> AddressFamily {
        self.address_family
    }

    /// A mask of `ones` leading one bits for addresses of `address_family`,
    /// unless that is more bits than such an address has.
    pub fn new(ones: u8, address_family: AddressFamily) -> (mask: Option<Netmask>)
        ensures
            mask is Some <==> ones <= address_family.bits(),
            mask is Some ==> mask->Some_0.prefix() == ones && mask->Some_0.family()
                == address_family,
    {
        if ones <= address_family.address_bits() {
            Some(Netmask { ones, address_family })
        } else {
            None
        }
    }

    /// The number of leading one bits.
    pub fn ones(&self) -> (ones: u8)
        ensures
            ones == self.prefix(),
            ones <= self.family().bits(),
    {
        proof {
            use_type_invariant(self);
        }
        self.ones
    }

    /// The family of the addresses that the mask applies to.
    pub fn address_family(&self) -> (family: AddressFamily)
        ensures
            family == self.family(),
    {
        self.address_family
    }
}

/// A virtual service.
#[derive(Clone, Copy, Debug, PartialEq, Eq)]
pub struct Service {
    pub address: Address,
    pub netmask: Netmask,
    pub scheduler: Scheduler,
    pub flags: Flags,
    /// The port, for a service that is found by address and port.
    pub port: Option<u16>,
    /// The firewall mark, for a service that is found by mark.
    pub fw_mark: Option<u32>,
    /// For how long a client stays with its destination, in seconds. Zero
    /// means the same as none.
    pub persistence_timeout: Option<u32>,
    pub family: AddressFamily,
    pub protocol: Protocol,
}

/// What tells one service from another.
#[derive(Clone, Copy, Debug, PartialEq, Eq)]
pub struct ServiceKey {
    pub family: AddressFamily,
    pub protocol: Protocol,
    pub address: Address,
    pub port: Option<u16>,
    pub fw_mark: Option<u32>,
}

impl Service {
    /// What tells this service from another: family, protocol, address, and
    /// port or firewall mark.
    pub open spec fn identity(self) -> ServiceKey {
        ServiceKey {
            family: self.family,
            protocol: self.protocol,
            address: self.address,
            port: self.port,
            fw_mark: self.fw_mark,
        }
    }

    /// Computes [`Service::identity`].
    pub fn key(&self) -> (key: ServiceKey)
        ensures
            key == self.identity(),
    {
        ServiceKey {
            family: self.family,
            protocol: self.protocol,
            address: self.address,
            port: self.port,
            fw_mark: self.fw_mark,
        }
    }
}

/// The kind of tunnel that a tunnelled destination is reached through.
#[derive(Clone, Copy, Debug, PartialEq, Eq, Structural)]
pub enum TunnelType {
    /// IP in IP, without further encapsulation.
    Ipip,
}

/// The flag bits of a tunnel.
#[derive(Clone, Copy, Debug, PartialEq, Eq, Structural)]
pub struct TunnelFlags(pub u16);

/// How packets are forwarded to a destination.
#[derive(Clone, Copy, Debug, PartialEq, Eq, Structural)]
pub enum ForwardTypeFull {
    /// By rewriting addresses.
    Masquerade,
    /// Through a tunnel.
    Tunnel { tunnel_type: TunnelType, tunnel_port: u16, tunnel_flags: TunnelFlags },
    /// By direct routing.
    Direct,
}

/// A real server behind a virtual service.
#[derive(Clone, Copy, Debug, PartialEq, Eq)]
pub struct Destination {
    pub address: Address,
    pub fwd_method: ForwardTypeFull,
    /// The share of new connections that the destination is given. With a
    /// weight of zero it is given none, and keeps those it has.
    pub weight: u32,
    pub upper_threshold: Option<u32>,
    pub lower_threshold: Option<u32>,
    pub port: u16,
    pub family: AddressFamily,
}

/// What tells one destination of a service from another.
#[derive(Clone, Copy, Debug, PartialEq, Eq)]
pub struct DestinationKey {
    pub family: AddressFamily,
    pub address: Address,
    pub port: u16,
}

impl Destination {
    /// What tells this destination from the others of its service: family,
    /// address and port.
    pub open spec fn identity(self) -> DestinationKey {
        DestinationKey { family: self.family, address: self.address, port: self.port }
    }

    /// Computes [`Destination::identity`].
    pub fn key(&self) -> (key: DestinationKey)
        ensures
            key == self.identity(),
    {
        DestinationKey { family: self.family, address: self.address, port: self.port }
    }

    /// The destination as it is once it is disabled: the weight is zero and
    /// every other field is as before.
    pub open spec fn disabled(self) -> Destination {
        Destination {
            address: self.address,
            fwd_method: self.fwd_method,
            weight: 0,
            upper_threshold: self.upper_threshold,
            lower_threshold: self.lower_threshold,
            port: self.port,
            family: self.family,
        }
    }

    /// Computes [`Destination::disabled`].
    pub fn to_disabled(&self) -> (other: Destination)
        ensures
            other == self.disabled(),
    {
        Destination {
            address: self.address,
            fwd_method: self.fwd_method,
            weight: 0,
            upper_threshold: self.upper_threshold,
            lower_threshold: self.lower_threshold,
            port: self.port,
            family: self.family,
        }
    }
}

/// Disabling changes a destination and does not replace it: the disabled
/// destination has a weight of zero and is otherwise the destination it was,
/// under the same identity. Disabling it again changes nothing.
pub proof fn lemma_disabling_keeps_the_destination(destination: Destination)
    ensures
        destination.disabled().weight == 0,
        destination.disabled().identity() == destination.identity(),
        destination.disabled() == (Destination { weight: 0, ..destination }),
        destination.disabled().disabled() == destination.disabled(),
{
}

/// The traffic counters that the kernel keeps for a service or a destination.
#[derive(Clone, Copy, Debug, PartialEq, Eq, Structural)]
pub struct Stats64 {
    pub connections: u64,
    pub incoming_packets: u64,
    pub outgoing_packets: u64,
    pub incoming_bytes: u64,
    pub outgoing_bytes: u64,
    pub connection_rate: u64,
    pub incoming_packet_rate: u64,
    pub outgoing_packet_rate: u64,
    pub incoming_byte_rate: u64,
    pub outgoing_byte_rate: u64,
}

/// A service as the kernel reports it, with its counters.
#[derive(Clone, Copy, Debug, PartialEq, Eq)]
pub struct ServiceExtended {
    pub service: Service,
    pub stats64: Stats64,
}

/// A destination as the kernel reports it, with its counters.
#[derive(Clone, Copy, Debug, PartialEq, Eq)]
pub struct DestinationExtended {
    pub destination: Destination,
    pub active_connections: u32,
    pub inactive_connections: u32,
    pub persistent_connections: u32,
    pub stats64: Stats64,
}

} // verus!
