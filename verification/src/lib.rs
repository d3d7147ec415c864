//! A client core for the kernel's IP Virtual Server control protocol.
//!
//! The crate holds the decisions of the protocol and none of its I/O: how a
//! command is laid out, how the replies of one exchange are walked and
//! reassembled, when the exchange is over, and what its records mean for the
//! operation that asked. A caller owns the socket, performs what the
//! transaction asks for, and hands back what it received.
//!
//! A session runs like this. [`subsystem_query`] gives the question for the
//! control family; its reply, gathered by a [`Transaction`], opens an
//! [`IpvsClient`]. Every operation of the client is an [`Exchange`]: a
//! [`Request`] to send, a [`Transaction`] that says when to send it and what
//! to do with what comes back, and a reading of the records that it returns.

pub mod client;
pub mod error;
pub mod family;
pub mod message;
pub mod model;
pub mod reassembly;
pub mod transaction;

pub use client::{Command, Exchange, Expectation, Group, IpvsClient, Record, Reply, Request};
pub use error::Error;
pub use family::{family_query, resolve, subsystem_query, CtrlAttr, CtrlCommand, FamilyQuery};
pub use message::{Message, Payload};
pub use model::{
    Address, AddressFamily, Destination, DestinationExtended, DestinationKey, Flags,
    ForwardTypeFull, Netmask, Protocol, Scheduler, Service, ServiceExtended, ServiceKey, Stats64,
    TunnelFlags, TunnelType,
};
pub use transaction::{Action, Event, Phase, Transaction};
