//! A minimal guest module for a host-call runtime.
//!
//! The guest exposes two named operations to its host: `echo`, which hands
//! the request payload back unchanged after one outbound call to the host,
//! and `nope`, which always fails with a fixed message. A [`registry::DispatchTable`]
//! models the name-to-handler table the host reads, and a [`bridge::HostBridge`]
//! models the capability through which the guest calls back into the host.

pub mod bridge;
pub mod errors;
pub mod handlers;
pub mod registry;
