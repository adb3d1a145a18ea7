//! An orchestration kernel for a fleet of gateway shards.
//!
//! A bot that is too large for one gateway connection runs several, each
//! carrying a share of the traffic: its shards. This crate owns such a fleet.
//! It builds one shard for every shard that discovery recommends, hands each
//! to a worker of its own, and closes the whole fleet down in order when the
//! process is interrupted.
//!
//! * [`kernel`] holds the fleet and starts and stops it.
//! * [`worker`] is the event loop of one shard, as a state machine.
//! * [`signal`] is the shutdown signal that the kernel raises and the
//!   workers read.
//! * [`shard`] names the shards of a fleet.
//! * [`gateway`] declares what is used of the gateway client.
//!
//! Whatever waits on the network, the runtime or the interrupt is left to the
//! caller, who reports what came of it: discovery, the cache connection and
//! the interrupt arrive as plain values, and tasks are spawned by a function
//! that the caller passes in.

pub mod gateway;
pub mod kernel;
pub mod shard;
pub mod signal;
pub mod worker;
