//! Command-and-tunnel core of an IoT device SDK.
//!
//! The library receives cloud-initiated direct-method calls over a
//! publish/subscribe transport, dispatches them to handlers with isolation
//! and backpressure guarantees, and — for one built-in method — opens an
//! ephemeral bidirectional tunnel between a local TCP port and a remote
//! streaming endpoint.  Every decision the core makes (topic parsing,
//! dispatch outcomes, queue backpressure, tunnel deduplication, handshake
//! ordering, byte forwarding, lease release) is implemented and verified
//! here; threads, sockets and the transport client run outside the library
//! and drive these functions with the events they observe.

pub mod dispatch;
pub mod lease;
pub mod queue;
pub mod remote_access;
pub mod session;
pub mod topic;
pub mod tunnel;
