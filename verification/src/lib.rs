//! Decision logic of a node-scoped pod remediation controller and of the
//! network probe that accompanies it.
//!
//! The controller watches the pods of one node. A pod whose network
//! validator last ended with the unsuccessful exit code is removed, so that
//! it is created again and gets another chance at a working network. The
//! [`filter`] decides of each observed pod whether it is to be removed and
//! offers it to the bounded [`queue`]; the [`worker`] takes one target at a
//! time, has it removed and an event published, and keeps the [`metrics`].
//! The [`probe`] settles what the network validator sends and accepts, and
//! [`duration`] reads its timeout.
//!
//! Watching, removing, publishing and the sockets of the probe are the
//! caller's: the library is handed what was observed and says what is to be
//! done next.

pub mod duration;
pub mod filter;
pub mod metrics;
pub mod pod;
pub mod probe;
pub mod queue;
pub mod worker;

pub use duration::parse_timeout;
pub use metrics::Metrics;
