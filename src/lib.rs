//! Native side of a bridge that relays messages from any native thread to a
//! callback registered by a managed host runtime.
//!
//! The relay logic lives here and is verified: the delivery queue that a
//! dispatcher drains in order, and the process-wide relay state that routes
//! every message to the newest registration. The host binding, the threads
//! and the blocking waits belong to the surrounding application.

pub mod queue;
pub mod relay;
pub mod boundary;
pub mod laws;
