//! Decision logic of a one-directional UDP throughput probe: the sender's
//! chunking, the receiver's byte accounting, argument dispatch and the
//! throughput figure. The sockets and the clock are driven by the caller.
pub mod cli;
pub mod laws;
pub mod report;
pub mod transfer;
