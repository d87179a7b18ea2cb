//! The text of the requests sent to Firecracker and of the host commands run
//! for a micro-VM.

pub mod firecrackerapi;
pub mod snapshotapi;
pub mod systemapi;
