//! Configuration, bookkeeping and request composition for running Firecracker
//! micro-VMs, together with the decision logic of a small disk-backed FUSE
//! file system.

pub mod api;
pub mod chunks;
pub mod encrypt;
pub mod fuse;
pub mod registry;
pub mod text;
pub mod vm;
