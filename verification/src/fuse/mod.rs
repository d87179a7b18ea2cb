//! The decision logic of a FUSE file system that keeps inode attributes and
//! directory listings as files under a data directory.

pub mod directory;
pub mod fuse;
pub mod sys;
pub mod time;
