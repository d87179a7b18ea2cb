//! Virtual machine descriptions, addressing and identifiers.

pub mod generator;
pub mod network;
pub mod vmconfig;
pub mod vminfo;
