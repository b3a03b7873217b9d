//! Server-side logic that does not touch the network or the disk.

pub mod image;
