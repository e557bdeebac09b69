//! Verified core of a network loader for an embedded device.
//!
//! The library decides everything the loader does -- which address to use,
//! how the configuration file is interpreted, what each failure means and
//! how the send is orchestrated -- as verified functions over plain values.
//! The surrounding binary performs the file and socket operations and feeds
//! their outcomes back in.

pub mod config;
pub mod errors;
pub mod load;
pub mod resolve;
