//! Network quality measurement: load counters, worker protocol state machines,
//! ping statistics and result formatting, with their contracts proved by Verus.
pub mod client;
pub mod counter;
pub mod endpoint;
pub mod ping;
pub mod samples;
pub mod server;
pub mod text;
pub mod worker;
