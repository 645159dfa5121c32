//! Network-condition adapters for byte streams, and the control plane of a proxy built on them.

pub mod binary64;
pub mod cell;
pub mod clock;
pub mod delayer;
pub mod io;
pub mod iovec;
pub mod poll;
pub mod probability;
pub mod proxy;
mod rate;
pub mod shutdowner;
pub mod slicer;
pub mod throttler;
pub mod utils;
