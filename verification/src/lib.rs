//! Windowed performance measurement over a live stream of blockchain blocks.
//!
//! The library keeps a bounded sliding window of the most recently observed
//! blocks and derives throughput figures (transactions, gas, and sub-block
//! fragments per unit of time) over that window. Network subscription, clock
//! reads and rendering are left to the surrounding application, which hands
//! the engine plain block records and arrival timestamps.

pub mod block;
pub mod engine;
pub mod laws;
