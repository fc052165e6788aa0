//! Core of a terminal resource dashboard: bounded sliding-window time series
//! for charting, per-subsystem metric records collected from the host, an
//! event stream merged from several producers, and the cooperative lifecycle
//! (start / stop / forced abort) of the background tasks.

pub mod aggregators;
pub mod collector;
pub mod config;
pub mod events;
pub mod lifecycle;
pub mod metrics;
pub mod window;
