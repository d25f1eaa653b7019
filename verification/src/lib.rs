//! Passive network telemetry: what crosses one link, as byte rates per local
//! address and as TCP loss indicators.
//!
//! The library is the pipeline between a capture source and a scrape
//! endpoint, without either of them. Frames come in as bytes, times as
//! readings of a monotonic clock in nanoseconds; what goes out are reports
//! and the updates of metric families that they amount to.
//!
//! - [`decoder`]: one ethernet frame to one [`packet::PacketInfo`], or nothing.
//! - [`locality`]: which addresses are local.
//! - [`rates`]: byte counters per local address, sampled into deltas.
//! - [`flow`], [`loss`]: sequence tracking per TCP flow, and the table of flows.
//! - [`publish`], [`exporter`]: metric updates, metric families, HTTP routes.
//! - [`stats`], [`text`], [`sequence`], [`table`], [`capture`]: what the others
//!   build on.

pub mod capture;
pub mod decoder;
pub mod exporter;
pub mod flow;
pub mod locality;
pub mod loss;
pub mod packet;
pub mod publish;
pub mod rates;
pub mod sequence;
pub mod stats;
pub mod table;
pub mod text;
