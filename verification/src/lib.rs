//! A monitor for price differences between two exchange venues.
//!
//! One cycle converts a base asset into a quote asset on the first venue and
//! back on the second, and classifies the round trip against a profit
//! threshold. Amounts are whole numbers of an asset's smallest unit; profit
//! figures are signed whole numbers of the base asset's smallest unit.
//!
//! - [`asset`]: identifiers, asset pairs and swap paths.
//! - [`quote`]: quotes, reading a venue's answer, and the trait of a venue.
//! - [`profit`]: the arithmetic of gross and net profit.
//! - [`evaluator`]: one cycle, as a whole and step by step.
//! - [`monitor`]: the loop that runs a cycle per tick and reports it.
//! - [`config`]: setting the monitor up, with its defaults.

pub mod asset;
mod clock;
pub mod config;
pub mod evaluator;
pub mod monitor;
pub mod profit;
pub mod quote;
