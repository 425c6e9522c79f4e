//! Decision logic of a directional trading bot for short-horizon crypto
//! up/down prediction markets: market-text classification, candle
//! bookkeeping, entry filters that learn from their record, start-up options,
//! the learning engine's configuration and the dispatch between strategy
//! engines.
//!
//! Fractional quantities are fixed-point integers counting millionths of the
//! unit (see [`config::SCALE`]).

pub mod bootstrap;
pub mod config;
pub mod data_client;
pub mod dataset;
pub mod features;
pub mod filters;
pub mod history;
pub mod laws;
pub mod markets;
pub mod price_files;
pub mod startup;
pub mod state_files;
pub mod strategy;
pub mod text;
pub mod types;
