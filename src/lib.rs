//! A trading assistant's core: bracket-order templates and their lifecycle
//! against a broker, position sizing, outlier-filtered ATR statistics, the
//! chart viewport and the runtime's serial state machine.
//!
//! Prices, ranges and other decimal quantities are fixed-point integers:
//! one unit is one ten-thousandth (see `types::PRICE_SCALE`).

pub mod error;
pub mod types;
pub mod position_sizing;
pub mod stats;
pub mod atr;
mod clock;
pub mod text;
pub mod template;
pub mod client;
pub mod runtime;
pub mod viewport;
pub mod models;
pub mod mailbox;
pub mod orders;
pub mod theme;
pub mod chart;
pub mod ib_handler;
