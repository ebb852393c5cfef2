//! Portfolio risk core: market-data aggregation with verified contracts.

pub mod error;
pub mod ohlcv;
pub mod tick;
pub mod window;
pub mod snapshot;
pub mod shape;
pub mod incidence;
pub mod objective;
