//! A verified binary codec for exchange market-data messages (fixed header,
//! fixed field block, count-prefixed repeating groups, length-prefixed
//! variable fields) together with a bounded, ordered top-of-book price
//! aggregator.

pub mod book;
pub mod buf;
pub mod pool;
pub mod discrete_auction;
pub mod header;
pub mod error;
pub mod wire;
