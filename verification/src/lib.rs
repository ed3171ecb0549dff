//! Market-data core: a feed connector that turns exchange wire frames into
//! normalized spot-trade records, and a broadcast broker that fans those
//! records out to mailbox and queue subscribers.

pub mod binance;
pub mod brokers;
pub mod channels;
pub mod decimal;
pub mod json;
pub mod types;
