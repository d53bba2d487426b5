//! A monitor-polling agent: a store of monitors whose measurements are
//! refreshed on a fixed schedule, with periodic full snapshots of the store.

pub mod clock;
pub mod json;
pub mod monitor;
pub mod schedule;
pub mod cli;
