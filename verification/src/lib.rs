//! Cross-exchange arbitrage monitoring: merge the top of two order books into
//! one snapshot, look for a bid on one exchange that exceeds the ask on the
//! other, and decide what to print each cycle.

pub mod arbitrage;
pub mod book;
pub mod monitor;
pub mod pair;
pub mod price;
pub mod report;
pub mod throttle;
