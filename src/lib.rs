//! Token vesting: a fixed pool allocated to recipients, released in whole
//! periods after a cliff, and claimed by each recipient over time.

pub mod amount;
pub mod error;
pub mod identity;
pub mod schedule;
pub mod ledger;
pub mod laws;
pub mod events;
