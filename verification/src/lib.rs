//! An in-memory ledger of coffee brewing events.
//!
//! Every brew is recorded as a transaction with a rolled rarity, pays a reward
//! to the brewer and may unlock one-time achievements. The executable code is
//! verified against a mathematical model of the ledger.

pub mod achievement;
pub mod clock;
pub mod entropy;
pub mod hash;
pub mod laws;
pub mod ledger;
pub mod model;
pub mod rarity;
pub mod transaction;
pub mod wallet;
