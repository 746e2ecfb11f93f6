// A tree of agents that spawn children, record earnings and pass revenue up
// to their parents, with one registry of aggregate counters. Every
// instruction is a verified state transition over plain account values.

pub mod admin;
pub mod error;
pub mod events;
pub mod laws;
pub mod ledger;
pub mod pubkey;
pub mod spawn;
pub mod state;
