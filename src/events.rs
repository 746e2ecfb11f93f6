use vstd::prelude::*;
use crate::pubkey::Pubkey;

verus! {

/// A root agent was registered.
#[derive(Clone, Debug, PartialEq, Eq)]
pub struct AgentRegistered {
    pub agent: Pubkey,
    pub wallet: Pubkey,
    pub parent: Pubkey,
    pub name: String,
    pub specialization: String,
    pub depth: u8,
}

/// A child agent was spawned under a parent.
#[derive(Clone, Debug, PartialEq, Eq)]
pub struct AgentSpawned {
    pub child: Pubkey,
    pub parent: Pubkey,
    pub child_wallet: Pubkey,
    pub name: String,
    pub specialization: String,
    pub depth: u8,
    pub revenue_share_bps: u16,
}

/// An agent recorded an earning.
#[derive(Clone, Copy, Debug, PartialEq, Eq)]
pub struct EarningRecorded {
    pub agent: Pubkey,
    pub amount: u64,
    pub total_earned: u64,
}

/// A child pushed currency to its parent's wallet.
#[derive(Clone, Copy, Debug, PartialEq, Eq)]
pub struct RevenueDistributed {
    pub child: Pubkey,
    pub parent: Pubkey,
    pub amount: u64,
    pub total_distributed: u64,
}

/// An agent was deactivated.
#[derive(Clone, Copy, Debug, PartialEq, Eq)]
pub struct AgentDeactivated {
    pub agent: Pubkey,
    pub wallet: Pubkey,
}

} // verus!
