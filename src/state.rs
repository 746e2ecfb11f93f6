use vstd::prelude::*;
use crate::pubkey::Pubkey;

verus! {

/// Deepest level of the agent tree; the root is at level zero.
pub const MAX_DEPTH: u8 = 5;

/// Longest agent name, in bytes.
pub const MAX_NAME_LEN: usize = 32;

/// Longest specialization, in bytes.
pub const MAX_SPEC_LEN: usize = 64;

/// Largest revenue share, in basis points (100%).
pub const MAX_REVENUE_SHARE_BPS: u16 = 10_000;

/// Number of bytes of a string in UTF-8.
pub open spec fn byte_len(s: String) -> nat {
    vstd::utf8::encode_utf8(s@).len()
}

/// The singleton record of aggregate counters.
#[derive(Clone, Debug, PartialEq, Eq)]
pub struct Registry {
    pub authority: Pubkey,
    pub total_agents: u64,
    pub total_earnings: u64,
    pub total_spawns: u64,
    pub bump: u8,
}

impl Registry {
    /// Stored size of a registry account, discriminator included.
    pub const SIZE: usize = 8 + 32 + 8 + 8 + 8 + 1;

    /// The agents are the single root, once it is registered, and the
    /// spawned agents.
    pub open spec fn wf(self) -> bool {
        self.total_agents == self.total_spawns + 1 || (self.total_agents == 0
            && self.total_spawns == 0)
    }

    /// Whether the root agent is already registered.
    pub open spec fn has_root(self) -> bool {
        self.total_agents > self.total_spawns
    }

    /// No counter of `self` is above the same counter of `later`.
    pub open spec fn counters_le(self, later: Registry) -> bool {
        &&& self.total_agents <= later.total_agents
        &&& self.total_earnings <= later.total_earnings
        &&& self.total_spawns <= later.total_spawns
    }
}

/// One agent of the tree, with its ledger.
#[derive(Clone, Debug, PartialEq, Eq)]
pub struct AgentAccount {
    pub wallet: Pubkey,
    pub parent: Pubkey,
    pub name: String,
    pub specialization: String,
    pub total_earned: u64,
    pub total_distributed_to_parent: u64,
    pub children_count: u64,
    pub depth: u8,
    pub revenue_share_bps: u16,
    pub is_active: bool,
    pub created_at: i64,
    pub bump: u8,
}

impl AgentAccount {
    /// Stored size of an agent account, discriminator included.
    pub const SIZE: usize = 8 + 32 + 32 + (4 + MAX_NAME_LEN) + (4 + MAX_SPEC_LEN) + 8 + 8 + 8 + 1
        + 2 + 1 + 8 + 1;

    /// The limits that every agent created by this library meets.
    pub open spec fn wf(self) -> bool {
        &&& self.depth <= MAX_DEPTH
        &&& self.revenue_share_bps <= MAX_REVENUE_SHARE_BPS
        &&& byte_len(self.name) <= MAX_NAME_LEN
        &&& byte_len(self.specialization) <= MAX_SPEC_LEN
        &&& self.depth == 0 ==> self.parent == Pubkey::zero() && self.revenue_share_bps == 0
    }

    /// No ledger counter of `self` is above the same counter of `later`.
    pub open spec fn counters_le(self, later: AgentAccount) -> bool {
        &&& self.total_earned <= later.total_earned
        &&& self.total_distributed_to_parent <= later.total_distributed_to_parent
        &&& self.children_count <= later.children_count
    }

    /// The same agent with its ledger counters only possibly changed.
    pub open spec fn same_identity(self, later: AgentAccount) -> bool {
        &&& self.wallet == later.wallet
        &&& self.parent == later.parent
        &&& self.name == later.name
        &&& self.specialization == later.specialization
        &&& self.depth == later.depth
        &&& self.revenue_share_bps == later.revenue_share_bps
        &&& self.created_at == later.created_at
        &&& self.bump == later.bump
    }
}

} // verus!
