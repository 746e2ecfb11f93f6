use vstd::prelude::*;
use crate::error::HydraError;
use crate::events::AgentSpawned;
use crate::pubkey::Pubkey;
use crate::state::{byte_len, AgentAccount, Registry, MAX_DEPTH, MAX_NAME_LEN, MAX_REVENUE_SHARE_BPS, MAX_SPEC_LEN};

verus! {

/// The accounts and signer of a spawn: the parent agent, identified by its
/// wallet, creates a child agent in a fresh account.
#[derive(Clone, Debug)]
pub struct SpawnChild {
    pub registry: Registry,
    pub parent_agent: AgentAccount,
    /// Address of the parent agent's account.
    pub parent_agent_key: Pubkey,
    /// The fresh account that receives the child.
    pub child_agent: AgentAccount,
    /// Address of the child agent's account.
    pub child_agent_key: Pubkey,
    /// The signer: must be the parent agent's wallet.
    pub parent_wallet: Pubkey,
    pub child_wallet: Pubkey,
    /// Address bump of the child agent's account.
    pub child_bump: u8,
    /// Time of the instruction, in seconds since the epoch.
    pub now: i64,
}

/// The first reason, in the order they are checked, for which a spawn is
/// refused, or `None` if it goes through.
pub open spec fn spawn_refusal(c: SpawnChild, name: String, specialization: String, revenue_share_bps: u16) -> Option<HydraError> {
    if c.parent_wallet != c.parent_agent.wallet {
        Some(HydraError::Unauthorized)
    } else if byte_len(name) > MAX_NAME_LEN {
        Some(HydraError::NameTooLong)
    } else if byte_len(specialization) > MAX_SPEC_LEN {
        Some(HydraError::SpecTooLong)
    } else if revenue_share_bps > MAX_REVENUE_SHARE_BPS {
        Some(HydraError::InvalidRevenueShare)
    } else if !c.parent_agent.is_active {
        Some(HydraError::AgentInactive)
    } else if c.parent_agent.depth >= MAX_DEPTH {
        Some(HydraError::MaxDepthReached)
    } else if c.parent_agent.children_count == u64::MAX || c.registry.total_agents == u64::MAX
        || c.registry.total_spawns == u64::MAX {
        Some(HydraError::ArithmeticOverflow)
    } else {
        None
    }
}

/// The child agent that a successful spawn writes.
pub open spec fn spawned_child(c: SpawnChild, name: String, specialization: String, revenue_share_bps: u16) -> AgentAccount {
    AgentAccount {
        wallet: c.child_wallet,
        parent: c.parent_agent_key,
        name,
        specialization,
        total_earned: 0,
        total_distributed_to_parent: 0,
        children_count: 0,
        depth: (c.parent_agent.depth + 1) as u8,
        revenue_share_bps,
        is_active: true,
        created_at: c.now,
        bump: c.child_bump,
    }
}

/// The accounts after a successful spawn.
pub open spec fn spawned(c: SpawnChild, name: String, specialization: String, revenue_share_bps: u16) -> SpawnChild {
    SpawnChild {
        registry: Registry {
            total_agents: (c.registry.total_agents + 1) as u64,
            total_spawns: (c.registry.total_spawns + 1) as u64,
            ..c.registry
        },
        parent_agent: AgentAccount {
            children_count: (c.parent_agent.children_count + 1) as u64,
            ..c.parent_agent
        },
        child_agent: spawned_child(c, name, specialization, revenue_share_bps),
        ..c
    }
}

/// The parent agent spawns a child one level below it.
///
/// The child starts active with an empty ledger; the parent's child count
/// and the registry's agent and spawn counts each grow by one. A refused
/// spawn changes nothing and returns the first reason of `spawn_refusal`.
pub fn spawn_child(ctx: &mut SpawnChild, name: String, specialization: String, revenue_share_bps: u16) -> (r: Result<AgentSpawned, HydraError>)
    ensures
        match spawn_refusal(*old(ctx), name, specialization, revenue_share_bps) {
            Some(e) => r == Err::<AgentSpawned, HydraError>(e) && *final(ctx) == *old(ctx),
            None => {
                &&& *final(ctx) == spawned(*old(ctx), name, specialization, revenue_share_bps)
                &&& r == Ok::<AgentSpawned, HydraError>(AgentSpawned {
                    child: old(ctx).child_agent_key,
                    parent: old(ctx).parent_agent_key,
                    child_wallet: old(ctx).child_wallet,
                    name,
                    specialization,
                    depth: final(ctx).child_agent.depth,
                    revenue_share_bps,
                })
            },
        },
        r is Ok ==> {
            &&& final(ctx).child_agent.depth == old(ctx).parent_agent.depth + 1
            &&& final(ctx).parent_agent.children_count == old(ctx).parent_agent.children_count + 1
            &&& final(ctx).registry.total_agents == old(ctx).registry.total_agents + 1
            &&& final(ctx).registry.total_spawns == old(ctx).registry.total_spawns + 1
            &&& final(ctx).child_agent.wf()
        },
        old(ctx).parent_agent.depth >= MAX_DEPTH ==> r is Err && *final(ctx) == *old(ctx),
        old(ctx).registry.counters_le(final(ctx).registry),
        old(ctx).parent_agent.counters_le(final(ctx).parent_agent),
        old(ctx).registry.wf() && old(ctx).registry.has_root() ==> final(ctx).registry.wf(),
{
    if !ctx.parent_wallet.same_as(&ctx.parent_agent.wallet) {
        return Err(HydraError::Unauthorized);
    }
    if name.as_str().as_bytes().len() > MAX_NAME_LEN {
        return Err(HydraError::NameTooLong);
    }
    if specialization.as_str().as_bytes().len() > MAX_SPEC_LEN {
        return Err(HydraError::SpecTooLong);
    }
    if revenue_share_bps > MAX_REVENUE_SHARE_BPS {
        return Err(HydraError::InvalidRevenueShare);
    }
    if !ctx.parent_agent.is_active {
        return Err(HydraError::AgentInactive);
    }
    if ctx.parent_agent.depth >= MAX_DEPTH {
        return Err(HydraError::MaxDepthReached);
    }
    let children_count = match ctx.parent_agent.children_count.checked_add(1) {
        Some(v) => v,
        None => return Err(HydraError::ArithmeticOverflow),
    };
    let total_agents = match ctx.registry.total_agents.checked_add(1) {
        Some(v) => v,
        None => return Err(HydraError::ArithmeticOverflow),
    };
    let total_spawns = match ctx.registry.total_spawns.checked_add(1) {
        Some(v) => v,
        None => return Err(HydraError::ArithmeticOverflow),
    };
    let depth: u8 = ctx.parent_agent.depth + 1;
    let event = AgentSpawned {
        child: ctx.child_agent_key,
        parent: ctx.parent_agent_key,
        child_wallet: ctx.child_wallet,
        name: name.clone(),
        specialization: specialization.clone(),
        depth,
        revenue_share_bps,
    };
    ctx.child_agent = AgentAccount {
        wallet: ctx.child_wallet,
        parent: ctx.parent_agent_key,
        name,
        specialization,
        total_earned: 0,
        total_distributed_to_parent: 0,
        children_count: 0,
        depth,
        revenue_share_bps,
        is_active: true,
        created_at: ctx.now,
        bump: ctx.child_bump,
    };
    ctx.parent_agent.children_count = children_count;
    ctx.registry.total_agents = total_agents;
    ctx.registry.total_spawns = total_spawns;
    Ok(event)
}

} // verus!
