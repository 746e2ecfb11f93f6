use vstd::prelude::*;
use crate::error::HydraError;
use crate::events::{AgentDeactivated, AgentRegistered};
use crate::pubkey::Pubkey;
use crate::state::{byte_len, AgentAccount, Registry, MAX_NAME_LEN, MAX_SPEC_LEN};

verus! {

/// The fresh registry account and the authority that creates it.
#[derive(Clone, Debug)]
pub struct Initialize {
    pub registry: Registry,
    /// The signer, who becomes the registry's authority.
    pub authority: Pubkey,
    /// Address bump of the registry account.
    pub registry_bump: u8,
}

/// The registry as `initialize` writes it.
pub open spec fn initialized(c: Initialize) -> Registry {
    Registry {
        authority: c.authority,
        total_agents: 0,
        total_earnings: 0,
        total_spawns: 0,
        bump: c.registry_bump,
    }
}

/// Creates the registry: the signer becomes its authority and every counter
/// starts at zero.
pub fn initialize(ctx: &mut Initialize) -> (r: Result<(), HydraError>)
    ensures
        r is Ok,
        *final(ctx) == (Initialize { registry: initialized(*old(ctx)), ..*old(ctx) }),
        final(ctx).registry.wf(),
{
    ctx.registry = Registry {
        authority: ctx.authority,
        total_agents: 0,
        total_earnings: 0,
        total_spawns: 0,
        bump: ctx.registry_bump,
    };
    Ok(())
}

/// The accounts and signer of a root registration.
#[derive(Clone, Debug)]
pub struct RegisterRootAgent {
    pub registry: Registry,
    /// The fresh account that receives the root agent.
    pub agent: AgentAccount,
    /// Address of the root agent's account.
    pub agent_key: Pubkey,
    /// The root agent's wallet.
    pub wallet: Pubkey,
    /// The signer: must be the registry's authority.
    pub authority: Pubkey,
    /// Address bump of the agent account.
    pub agent_bump: u8,
    /// Time of the instruction, in seconds since the epoch.
    pub now: i64,
}

/// The first reason, in the order they are checked, for which a root
/// registration is refused, or `None` if it goes through.
pub open spec fn root_refusal(c: RegisterRootAgent, name: String, specialization: String) -> Option<HydraError> {
    if c.authority != c.registry.authority {
        Some(HydraError::Unauthorized)
    } else if byte_len(name) > MAX_NAME_LEN {
        Some(HydraError::NameTooLong)
    } else if byte_len(specialization) > MAX_SPEC_LEN {
        Some(HydraError::SpecTooLong)
    } else if c.registry.has_root() {
        Some(HydraError::RootAlreadyRegistered)
    } else if c.registry.total_agents == u64::MAX {
        Some(HydraError::ArithmeticOverflow)
    } else {
        None
    }
}

/// The root agent that a successful registration writes.
pub open spec fn root_agent(c: RegisterRootAgent, name: String, specialization: String) -> AgentAccount {
    AgentAccount {
        wallet: c.wallet,
        parent: Pubkey::zero(),
        name,
        specialization,
        total_earned: 0,
        total_distributed_to_parent: 0,
        children_count: 0,
        depth: 0,
        revenue_share_bps: 0,
        is_active: true,
        created_at: c.now,
        bump: c.agent_bump,
    }
}

/// The accounts after a successful root registration.
pub open spec fn registered(c: RegisterRootAgent, name: String, specialization: String) -> RegisterRootAgent {
    RegisterRootAgent {
        registry: Registry { total_agents: (c.registry.total_agents + 1) as u64, ..c.registry },
        agent: root_agent(c, name, specialization),
        ..c
    }
}

/// The registry's authority registers the root agent: no parent, depth
/// zero, no revenue share, active, with an empty ledger. The registry counts
/// one more agent. There is only one root: a second registration is refused.
pub fn register_root_agent(ctx: &mut RegisterRootAgent, name: String, specialization: String) -> (r: Result<AgentRegistered, HydraError>)
    ensures
        match root_refusal(*old(ctx), name, specialization) {
            Some(e) => r == Err::<AgentRegistered, HydraError>(e) && *final(ctx) == *old(ctx),
            None => {
                &&& *final(ctx) == registered(*old(ctx), name, specialization)
                &&& r == Ok::<AgentRegistered, HydraError>(
                    AgentRegistered {
                        agent: old(ctx).agent_key,
                        wallet: old(ctx).wallet,
                        parent: Pubkey::zero(),
                        name,
                        specialization,
                        depth: 0,
                    },
                )
            },
        },
        r is Ok ==> final(ctx).agent.wf(),
        old(ctx).registry.has_root() ==> r is Err && *final(ctx) == *old(ctx),
        old(ctx).registry.counters_le(final(ctx).registry),
        old(ctx).registry.wf() ==> final(ctx).registry.wf(),
{
    if !ctx.authority.same_as(&ctx.registry.authority) {
        return Err(HydraError::Unauthorized);
    }
    if name.as_str().as_bytes().len() > MAX_NAME_LEN {
        return Err(HydraError::NameTooLong);
    }
    if specialization.as_str().as_bytes().len() > MAX_SPEC_LEN {
        return Err(HydraError::SpecTooLong);
    }
    if ctx.registry.total_agents > ctx.registry.total_spawns {
        return Err(HydraError::RootAlreadyRegistered);
    }
    let total_agents = match ctx.registry.total_agents.checked_add(1) {
        Some(v) => v,
        None => return Err(HydraError::ArithmeticOverflow),
    };
    let event = AgentRegistered {
        agent: ctx.agent_key,
        wallet: ctx.wallet,
        parent: Pubkey::sentinel(),
        name: name.clone(),
        specialization: specialization.clone(),
        depth: 0,
    };
    ctx.agent = AgentAccount {
        wallet: ctx.wallet,
        parent: Pubkey::sentinel(),
        name,
        specialization,
        total_earned: 0,
        total_distributed_to_parent: 0,
        children_count: 0,
        depth: 0,
        revenue_share_bps: 0,
        is_active: true,
        created_at: ctx.now,
        bump: ctx.agent_bump,
    };
    ctx.registry.total_agents = total_agents;
    Ok(event)
}

/// The accounts and signer of a deactivation.
#[derive(Clone, Debug)]
pub struct DeactivateAgent {
    pub registry: Registry,
    pub agent: AgentAccount,
    /// Address of the agent's account.
    pub agent_key: Pubkey,
    /// The signer: must be the registry's authority.
    pub authority: Pubkey,
}

/// Whether the signer may deactivate.
pub open spec fn may_deactivate(c: DeactivateAgent) -> bool {
    c.authority == c.registry.authority
}

/// The accounts after a deactivation.
pub open spec fn deactivated(c: DeactivateAgent) -> DeactivateAgent {
    DeactivateAgent { agent: AgentAccount { is_active: false, ..c.agent }, ..c }
}

/// The registry's authority deactivates an agent, whatever its current
/// state. Its children are not touched.
pub fn deactivate_agent(ctx: &mut DeactivateAgent) -> (r: Result<AgentDeactivated, HydraError>)
    ensures
        may_deactivate(*old(ctx)) ==> {
            &&& *final(ctx) == deactivated(*old(ctx))
            &&& r == Ok::<AgentDeactivated, HydraError>(
                AgentDeactivated { agent: old(ctx).agent_key, wallet: old(ctx).agent.wallet },
            )
        },
        !may_deactivate(*old(ctx)) ==> r == Err::<AgentDeactivated, HydraError>(
            HydraError::Unauthorized,
        ) && *final(ctx) == *old(ctx),
        old(ctx).agent.counters_le(final(ctx).agent),
        old(ctx).agent.same_identity(final(ctx).agent),
        final(ctx).registry == old(ctx).registry,
{
    if !ctx.authority.same_as(&ctx.registry.authority) {
        return Err(HydraError::Unauthorized);
    }
    ctx.agent.is_active = false;
    Ok(AgentDeactivated { agent: ctx.agent_key, wallet: ctx.agent.wallet })
}

} // verus!
