use vstd::prelude::*;
use crate::error::HydraError;
use crate::events::{EarningRecorded, RevenueDistributed};
use crate::pubkey::Pubkey;
use crate::state::{AgentAccount, Registry};

verus! {

/// The accounts and signer of an earning record.
#[derive(Clone, Debug)]
pub struct RecordEarning {
    pub registry: Registry,
    pub agent: AgentAccount,
    /// Address of the agent's account.
    pub agent_key: Pubkey,
    /// The signer: must be the agent's wallet.
    pub wallet: Pubkey,
}

/// The first reason, in the order they are checked, for which an earning
/// record is refused, or `None` if it goes through.
pub open spec fn earning_refusal(c: RecordEarning, amount: u64) -> Option<HydraError> {
    if c.wallet != c.agent.wallet {
        Some(HydraError::Unauthorized)
    } else if amount == 0 {
        Some(HydraError::ZeroAmount)
    } else if !c.agent.is_active {
        Some(HydraError::AgentInactive)
    } else if c.agent.total_earned + amount > u64::MAX || c.registry.total_earnings + amount
        > u64::MAX {
        Some(HydraError::ArithmeticOverflow)
    } else {
        None
    }
}

/// The accounts after a successful earning record.
pub open spec fn earned(c: RecordEarning, amount: u64) -> RecordEarning {
    RecordEarning {
        registry: Registry {
            total_earnings: (c.registry.total_earnings + amount) as u64,
            ..c.registry
        },
        agent: AgentAccount { total_earned: (c.agent.total_earned + amount) as u64, ..c.agent },
        ..c
    }
}

/// The agent appends `amount` to its own earnings; the registry's total
/// earnings grow by the same amount. No currency moves.
pub fn record_earning(ctx: &mut RecordEarning, amount: u64) -> (r: Result<EarningRecorded, HydraError>)
    ensures
        match earning_refusal(*old(ctx), amount) {
            Some(e) => r == Err::<EarningRecorded, HydraError>(e) && *final(ctx) == *old(ctx),
            None => {
                &&& *final(ctx) == earned(*old(ctx), amount)
                &&& r == Ok::<EarningRecorded, HydraError>(
                    EarningRecorded {
                        agent: old(ctx).agent_key,
                        amount,
                        total_earned: final(ctx).agent.total_earned,
                    },
                )
            },
        },
        !old(ctx).agent.is_active ==> *final(ctx) == *old(ctx),
        old(ctx).wallet == old(ctx).agent.wallet && amount > 0 && !old(ctx).agent.is_active ==> r
            == Err::<EarningRecorded, HydraError>(HydraError::AgentInactive),
        old(ctx).registry.counters_le(final(ctx).registry),
        old(ctx).agent.counters_le(final(ctx).agent),
        old(ctx).agent.same_identity(final(ctx).agent),
        final(ctx).registry.wf() == old(ctx).registry.wf(),
        final(ctx).registry.has_root() == old(ctx).registry.has_root(),
{
    if !ctx.wallet.same_as(&ctx.agent.wallet) {
        return Err(HydraError::Unauthorized);
    }
    if amount == 0 {
        return Err(HydraError::ZeroAmount);
    }
    if !ctx.agent.is_active {
        return Err(HydraError::AgentInactive);
    }
    let total_earned = match ctx.agent.total_earned.checked_add(amount) {
        Some(v) => v,
        None => return Err(HydraError::ArithmeticOverflow),
    };
    let total_earnings = match ctx.registry.total_earnings.checked_add(amount) {
        Some(v) => v,
        None => return Err(HydraError::ArithmeticOverflow),
    };
    ctx.agent.total_earned = total_earned;
    ctx.registry.total_earnings = total_earnings;
    Ok(EarningRecorded { agent: ctx.agent_key, amount, total_earned })
}

/// The accounts and signer of a distribution from a child to its parent.
#[derive(Clone, Debug)]
pub struct DistributeToParent {
    pub child_agent: AgentAccount,
    /// Address of the child agent's account.
    pub child_agent_key: Pubkey,
    pub parent_agent: AgentAccount,
    /// Address of the parent agent's account: must be the child's recorded
    /// parent.
    pub parent_agent_key: Pubkey,
    /// The signer: must be the child agent's wallet.
    pub child_wallet: Pubkey,
    /// Must be the wallet of the child's recorded parent.
    pub parent_wallet: Pubkey,
}

/// A movement of native currency between two wallets.
#[derive(Clone, Copy, Debug, PartialEq, Eq)]
pub struct Transfer {
    pub from: Pubkey,
    pub to: Pubkey,
    pub lamports: u64,
}

/// The first reason, in the order they are checked, for which a
/// distribution is refused, or `None` if it may go ahead.
pub open spec fn distribution_refusal(c: DistributeToParent, amount: u64) -> Option<HydraError> {
    if c.child_wallet != c.child_agent.wallet {
        Some(HydraError::Unauthorized)
    } else if amount == 0 {
        Some(HydraError::ZeroAmount)
    } else if !c.child_agent.is_active {
        Some(HydraError::AgentInactive)
    } else if c.child_agent.parent == Pubkey::zero() {
        Some(HydraError::NoParentAgent)
    } else if c.parent_agent_key != c.child_agent.parent || c.parent_wallet != c.parent_agent.wallet {
        Some(HydraError::ParentMismatch)
    } else if c.child_agent.total_distributed_to_parent + amount > u64::MAX {
        Some(HydraError::ArithmeticOverflow)
    } else {
        None
    }
}

/// The accounts after a settled distribution.
pub open spec fn distributed(c: DistributeToParent, amount: u64) -> DistributeToParent {
    DistributeToParent {
        child_agent: AgentAccount {
            total_distributed_to_parent: (c.child_agent.total_distributed_to_parent
                + amount) as u64,
            ..c.child_agent
        },
        ..c
    }
}

/// Checks a distribution of `amount` from the child to its parent and
/// returns the transfer to perform, from the child's wallet to the parent's
/// wallet. No account changes here: the ledger is written by
/// `settle_distribution` once the transfer has gone through.
pub fn distribute_to_parent(ctx: &DistributeToParent, amount: u64) -> (r: Result<Transfer, HydraError>)
    ensures
        match distribution_refusal(*ctx, amount) {
            Some(e) => r == Err::<Transfer, HydraError>(e),
            None => r == Ok::<Transfer, HydraError>(
                Transfer { from: ctx.child_wallet, to: ctx.parent_wallet, lamports: amount },
            ),
        },
        ctx.child_agent.parent == Pubkey::zero() ==> r is Err,
        ctx.child_wallet == ctx.child_agent.wallet && amount > 0 && ctx.child_agent.is_active
            && ctx.child_agent.parent == Pubkey::zero() ==> r == Err::<Transfer, HydraError>(
            HydraError::NoParentAgent,
        ),
        r matches Ok(t) ==> t.to == ctx.parent_agent.wallet && ctx.parent_agent_key
            == ctx.child_agent.parent,
{
    if !ctx.child_wallet.same_as(&ctx.child_agent.wallet) {
        return Err(HydraError::Unauthorized);
    }
    if amount == 0 {
        return Err(HydraError::ZeroAmount);
    }
    if !ctx.child_agent.is_active {
        return Err(HydraError::AgentInactive);
    }
    let sentinel = Pubkey::sentinel();
    if ctx.child_agent.parent.same_as(&sentinel) {
        return Err(HydraError::NoParentAgent);
    }
    if !ctx.parent_agent_key.same_as(&ctx.child_agent.parent) || !ctx.parent_wallet.same_as(
        &ctx.parent_agent.wallet,
    ) {
        return Err(HydraError::ParentMismatch);
    }
    if ctx.child_agent.total_distributed_to_parent.checked_add(amount).is_none() {
        return Err(HydraError::ArithmeticOverflow);
    }
    Ok(Transfer { from: ctx.child_wallet, to: ctx.parent_wallet, lamports: amount })
}

/// Writes a distribution of `amount` into the child's ledger, given whether
/// the transfer returned by `distribute_to_parent` went through. A failed
/// transfer leaves every account as it was; so does a refusal, with the
/// same reasons as `distribute_to_parent`.
pub fn settle_distribution(ctx: &mut DistributeToParent, amount: u64, transferred: bool) -> (r: Result<RevenueDistributed, HydraError>)
    ensures
        !transferred ==> r == Err::<RevenueDistributed, HydraError>(HydraError::TransferFailed)
            && *final(ctx) == *old(ctx),
        transferred ==> match distribution_refusal(*old(ctx), amount) {
            Some(e) => r == Err::<RevenueDistributed, HydraError>(e) && *final(ctx) == *old(ctx),
            None => {
                &&& *final(ctx) == distributed(*old(ctx), amount)
                &&& r == Ok::<RevenueDistributed, HydraError>(
                    RevenueDistributed {
                        child: old(ctx).child_agent_key,
                        parent: old(ctx).parent_agent_key,
                        amount,
                        total_distributed: final(ctx).child_agent.total_distributed_to_parent,
                    },
                )
            },
        },
        r is Err ==> *final(ctx) == *old(ctx),
        old(ctx).child_agent.counters_le(final(ctx).child_agent),
        old(ctx).child_agent.same_identity(final(ctx).child_agent),
        final(ctx).child_agent.is_active == old(ctx).child_agent.is_active,
{
    if !transferred {
        return Err(HydraError::TransferFailed);
    }
    match distribute_to_parent(ctx, amount) {
        Err(e) => Err(e),
        Ok(_) => {
            let total = ctx.child_agent.total_distributed_to_parent + amount;
            ctx.child_agent.total_distributed_to_parent = total;
            Ok(
                RevenueDistributed {
                    child: ctx.child_agent_key,
                    parent: ctx.parent_agent_key,
                    amount,
                    total_distributed: total,
                },
            )
        },
    }
}

} // verus!
