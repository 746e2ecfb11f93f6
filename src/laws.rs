use vstd::prelude::*;
use crate::admin::{deactivated, may_deactivate, DeactivateAgent};
use crate::state::{AgentAccount, Registry};

verus! {

/// Deactivation is idempotent: deactivating an agent a second time leaves
/// the accounts exactly as the first time did, and the second call is
/// authorized whenever the first one was, so it succeeds and emits its event
/// again.
pub proof fn lemma_deactivate_idempotent(c: DeactivateAgent)
    ensures
        deactivated(deactivated(c)) == deactivated(c),
        may_deactivate(deactivated(c)) == may_deactivate(c),
        !deactivated(c).agent.is_active,
{
}

/// The registry's counters never decrease: along any history of the
/// registry in which no step lowers a counter (as every instruction that
/// writes an existing registry ensures), a later state has every counter at
/// least as high as an earlier one.
pub proof fn lemma_registry_counters_monotone(history: Seq<Registry>, i: int, j: int)
    requires
        forall|k: int| 0 <= k < history.len() - 1 ==> #[trigger] history[k].counters_le(history[k + 1]),
        0 <= i <= j < history.len(),
    ensures
        history[i].counters_le(history[j]),
    decreases j - i,
{
    if i < j {
        lemma_registry_counters_monotone(history, i, j - 1);
        let k = j - 1;
        assert(history[k].counters_le(history[k + 1]));
    }
}

/// An agent's ledger counters never decrease: along any history of an agent
/// account in which no step lowers a counter (as every instruction that
/// writes an existing agent ensures), a later state has earnings,
/// distributions and children at least as high as an earlier one.
pub proof fn lemma_agent_counters_monotone(history: Seq<AgentAccount>, i: int, j: int)
    requires
        forall|k: int| 0 <= k < history.len() - 1 ==> #[trigger] history[k].counters_le(history[k + 1]),
        0 <= i <= j < history.len(),
    ensures
        history[i].counters_le(history[j]),
    decreases j - i,
{
    if i < j {
        lemma_agent_counters_monotone(history, i, j - 1);
        let k = j - 1;
        assert(history[k].counters_le(history[k + 1]));
    }
}

} // verus!
