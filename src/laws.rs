//! Properties that hold across calls of the library.
use vstd::prelude::*;

use crate::action::{assembled, ActionView, NearActionView, OriginView};
use crate::contract::Contract;
use crate::policy::{verdict_of, ActionError, TrialDataView, Verdict};
use crate::usage::{usage_le, UsageStats};

verus! {

/// Every record of `before` is still in `after`, for the same trial, with
/// counters no smaller.
pub open spec fn usage_grows(before: Contract, after: Contract) -> bool {
    forall|k: Seq<u8>|
        #[trigger] before.usage_of(k) is Some ==> {
            &&& after.usage_of(k) is Some
            &&& after.usage_of(k)->0.trial_id == before.usage_of(k)->0.trial_id
            &&& usage_le(before.usage_of(k)->0.usage_stats, after.usage_of(k)->0.usage_stats)
        }
}

/// One call of `perform_action` never lowers a counter.
pub proof fn lemma_usage_monotone_step(
    before: Contract,
    after: Contract,
    pk: Seq<u8>,
    action: NearActionView,
    now: u64,
)
    requires
        before.steps_to(after, pk, action, now),
    ensures
        usage_grows(before, after),
{
}

/// Over any sequence of calls of `perform_action`, each by any key, no
/// counter of any key goes down.
pub proof fn lemma_usage_monotone(
    states: Seq<Contract>,
    calls: Seq<(Seq<u8>, NearActionView, u64)>,
)
    requires
        states.len() == calls.len() + 1,
        forall|i: int|
            0 <= i < calls.len() ==> #[trigger] states[i].steps_to(
                states[i + 1],
                calls[i].0,
                calls[i].1,
                calls[i].2,
            ),
    ensures
        usage_grows(states[0], states.last()),
    decreases calls.len(),
{
    if calls.len() > 0 {
        let n = calls.len() - 1;
        lemma_usage_monotone(states.drop_last(), calls.drop_last());
        assert(states.drop_last().last() == states[n]);
        assert(states[n].steps_to(states[n + 1], calls[n].0, calls[n].1, calls[n].2));
        lemma_usage_monotone_step(states[n], states[n + 1], calls[n].0, calls[n].1, calls[n].2);
    }
}

/// A call raises `total_interactions` of a key only when that key made the
/// call and the policy allowed it, and then by exactly one.
pub proof fn lemma_no_increment_without_allow(
    before: Contract,
    after: Contract,
    pk: Seq<u8>,
    action: NearActionView,
    now: u64,
    k: Seq<u8>,
)
    requires
        before.steps_to(after, pk, action, now),
        before.usage_of(k) is Some,
        after.usage_of(k) is Some,
        after.usage_of(k)->0.usage_stats.total_interactions
            != before.usage_of(k)->0.usage_stats.total_interactions,
    ensures
        k == pk,
        before.verdict_for(pk, action, now) == Some(Verdict::Allow),
        after.usage_of(k)->0.usage_stats.total_interactions
            == before.usage_of(k)->0.usage_stats.total_interactions + 1,
{
}

/// The verdict does not depend on usage: after an allowed action is
/// committed, evaluating the same request again gives the same verdict.
pub proof fn lemma_reevaluation_after_commit(
    before: Contract,
    after: Contract,
    pk: Seq<u8>,
    action: NearActionView,
    now: u64,
)
    requires
        before.verdict_for(pk, action, now) == Some(Verdict::Allow),
        before.steps_to(after, pk, action, now),
    ensures
        after.verdict_for(pk, action, now) == before.verdict_for(pk, action, now),
{
}

/// Once the expiration time has come, every request under the policy is
/// refused as expired, whatever else it holds.
pub proof fn lemma_expired_policy_denies(policy: TrialDataView, action: NearActionView, now: u64)
    requires
        policy.expiration_time is Some,
        now >= policy.expiration_time->0,
    ensures
        verdict_of(policy, action, now) == Verdict::Deny(ActionError::Expired),
{
}

/// A stored key whose trial has expired gets `Expired`, and the store
/// stays unchanged.
pub proof fn lemma_expired_key_denied(
    before: Contract,
    after: Contract,
    pk: Seq<u8>,
    action: NearActionView,
    now: u64,
)
    requires
        before.policy_for(pk) is Some,
        before.policy_for(pk)->0.expiration_time is Some,
        now >= before.policy_for(pk)->0.expiration_time->0,
        before.steps_to(after, pk, action, now),
    ensures
        before.gate(pk, action, now) == Err::<UsageStats, ActionError>(ActionError::Expired),
        after == before,
{
}

/// A method outside the allowed set is refused on an unexpired policy,
/// even when the contract and the limits are satisfied.
pub proof fn lemma_method_not_allowed(policy: TrialDataView, action: NearActionView, now: u64)
    requires
        !(policy.expiration_time is Some && now >= policy.expiration_time->0),
        !policy.allowed_methods.contains(action.method_name),
    ensures
        verdict_of(policy, action, now) == Verdict::Deny(ActionError::MethodNotAllowed),
{
}

/// A refusal names the first failing check, in the order expiration,
/// method, contract, gas, deposit: every check before it passed.
pub proof fn lemma_denial_names_first_failure(
    policy: TrialDataView,
    action: NearActionView,
    now: u64,
)
    ensures
        ({
            let v = verdict_of(policy, action, now);
            let live = !(policy.expiration_time is Some && now >= policy.expiration_time->0);
            let method_ok = policy.allowed_methods.contains(action.method_name);
            let contract_ok = policy.allowed_contracts.contains(action.contract_id);
            let gas_ok = !(policy.max_gas is Some && action.gas_attached > policy.max_gas->0);
            let deposit_ok = !(policy.max_deposit is Some && action.deposit_attached
                > policy.max_deposit->0);
            &&& v == Verdict::Deny(ActionError::Expired) <==> !live
            &&& v == Verdict::Deny(ActionError::MethodNotAllowed) <==> live && !method_ok
            &&& v == Verdict::Deny(ActionError::ContractNotAllowed) <==> live && method_ok
                && !contract_ok
            &&& v == Verdict::Deny(ActionError::GasExceeded) <==> live && method_ok && contract_ok
                && !gas_ok
            &&& v == Verdict::Deny(ActionError::DepositExceeded) <==> live && method_ok
                && contract_ok && gas_ok && !deposit_ok
            &&& v == Verdict::Allow <==> live && method_ok && contract_ok && gas_ok && deposit_ok
        }),
{
}

/// Assembly is deterministic: equal actions, call data and origins give
/// equal unsigned transactions.
pub proof fn lemma_assemble_deterministic(
    a1: ActionView,
    a2: ActionView,
    args1: Seq<u8>,
    args2: Seq<u8>,
    o1: OriginView,
    o2: OriginView,
)
    requires
        a1 == a2,
        args1 == args2,
        o1 == o2,
    ensures
        assembled(a1, args1, o1) == assembled(a2, args2, o2),
{
}

} // verus!
