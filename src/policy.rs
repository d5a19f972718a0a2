use vstd::prelude::*;

use crate::action::{NearAction, NearActionView};

verus! {

/// Why a request was refused.
#[derive(Clone, Copy, Debug, PartialEq, Eq, Structural)]
pub enum ActionError {
    /// The signing key has no usage record.
    AccessDenied,
    /// The usage record points at a trial that is not stored.
    TrialDataNotFound,
    Expired,
    MethodNotAllowed,
    ContractNotAllowed,
    GasExceeded,
    DepositExceeded,
    ExitConditionReached,
    /// A usage counter would leave its integer range.
    UsageOverflow,
}

/// Outcome of the read-only policy gate.
#[derive(Clone, Copy, Debug, PartialEq, Eq, Structural)]
pub enum Verdict {
    Allow,
    Deny(ActionError),
}

/// Aggregate limits checked against cumulative usage.
#[derive(Clone, Copy, Debug, PartialEq, Eq, Structural)]
pub struct ExitConditions {
    /// Largest number of approved interactions over the trial's lifetime.
    pub transaction_limit: Option<u64>,
}

/// The immutable rule set of one trial.
#[derive(Clone, Debug, PartialEq, Eq)]
pub struct TrialData {
    pub allowed_methods: Vec<String>,
    pub allowed_contracts: Vec<String>,
    pub max_gas: Option<u64>,
    pub max_deposit: Option<u128>,
    pub expiration_time: Option<u64>,
    pub exit_conditions: Option<ExitConditions>,
    pub chain_id: u64,
}

/// Mathematical model of a [`TrialData`].
pub struct TrialDataView {
    pub allowed_methods: Seq<Seq<char>>,
    pub allowed_contracts: Seq<Seq<char>>,
    pub max_gas: Option<u64>,
    pub max_deposit: Option<u128>,
    pub expiration_time: Option<u64>,
    pub exit_conditions: Option<ExitConditions>,
    pub chain_id: u64,
}

impl View for TrialData {
    type V = TrialDataView;

    open spec fn view(&self) -> TrialDataView {
        TrialDataView {
            allowed_methods: self.allowed_methods@.map_values(|s: String| s@),
            allowed_contracts: self.allowed_contracts@.map_values(|s: String| s@),
            max_gas: self.max_gas,
            max_deposit: self.max_deposit,
            expiration_time: self.expiration_time,
            exit_conditions: self.exit_conditions,
            chain_id: self.chain_id,
        }
    }
}

/// The verdict of a policy on a request at time `now`. The checks run in a
/// fixed order and the first that fails names the reason.
pub open spec fn verdict_of(policy: TrialDataView, action: NearActionView, now: u64) -> Verdict {
    if policy.expiration_time is Some && now >= policy.expiration_time->0 {
        Verdict::Deny(ActionError::Expired)
    } else if !policy.allowed_methods.contains(action.method_name) {
        Verdict::Deny(ActionError::MethodNotAllowed)
    } else if !policy.allowed_contracts.contains(action.contract_id) {
        Verdict::Deny(ActionError::ContractNotAllowed)
    } else if policy.max_gas is Some && action.gas_attached > policy.max_gas->0 {
        Verdict::Deny(ActionError::GasExceeded)
    } else if policy.max_deposit is Some && action.deposit_attached > policy.max_deposit->0 {
        Verdict::Deny(ActionError::DepositExceeded)
    } else {
        Verdict::Allow
    }
}

/// Whether `name` is one of `names`.
fn contains_name(names: &Vec<String>, name: &String) -> (r: bool)
    ensures
        r == names@.map_values(|s: String| s@).contains(name@),
{
    let ghost model = names@.map_values(|s: String| s@);
    let mut i: usize = 0;
    while i < names.len()
        invariant
            0 <= i <= names.len(),
            model == names@.map_values(|s: String| s@),
            forall|j: int| 0 <= j < i ==> model[j] != name@,
        decreases names.len() - i,
    {
        if names[i] == *name {
            assert(model[i as int] == name@);
            return true;
        }
        i += 1;
    }
    false
}

/// Decides whether `policy` permits `action` at time `now`, without side effects.
pub fn evaluate(policy: &TrialData, action: &NearAction, now: u64) -> (r: Verdict)
    ensures
        r == verdict_of(policy@, action@, now),
{
    if let Some(expiration_time) = policy.expiration_time {
        if now >= expiration_time {
            return Verdict::Deny(ActionError::Expired);
        }
    }
    if !contains_name(&policy.allowed_methods, &action.method_name) {
        return Verdict::Deny(ActionError::MethodNotAllowed);
    }
    if !contains_name(&policy.allowed_contracts, &action.contract_id) {
        return Verdict::Deny(ActionError::ContractNotAllowed);
    }
    if let Some(max_gas) = policy.max_gas {
        if action.gas_attached > max_gas {
            return Verdict::Deny(ActionError::GasExceeded);
        }
    }
    if let Some(max_deposit) = policy.max_deposit {
        if action.deposit_attached > max_deposit {
            return Verdict::Deny(ActionError::DepositExceeded);
        }
    }
    Verdict::Allow
}

} // verus!
