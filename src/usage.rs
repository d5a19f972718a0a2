use vstd::prelude::*;

use crate::policy::{ActionError, ExitConditions};

verus! {

/// Cumulative activity of one trial key.
#[derive(Clone, Copy, Debug, PartialEq, Eq, Structural)]
pub struct UsageStats {
    pub total_interactions: u64,
    pub gas_used: u64,
    pub deposit_used: u128,
}

/// The usage record of one trial key and the trial it belongs to.
#[derive(Clone, Copy, Debug, PartialEq, Eq, Structural)]
pub struct KeyUsage {
    pub trial_id: u32,
    pub usage_stats: UsageStats,
}

/// Whether one more interaction with this gas and deposit keeps every counter
/// in range.
pub open spec fn commit_fits(stats: UsageStats, gas: u64, deposit: u128) -> bool {
    &&& stats.total_interactions + 1 <= u64::MAX
    &&& stats.gas_used + gas <= u64::MAX
    &&& stats.deposit_used + deposit <= u128::MAX
}

/// The counters after one more interaction with this gas and deposit.
pub open spec fn committed(stats: UsageStats, gas: u64, deposit: u128) -> UsageStats {
    UsageStats {
        total_interactions: (stats.total_interactions + 1) as u64,
        gas_used: (stats.gas_used + gas) as u64,
        deposit_used: (stats.deposit_used + deposit) as u128,
    }
}

/// Whether the aggregate limits are passed by `stats`.
pub open spec fn exit_reached(exit: Option<ExitConditions>, stats: UsageStats) -> bool {
    exit is Some && exit->0.transaction_limit is Some
        && stats.total_interactions > exit->0.transaction_limit->0
}

/// Every counter of `b` is at least the one of `a`.
pub open spec fn usage_le(a: UsageStats, b: UsageStats) -> bool {
    &&& a.total_interactions <= b.total_interactions
    &&& a.gas_used <= b.gas_used
    &&& a.deposit_used <= b.deposit_used
}

impl UsageStats {
    /// A record with no activity.
    pub fn new() -> (r: UsageStats)
        ensures
            r == (UsageStats { total_interactions: 0, gas_used: 0, deposit_used: 0 }),
    {
        UsageStats { total_interactions: 0, gas_used: 0, deposit_used: 0 }
    }

    /// Accounts one approved interaction. On overflow nothing changes and
    /// `UsageOverflow` is returned.
    pub fn commit(&mut self, gas: u64, deposit: u128) -> (r: Result<(), ActionError>)
        ensures
            r is Ok <==> commit_fits(*old(self), gas, deposit),
            r is Ok ==> *final(self) == committed(*old(self), gas, deposit),
            r is Err ==> r == Err::<(), ActionError>(ActionError::UsageOverflow) && *final(self)
                == *old(self),
    {
        if self.total_interactions == u64::MAX || self.gas_used > u64::MAX - gas
            || self.deposit_used > u128::MAX - deposit {
            return Err(ActionError::UsageOverflow);
        }
        self.total_interactions = self.total_interactions + 1;
        self.gas_used = self.gas_used + gas;
        self.deposit_used = self.deposit_used + deposit;
        Ok(())
    }
}

/// Checks the aggregate limits against the counters after a commit.
pub fn exit_condition_reached(exit: &Option<ExitConditions>, stats: &UsageStats) -> (r: bool)
    ensures
        r == exit_reached(*exit, *stats),
{
    if let Some(conditions) = exit {
        if let Some(limit) = conditions.transaction_limit {
            return stats.total_interactions > limit;
        }
    }
    false
}

} // verus!
