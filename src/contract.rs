use vstd::prelude::*;

use crate::action::{
    assembled, copy_bytes, Action, ActionView, NearAction, NearActionView, Origin, OriginView,
    UnsignedTransaction, UnsignedTransactionView,
};
use crate::policy::{evaluate, verdict_of, ActionError, TrialData, TrialDataView, Verdict};
use crate::usage::{commit_fits, committed, exit_condition_reached, exit_reached, KeyUsage, UsageStats};

verus! {

/// Deposit attached to each request to the signing service: one NEAR, in yoctoNEAR.
pub const SIGN_REQUEST_DEPOSIT: u128 = 1_000_000_000_000_000_000_000_000;

/// Gas attached to each request to the signing service: 30 Tgas.
pub const SIGN_REQUEST_GAS: u64 = 30_000_000_000_000;

/// The usage record stored for one public key.
#[derive(Clone, Debug, PartialEq, Eq)]
pub struct KeyEntry {
    pub public_key: Vec<u8>,
    pub usage: KeyUsage,
}

/// The policy stored under one trial identifier.
#[derive(Clone, Debug, PartialEq, Eq)]
pub struct TrialEntry {
    pub trial_id: u32,
    pub data: TrialData,
}

/// The policy store: usage records by public key and policies by trial
/// identifier. A lookup finds the first entry with the key.
#[derive(Clone, Debug, PartialEq, Eq)]
pub struct Contract {
    pub key_usage_by_pk: Vec<KeyEntry>,
    pub trial_data_by_id: Vec<TrialEntry>,
    /// Account of the signing service.
    pub mpc_contract: String,
}

/// What the host tells about the current call.
#[derive(Clone, Debug, PartialEq, Eq)]
pub struct CallContext {
    pub signer_public_key: Vec<u8>,
    pub block_timestamp: u64,
    pub current_account_id: String,
    /// Nonce of the sending account, from the account-state provider.
    pub nonce: u64,
    /// Recent block the transaction is anchored at.
    pub block_hash: [u8; 32],
}

/// An approved transaction and the key it is to be signed for.
#[derive(Clone, Debug, PartialEq, Eq)]
pub struct SignRequest {
    pub transaction: UnsignedTransaction,
    pub public_key: Vec<u8>,
}

/// Mathematical model of a [`SignRequest`].
pub struct SignRequestView {
    pub transaction: UnsignedTransactionView,
    pub public_key: Seq<u8>,
}

impl View for SignRequest {
    type V = SignRequestView;

    open spec fn view(&self) -> SignRequestView {
        SignRequestView { transaction: self.transaction@, public_key: self.public_key@ }
    }
}

/// `i` is the first index of `keys` that holds `pk`.
pub open spec fn is_first_key(keys: Seq<KeyEntry>, i: int, pk: Seq<u8>) -> bool {
    &&& 0 <= i < keys.len()
    &&& keys[i].public_key@ == pk
    &&& forall|j: int| 0 <= j < i ==> keys[j].public_key@ != pk
}

/// `i` is the first index of `trials` that holds `id`.
pub open spec fn is_first_trial(trials: Seq<TrialEntry>, i: int, id: u32) -> bool {
    &&& 0 <= i < trials.len()
    &&& trials[i].trial_id == id
    &&& forall|j: int| 0 <= j < i ==> trials[j].trial_id != id
}

/// The action a request describes.
pub open spec fn requested(
    contract_id: Seq<char>,
    method_name: Seq<char>,
    gas: u64,
    deposit: u128,
) -> NearActionView {
    NearActionView {
        method_name: method_name,
        contract_id: contract_id,
        gas_attached: gas,
        deposit_attached: deposit,
    }
}

impl Contract {
    /// The usage record of `pk`, if one is stored.
    pub open spec fn usage_of(&self, pk: Seq<u8>) -> Option<KeyUsage> {
        if exists|i: int| is_first_key(self.key_usage_by_pk@, i, pk) {
            Some(
                self.key_usage_by_pk@[choose|i: int|
                    is_first_key(self.key_usage_by_pk@, i, pk)].usage,
            )
        } else {
            None
        }
    }

    /// The policy stored under `id`, if any.
    pub open spec fn trial_of(&self, id: u32) -> Option<TrialDataView> {
        if exists|i: int| is_first_trial(self.trial_data_by_id@, i, id) {
            Some(
                self.trial_data_by_id@[choose|i: int|
                    is_first_trial(self.trial_data_by_id@, i, id)].data@,
            )
        } else {
            None
        }
    }

    /// The policy that governs `pk`, if its record and its trial are stored.
    pub open spec fn policy_for(&self, pk: Seq<u8>) -> Option<TrialDataView> {
        match self.usage_of(pk) {
            Some(ku) => self.trial_of(ku.trial_id),
            None => None,
        }
    }

    /// The verdict of the policy that governs `pk` on `action` at `now`.
    pub open spec fn verdict_for(&self, pk: Seq<u8>, action: NearActionView, now: u64) -> Option<
        Verdict,
    > {
        match self.policy_for(pk) {
            Some(p) => Some(verdict_of(p, action, now)),
            None => None,
        }
    }

    /// Policy check and accounting as one step: the counters of `pk` after
    /// the action, or the error that stops it before any state changes.
    pub open spec fn gate(&self, pk: Seq<u8>, action: NearActionView, now: u64) -> Result<
        UsageStats,
        ActionError,
    > {
        match self.usage_of(pk) {
            None => Err(ActionError::AccessDenied),
            Some(ku) => match self.trial_of(ku.trial_id) {
                None => Err(ActionError::TrialDataNotFound),
                Some(p) => match verdict_of(p, action, now) {
                    Verdict::Deny(e) => Err(e),
                    Verdict::Allow => if commit_fits(
                        ku.usage_stats,
                        action.gas_attached,
                        action.deposit_attached,
                    ) {
                        Ok(committed(ku.usage_stats, action.gas_attached, action.deposit_attached))
                    } else {
                        Err(ActionError::UsageOverflow)
                    },
                },
            },
        }
    }

    /// `self` is `before` with the counters of `pk` set to `stats`, and
    /// nothing else changed.
    pub open spec fn is_commit_of(&self, before: Contract, pk: Seq<u8>, stats: UsageStats) -> bool {
        &&& before.usage_of(pk) is Some
        &&& self.usage_of(pk) == Some(
            KeyUsage { trial_id: before.usage_of(pk)->0.trial_id, usage_stats: stats },
        )
        &&& forall|k: Seq<u8>| k != pk ==> #[trigger] self.usage_of(k) == before.usage_of(k)
        &&& self.trial_data_by_id == before.trial_data_by_id
        &&& self.mpc_contract == before.mpc_contract
    }

    /// How a call of `perform_action` by `pk` changes the store.
    pub open spec fn steps_to(&self, after: Contract, pk: Seq<u8>, action: NearActionView, now: u64) -> bool {
        match self.gate(pk, action, now) {
            Err(_) => after == *self,
            Ok(stats) => after.is_commit_of(*self, pk, stats),
        }
    }

    /// The transaction sent for an approved request.
    pub open spec fn expected_request(
        &self,
        ctx: CallContextView,
        action: NearActionView,
        args: Seq<u8>,
    ) -> SignRequestView {
        let origin = OriginView {
            account_id: ctx.current_account_id,
            public_key: ctx.signer_public_key,
            nonce: ctx.nonce,
            block_hash: ctx.block_hash,
            chain_id: self.policy_for(ctx.signer_public_key)->0.chain_id,
        };
        SignRequestView {
            transaction: assembled(ActionView::NEAR(action), args, origin),
            public_key: ctx.signer_public_key,
        }
    }
}

/// Mathematical model of a [`CallContext`].
pub struct CallContextView {
    pub signer_public_key: Seq<u8>,
    pub block_timestamp: u64,
    pub current_account_id: Seq<char>,
    pub nonce: u64,
    pub block_hash: [u8; 32],
}

impl View for CallContext {
    type V = CallContextView;

    open spec fn view(&self) -> CallContextView {
        CallContextView {
            signer_public_key: self.signer_public_key@,
            block_timestamp: self.block_timestamp,
            current_account_id: self.current_account_id@,
            nonce: self.nonce,
            block_hash: self.block_hash,
        }
    }
}

/// Whether two byte strings are equal.
fn bytes_equal(a: &Vec<u8>, b: &Vec<u8>) -> (r: bool)
    ensures
        r == (a@ == b@),
{
    if a.len() != b.len() {
        return false;
    }
    let mut i: usize = 0;
    while i < a.len()
        invariant
            0 <= i <= a.len(),
            a.len() == b.len(),
            forall|j: int| 0 <= j < i ==> a@[j] == b@[j],
        decreases a.len() - i,
    {
        if a[i] != b[i] {
            return false;
        }
        i += 1;
    }
    assert(a@ =~= b@);
    true
}

impl Contract {
    /// An empty store that sends signing requests to `mpc_contract`.
    pub fn new(mpc_contract: String) -> (r: Contract)
        ensures
            r.key_usage_by_pk@.len() == 0,
            r.trial_data_by_id@.len() == 0,
            r.mpc_contract == mpc_contract,
    {
        Contract { key_usage_by_pk: Vec::new(), trial_data_by_id: Vec::new(), mpc_contract }
    }

    /// Index of the first usage record of `pk`.
    fn find_key(&self, pk: &Vec<u8>) -> (r: Option<usize>)
        ensures
            match r {
                Some(i) => is_first_key(self.key_usage_by_pk@, i as int, pk@),
                None => forall|j: int|
                    0 <= j < self.key_usage_by_pk@.len() ==> self.key_usage_by_pk@[j].public_key@
                        != pk@,
            },
    {
        let mut i: usize = 0;
        while i < self.key_usage_by_pk.len()
            invariant
                0 <= i <= self.key_usage_by_pk@.len(),
                forall|j: int| 0 <= j < i ==> self.key_usage_by_pk@[j].public_key@ != pk@,
            decreases self.key_usage_by_pk@.len() - i,
        {
            if bytes_equal(&self.key_usage_by_pk[i].public_key, pk) {
                return Some(i);
            }
            i += 1;
        }
        None
    }

    /// Index of the first policy stored under `id`.
    fn find_trial(&self, id: u32) -> (r: Option<usize>)
        ensures
            match r {
                Some(i) => is_first_trial(self.trial_data_by_id@, i as int, id),
                None => forall|j: int|
                    0 <= j < self.trial_data_by_id@.len() ==> self.trial_data_by_id@[j].trial_id
                        != id,
            },
    {
        let mut i: usize = 0;
        while i < self.trial_data_by_id.len()
            invariant
                0 <= i <= self.trial_data_by_id@.len(),
                forall|j: int| 0 <= j < i ==> self.trial_data_by_id@[j].trial_id != id,
            decreases self.trial_data_by_id@.len() - i,
        {
            if self.trial_data_by_id[i].trial_id == id {
                return Some(i);
            }
            i += 1;
        }
        None
    }
}

proof fn lemma_first_key_unique(keys: Seq<KeyEntry>, i: int, j: int, pk: Seq<u8>)
    requires
        is_first_key(keys, i, pk),
        is_first_key(keys, j, pk),
    ensures
        i == j,
{
}

proof fn lemma_first_trial_unique(trials: Seq<TrialEntry>, i: int, j: int, id: u32)
    requires
        is_first_trial(trials, i, id),
        is_first_trial(trials, j, id),
    ensures
        i == j,
{
}

impl Contract {
    /// The record found at the first index holding `pk` is the one `usage_of` gives.
    proof fn lemma_usage_at(&self, i: int, pk: Seq<u8>)
        requires
            is_first_key(self.key_usage_by_pk@, i, pk),
        ensures
            self.usage_of(pk) == Some(self.key_usage_by_pk@[i].usage),
    {
        let c = choose|c: int| is_first_key(self.key_usage_by_pk@, c, pk);
        lemma_first_key_unique(self.key_usage_by_pk@, i, c, pk);
    }

    /// The policy found at the first index holding `id` is the one `trial_of` gives.
    proof fn lemma_trial_at(&self, i: int, id: u32)
        requires
            is_first_trial(self.trial_data_by_id@, i, id),
        ensures
            self.trial_of(id) == Some(self.trial_data_by_id@[i].data@),
    {
        let c = choose|c: int| is_first_trial(self.trial_data_by_id@, c, id);
        lemma_first_trial_unique(self.trial_data_by_id@, i, c, id);
    }

    /// Sets the counters of the record at `i` to `stats`.
    fn store_usage(&mut self, i: usize, stats: UsageStats)
        requires
            is_first_key(old(self).key_usage_by_pk@, i as int, old(self).key_usage_by_pk@[i as int].public_key@),
        ensures
            final(self).is_commit_of(
                *old(self),
                old(self).key_usage_by_pk@[i as int].public_key@,
                stats,
            ),
    {
        let ghost pk = self.key_usage_by_pk@[i as int].public_key@;
        let ghost before = *self;
        let trial_id = self.key_usage_by_pk[i].usage.trial_id;
        let public_key = copy_bytes(&self.key_usage_by_pk[i].public_key);
        self.key_usage_by_pk.set(
            i,
            KeyEntry { public_key, usage: KeyUsage { trial_id, usage_stats: stats } },
        );
        proof {
            let old_keys = before.key_usage_by_pk@;
            let new_keys = self.key_usage_by_pk@;
            assert forall|j: int| 0 <= j < new_keys.len() implies new_keys[j].public_key@
                == old_keys[j].public_key@ by {}
            before.lemma_usage_at(i as int, pk);
            self.lemma_usage_at(i as int, pk);
            assert forall|k: Seq<u8>| k != pk implies #[trigger] self.usage_of(k) == before.usage_of(
                k,
            ) by {
                assert forall|j: int| #[trigger]
                    is_first_key(new_keys, j, k) <==> is_first_key(old_keys, j, k) by {}
                if exists|j: int| is_first_key(old_keys, j, k) {
                    let j = choose|j: int| is_first_key(old_keys, j, k);
                    before.lemma_usage_at(j, k);
                    self.lemma_usage_at(j, k);
                }
            }
        }
    }

    /// Gates, accounts and assembles one action requested by the signer of
    /// `ctx`. A refusal by the policy leaves the store unchanged. When the
    /// counters after the commit pass an exit condition the commit stays but
    /// no transaction is produced.
    pub fn perform_action(
        &mut self,
        ctx: &CallContext,
        contract_id: String,
        method_name: String,
        args: Vec<u8>,
        gas: u64,
        deposit: u128,
    ) -> (r: Result<SignRequest, ActionError>)
        ensures
            ({
                let pk = ctx.signer_public_key@;
                let action = requested(contract_id@, method_name@, gas, deposit);
                let now = ctx.block_timestamp;
                &&& old(self).steps_to(*final(self), pk, action, now)
                &&& match old(self).gate(pk, action, now) {
                    Err(e) => r == Err::<SignRequest, ActionError>(e),
                    Ok(stats) => if exit_reached(old(self).policy_for(pk)->0.exit_conditions, stats) {
                        r == Err::<SignRequest, ActionError>(ActionError::ExitConditionReached)
                    } else {
                        r is Ok && r->Ok_0@ == old(self).expected_request(ctx@, action, args@)
                    },
                }
            }),
    {
        let ghost pk = ctx.signer_public_key@;
        let key_index = match self.find_key(&ctx.signer_public_key) {
            Some(i) => i,
            None => {
                return Err(ActionError::AccessDenied);
            },
        };
        proof {
            self.lemma_usage_at(key_index as int, pk);
        }
        let key_usage = self.key_usage_by_pk[key_index].usage;
        let trial_index = match self.find_trial(key_usage.trial_id) {
            Some(i) => i,
            None => {
                return Err(ActionError::TrialDataNotFound);
            },
        };
        proof {
            self.lemma_trial_at(trial_index as int, key_usage.trial_id);
        }
        let action = NearAction {
            method_name,
            contract_id,
            gas_attached: gas,
            deposit_attached: deposit,
        };
        let verdict = evaluate(
            &self.trial_data_by_id[trial_index].data,
            &action,
            ctx.block_timestamp,
        );
        if let Verdict::Deny(e) = verdict {
            return Err(e);
        }
        let mut stats = key_usage.usage_stats;
        if let Err(e) = stats.commit(gas, deposit) {
            return Err(e);
        }
        let exit_conditions = self.trial_data_by_id[trial_index].data.exit_conditions;
        let chain_id = self.trial_data_by_id[trial_index].data.chain_id;
        self.store_usage(key_index, stats);
        if exit_condition_reached(&exit_conditions, &stats) {
            return Err(ActionError::ExitConditionReached);
        }
        let origin = Origin {
            account_id: ctx.current_account_id.clone(),
            public_key: copy_bytes(&ctx.signer_public_key),
            nonce: ctx.nonce,
            block_hash: ctx.block_hash,
            chain_id,
        };
        let transaction = Action::NEAR(action).assemble(&args, &origin);
        Ok(SignRequest { transaction, public_key: copy_bytes(&ctx.signer_public_key) })
    }
}

impl Contract {
    /// The usage record of `public_key`.
    pub fn usage(&self, public_key: &Vec<u8>) -> (r: Option<KeyUsage>)
        ensures
            r == self.usage_of(public_key@),
    {
        match self.find_key(public_key) {
            Some(i) => {
                proof {
                    self.lemma_usage_at(i as int, public_key@);
                }
                Some(self.key_usage_by_pk[i].usage)
            },
            None => None,
        }
    }

    /// Stores `data` under `trial_id`, replacing a policy stored there.
    pub fn insert_trial(&mut self, trial_id: u32, data: TrialData)
        ensures
            final(self).trial_of(trial_id) == Some(data@),
            forall|id: u32| id != trial_id ==> #[trigger] final(self).trial_of(id) == old(self).trial_of(id),
            final(self).key_usage_by_pk == old(self).key_usage_by_pk,
            final(self).mpc_contract == old(self).mpc_contract,
    {
        let ghost before = *self;
        let found = self.find_trial(trial_id);
        let ghost at: int = match found {
            Some(i) => i as int,
            None => before.trial_data_by_id@.len() as int,
        };
        match found {
            Some(i) => {
                self.trial_data_by_id.set(i, TrialEntry { trial_id, data });
            },
            None => {
                self.trial_data_by_id.push(TrialEntry { trial_id, data });
            },
        }
        proof {
            let old_t = before.trial_data_by_id@;
            let new_t = self.trial_data_by_id@;
            assert(is_first_trial(new_t, at, trial_id));
            self.lemma_trial_at(at, trial_id);
            assert forall|id: u32| id != trial_id implies #[trigger] self.trial_of(id)
                == before.trial_of(id) by {
                assert forall|j: int| #[trigger]
                    is_first_trial(new_t, j, id) implies is_first_trial(old_t, j, id) by {
                    assert forall|m: int| 0 <= m <= j && m != at implies new_t[m] == old_t[m] by {}
                }
                if exists|j: int| is_first_trial(old_t, j, id) {
                    let j = choose|j: int| is_first_trial(old_t, j, id);
                    assert(is_first_trial(new_t, j, id));
                    before.lemma_trial_at(j, id);
                    self.lemma_trial_at(j, id);
                }
            }
        }
    }

    /// Issues `public_key` for the trial `trial_id` with no usage yet,
    /// replacing a record stored for that key.
    pub fn insert_key(&mut self, public_key: Vec<u8>, trial_id: u32)
        ensures
            final(self).usage_of(public_key@) == Some(
                KeyUsage {
                    trial_id,
                    usage_stats: UsageStats { total_interactions: 0, gas_used: 0, deposit_used: 0 },
                },
            ),
            forall|k: Seq<u8>| k != public_key@ ==> #[trigger] final(self).usage_of(k) == old(self).usage_of(k),
            final(self).trial_data_by_id == old(self).trial_data_by_id,
            final(self).mpc_contract == old(self).mpc_contract,
    {
        let ghost before = *self;
        let ghost pk = public_key@;
        let found = self.find_key(&public_key);
        let ghost at: int = match found {
            Some(i) => i as int,
            None => before.key_usage_by_pk@.len() as int,
        };
        let usage = KeyUsage { trial_id, usage_stats: UsageStats::new() };
        match found {
            Some(i) => {
                self.key_usage_by_pk.set(i, KeyEntry { public_key, usage });
            },
            None => {
                self.key_usage_by_pk.push(KeyEntry { public_key, usage });
            },
        }
        proof {
            let old_k = before.key_usage_by_pk@;
            let new_k = self.key_usage_by_pk@;
            assert(is_first_key(new_k, at, pk));
            self.lemma_usage_at(at, pk);
            assert forall|k: Seq<u8>| k != pk implies #[trigger] self.usage_of(k)
                == before.usage_of(k) by {
                assert forall|j: int| #[trigger]
                    is_first_key(new_k, j, k) implies is_first_key(old_k, j, k) by {
                    assert forall|m: int| 0 <= m <= j && m != at implies new_k[m] == old_k[m] by {}
                }
                if exists|j: int| is_first_key(old_k, j, k) {
                    let j = choose|j: int| is_first_key(old_k, j, k);
                    assert(is_first_key(new_k, j, k));
                    before.lemma_usage_at(j, k);
                    self.lemma_usage_at(j, k);
                }
            }
        }
    }
}

} // verus!
