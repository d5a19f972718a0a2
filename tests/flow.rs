use trial_accounts::action::{FunctionCall, NearTransaction, UnsignedTransaction};
use trial_accounts::contract::{CallContext, Contract};
use trial_accounts::policy::{ActionError, ExitConditions, TrialData};
use trial_accounts::usage::{KeyUsage, UsageStats};

fn policy() -> TrialData {
    TrialData {
        allowed_methods: vec!["transfer".to_string()],
        allowed_contracts: vec!["X".to_string()],
        max_gas: Some(100),
        max_deposit: Some(50),
        expiration_time: None,
        exit_conditions: Some(ExitConditions { transaction_limit: Some(2) }),
        chain_id: 7,
    }
}

fn context(pk: &[u8], now: u64) -> CallContext {
    CallContext {
        signer_public_key: pk.to_vec(),
        block_timestamp: now,
        current_account_id: "trials.near".to_string(),
        nonce: 42,
        block_hash: [9u8; 32],
    }
}

fn store(data: TrialData) -> Contract {
    let mut c = Contract::new("signer.near".to_string());
    c.insert_trial(1, data);
    c.insert_key(vec![1, 2, 3], 1);
    c
}

fn stats(t: u64, g: u64, d: u128) -> Option<KeyUsage> {
    Some(KeyUsage {
        trial_id: 1,
        usage_stats: UsageStats { total_interactions: t, gas_used: g, deposit_used: d },
    })
}

fn transfer(c: &mut Contract, ctx: &CallContext) -> Result<trial_accounts::contract::SignRequest, ActionError> {
    c.perform_action(ctx, "X".to_string(), "transfer".to_string(), vec![0xab], 10, 5)
}

#[test]
fn scenario_transaction_limit_after_two_calls() {
    let mut c = store(policy());
    let ctx = context(&[1, 2, 3], 0);
    let first = transfer(&mut c, &ctx).unwrap();
    assert_eq!(c.usage(&vec![1, 2, 3]), stats(1, 10, 5));
    assert_eq!(first.public_key, vec![1, 2, 3]);
    let second = transfer(&mut c, &ctx);
    assert!(second.is_ok());
    assert_eq!(c.usage(&vec![1, 2, 3]), stats(2, 20, 10));
    let third = transfer(&mut c, &ctx);
    assert_eq!(third.err(), Some(ActionError::ExitConditionReached));
    assert_eq!(c.usage(&vec![1, 2, 3]), stats(3, 30, 15));
}

#[test]
fn approved_call_assembles_native_transaction() {
    let mut c = store(policy());
    let ctx = context(&[1, 2, 3], 0);
    let request = transfer(&mut c, &ctx).unwrap();
    let expected = UnsignedTransaction::Near(NearTransaction {
        signer_id: "trials.near".to_string(),
        signer_public_key: vec![1, 2, 3],
        nonce: 42,
        receiver_id: "X".to_string(),
        block_hash: [9u8; 32],
        actions: vec![FunctionCall {
            method_name: "transfer".to_string(),
            args: vec![0xab],
            gas: 10,
            deposit: 5,
        }],
    });
    assert_eq!(request.transaction, expected);
}

#[test]
fn unknown_key_is_access_denied() {
    let mut c = store(policy());
    let before = c.clone();
    let r = transfer(&mut c, &context(&[4], 0));
    assert_eq!(r.err(), Some(ActionError::AccessDenied));
    assert_eq!(c, before);
}

#[test]
fn dangling_trial_is_not_found() {
    let mut c = Contract::new("signer.near".to_string());
    c.insert_key(vec![1, 2, 3], 5);
    let r = transfer(&mut c, &context(&[1, 2, 3], 0));
    assert_eq!(r.err(), Some(ActionError::TrialDataNotFound));
}

#[test]
fn expired_policy_wins_over_every_other_failure() {
    let mut p = policy();
    p.expiration_time = Some(100);
    let mut c = store(p);
    let before = c.clone();
    let r = c.perform_action(&context(&[1, 2, 3], 100), "other".to_string(), "nope".to_string(), vec![], 1000, 1000);
    assert_eq!(r.err(), Some(ActionError::Expired));
    assert_eq!(c, before);
    let r = transfer(&mut c, &context(&[1, 2, 3], 250));
    assert_eq!(r.err(), Some(ActionError::Expired));
    assert!(transfer(&mut c, &context(&[1, 2, 3], 99)).is_ok());
}

#[test]
fn method_is_checked_before_contract_and_limits() {
    let mut c = store(policy());
    let ctx = context(&[1, 2, 3], 0);
    let r = c.perform_action(&ctx, "X".to_string(), "burn".to_string(), vec![], 10, 5);
    assert_eq!(r.err(), Some(ActionError::MethodNotAllowed));
    let r = c.perform_action(&ctx, "Y".to_string(), "burn".to_string(), vec![], 1000, 1000);
    assert_eq!(r.err(), Some(ActionError::MethodNotAllowed));
    let r = c.perform_action(&ctx, "Y".to_string(), "transfer".to_string(), vec![], 1000, 1000);
    assert_eq!(r.err(), Some(ActionError::ContractNotAllowed));
    let r = c.perform_action(&ctx, "X".to_string(), "transfer".to_string(), vec![], 101, 1000);
    assert_eq!(r.err(), Some(ActionError::GasExceeded));
    let r = c.perform_action(&ctx, "X".to_string(), "transfer".to_string(), vec![], 100, 51);
    assert_eq!(r.err(), Some(ActionError::DepositExceeded));
    assert_eq!(c.usage(&vec![1, 2, 3]), stats(0, 0, 0));
    assert!(c.perform_action(&ctx, "X".to_string(), "transfer".to_string(), vec![], 100, 50).is_ok());
}

#[test]
fn empty_method_set_denies_all() {
    let mut p = policy();
    p.allowed_methods = vec![];
    let mut c = store(p);
    let r = transfer(&mut c, &context(&[1, 2, 3], 0));
    assert_eq!(r.err(), Some(ActionError::MethodNotAllowed));
}

#[test]
fn unset_limits_do_not_bound() {
    let mut p = policy();
    p.max_gas = None;
    p.max_deposit = None;
    p.exit_conditions = None;
    let mut c = store(p);
    let ctx = context(&[1, 2, 3], 0);
    for _ in 0..5 {
        assert!(c.perform_action(&ctx, "X".to_string(), "transfer".to_string(), vec![], u64::MAX / 8, u128::MAX / 8).is_ok());
    }
    assert_eq!(c.usage(&vec![1, 2, 3]).unwrap().usage_stats.total_interactions, 5);
}

#[test]
fn counter_overflow_is_refused_and_leaves_usage() {
    let mut p = policy();
    p.max_gas = None;
    p.exit_conditions = None;
    let mut c = store(p);
    let ctx = context(&[1, 2, 3], 0);
    assert!(c.perform_action(&ctx, "X".to_string(), "transfer".to_string(), vec![], u64::MAX, 0).is_ok());
    let before = c.clone();
    let r = c.perform_action(&ctx, "X".to_string(), "transfer".to_string(), vec![], 1, 0);
    assert_eq!(r.err(), Some(ActionError::UsageOverflow));
    assert_eq!(c, before);
}

#[test]
fn usage_never_decreases_over_mixed_calls() {
    let mut c = store(policy());
    let ctx = context(&[1, 2, 3], 0);
    let mut last = c.usage(&vec![1, 2, 3]).unwrap().usage_stats;
    let calls: [(&str, &str, u64, u128); 5] = [
        ("X", "transfer", 10, 5),
        ("X", "burn", 10, 5),
        ("X", "transfer", 500, 5),
        ("X", "transfer", 3, 1),
        ("X", "transfer", 3, 1),
    ];
    for (contract, method, gas, deposit) in calls {
        let _ = c.perform_action(&ctx, contract.to_string(), method.to_string(), vec![], gas, deposit);
        let now = c.usage(&vec![1, 2, 3]).unwrap().usage_stats;
        assert!(now.total_interactions >= last.total_interactions);
        assert!(now.gas_used >= last.gas_used);
        assert!(now.deposit_used >= last.deposit_used);
        last = now;
    }
    assert_eq!(last, UsageStats { total_interactions: 3, gas_used: 16, deposit_used: 7 });
}

#[test]
fn other_keys_are_untouched() {
    let mut c = store(policy());
    c.insert_key(vec![7], 1);
    transfer(&mut c, &context(&[1, 2, 3], 0)).unwrap();
    assert_eq!(c.usage(&vec![7]), stats(0, 0, 0));
    assert_eq!(c.usage(&vec![1, 2, 3]), stats(1, 10, 5));
}

#[test]
fn reinserting_a_key_resets_its_record() {
    let mut c = store(policy());
    transfer(&mut c, &context(&[1, 2, 3], 0)).unwrap();
    c.insert_key(vec![1, 2, 3], 1);
    assert_eq!(c.usage(&vec![1, 2, 3]), stats(0, 0, 0));
}
