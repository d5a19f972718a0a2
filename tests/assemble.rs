use trial_accounts::action::{
    Action, EvmAction, EvmTransaction, FunctionCall, NearAction, NearTransaction, Origin,
    UnsignedTransaction,
};
use trial_accounts::policy::{evaluate, ActionError, TrialData, Verdict};
use trial_accounts::usage::{exit_condition_reached, UsageStats};
use trial_accounts::policy::ExitConditions;

fn origin() -> Origin {
    Origin {
        account_id: "trials.near".to_string(),
        public_key: vec![5, 6],
        nonce: 11,
        block_hash: [3u8; 32],
        chain_id: 1,
    }
}

fn near_action() -> NearAction {
    NearAction {
        method_name: "transfer".to_string(),
        contract_id: "X".to_string(),
        gas_attached: 10,
        deposit_attached: 5,
    }
}

#[test]
fn assemble_is_deterministic() {
    let a = Action::NEAR(near_action());
    let b = Action::NEAR(near_action());
    assert_eq!(a.assemble(&vec![1, 2], &origin()), b.assemble(&vec![1, 2], &origin()));
    let e = Action::EVM(EvmAction {
        method_name: "mint".to_string(),
        contract_address: [0x11; 20],
        gas_limit: 21000,
        value: 3,
    });
    assert_eq!(e.assemble(&vec![9], &origin()), e.assemble(&vec![9], &origin()));
}

#[test]
fn assemble_native_shape() {
    let t = Action::NEAR(near_action()).assemble(&vec![1, 2], &origin());
    assert_eq!(
        t,
        UnsignedTransaction::Near(NearTransaction {
            signer_id: "trials.near".to_string(),
            signer_public_key: vec![5, 6],
            nonce: 11,
            receiver_id: "X".to_string(),
            block_hash: [3u8; 32],
            actions: vec![FunctionCall {
                method_name: "transfer".to_string(),
                args: vec![1, 2],
                gas: 10,
                deposit: 5,
            }],
        })
    );
}

#[test]
fn assemble_evm_shape() {
    let e = Action::EVM(EvmAction {
        method_name: "mint".to_string(),
        contract_address: [0x11; 20],
        gas_limit: 21000,
        value: 3,
    });
    assert_eq!(
        e.assemble(&vec![0xa9, 0x05], &origin()),
        UnsignedTransaction::Evm(EvmTransaction {
            to: [0x11; 20],
            value: 3,
            gas_limit: 21000,
            call_data: vec![0xa9, 0x05],
            chain_id: 1,
        })
    );
}

#[test]
fn evaluate_allows_within_limits() {
    let p = TrialData {
        allowed_methods: vec!["a".to_string(), "transfer".to_string()],
        allowed_contracts: vec!["X".to_string()],
        max_gas: Some(10),
        max_deposit: Some(5),
        expiration_time: Some(1),
        exit_conditions: None,
        chain_id: 0,
    };
    assert_eq!(evaluate(&p, &near_action(), 0), Verdict::Allow);
    assert_eq!(evaluate(&p, &near_action(), 0), evaluate(&p, &near_action(), 0));
    assert_eq!(evaluate(&p, &near_action(), 1), Verdict::Deny(ActionError::Expired));
}

#[test]
fn commit_adds_and_checks_overflow() {
    let mut s = UsageStats { total_interactions: 2, gas_used: 7, deposit_used: 9 };
    assert_eq!(s.commit(3, 4), Ok(()));
    assert_eq!(s, UsageStats { total_interactions: 3, gas_used: 10, deposit_used: 13 });
    let mut full = UsageStats { total_interactions: u64::MAX, gas_used: 0, deposit_used: 0 };
    assert_eq!(full.commit(0, 0), Err(ActionError::UsageOverflow));
    assert_eq!(full.total_interactions, u64::MAX);
    let mut dep = UsageStats { total_interactions: 0, gas_used: 0, deposit_used: u128::MAX };
    assert_eq!(dep.commit(0, 1), Err(ActionError::UsageOverflow));
}

#[test]
fn exit_condition_is_inclusive() {
    let limit = Some(ExitConditions { transaction_limit: Some(2) });
    let at = UsageStats { total_interactions: 2, gas_used: 0, deposit_used: 0 };
    let past = UsageStats { total_interactions: 3, gas_used: 0, deposit_used: 0 };
    assert!(!exit_condition_reached(&limit, &at));
    assert!(exit_condition_reached(&limit, &past));
    assert!(!exit_condition_reached(&None, &past));
    assert!(!exit_condition_reached(&Some(ExitConditions { transaction_limit: None }), &past));
}
