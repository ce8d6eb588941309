use airdrop::contract::{execute, receive_cw20, try_distribute_cw20, try_distribute_native};
use airdrop::error::ContractError;
use airdrop::msg::{Coin, Cw20HookMsg, ExecuteMsg, MessageInfo, Recipient, TransferInstruction};

fn entry(address: &str, amount: u128) -> Recipient {
    Recipient { recipient: address.to_string(), amount }
}

fn info(sender: &str, funds: Vec<Coin>) -> MessageInfo {
    MessageInfo { sender: sender.to_string(), funds }
}

fn coin(denom: &str, amount: u128) -> Coin {
    Coin { denom: denom.to_string(), amount }
}

fn all_valid(n: usize) -> Vec<Option<String>> {
    let mut checks = Vec::new();
    for _ in 0..n {
        checks.push(None);
    }
    checks
}

#[test]
fn native_distribution_succeeds() {
    let recipients = vec![entry("addrA", 100), entry("addrB", 200)];
    let r = try_distribute_native(
        &info("anyone", vec![coin("uusd", 300)]),
        &"uusd".to_string(),
        &recipients,
        &all_valid(2),
    );
    assert_eq!(
        r,
        Ok(vec![
            TransferInstruction::NativeSend {
                to_address: "addrA".to_string(),
                amount: 100,
                denom: "uusd".to_string(),
            },
            TransferInstruction::NativeSend {
                to_address: "addrB".to_string(),
                amount: 200,
                denom: "uusd".to_string(),
            },
        ])
    );
}

#[test]
fn native_amount_mismatch_fails() {
    let recipients = vec![entry("addrA", 100), entry("addrB", 200)];
    let r = try_distribute_native(
        &info("anyone", vec![coin("uusd", 250)]),
        &"uusd".to_string(),
        &recipients,
        &all_valid(2),
    );
    assert_eq!(r, Err(ContractError::MismatchedAssetAmount));
}

#[test]
fn duplicate_recipient_fails() {
    let recipients = vec![entry("addrA", 100), entry("addrA", 100)];
    let r = try_distribute_native(
        &info("anyone", vec![coin("uusd", 200)]),
        &"uusd".to_string(),
        &recipients,
        &all_valid(2),
    );
    assert_eq!(r, Err(ContractError::DuplicateRecipient));
}

#[test]
fn same_address_different_amount_is_not_a_duplicate() {
    let recipients = vec![entry("addrA", 100), entry("addrA", 200)];
    let r = try_distribute_native(
        &info("anyone", vec![coin("uusd", 300)]),
        &"uusd".to_string(),
        &recipients,
        &all_valid(2),
    );
    let out = r.expect("entries that differ in amount are distinct");
    assert_eq!(out.len(), 2);
}

#[test]
fn amount_check_runs_before_duplicate_check() {
    let recipients = vec![entry("addrA", 100), entry("addrA", 100)];
    let r = try_distribute_native(
        &info("anyone", vec![coin("uusd", 999)]),
        &"uusd".to_string(),
        &recipients,
        &all_valid(2),
    );
    assert_eq!(r, Err(ContractError::MismatchedAssetAmount));
}

#[test]
fn empty_request_with_no_deposit_succeeds() {
    let r = try_distribute_native(
        &info("anyone", vec![]),
        &"uusd".to_string(),
        &vec![],
        &all_valid(0),
    );
    assert_eq!(r, Ok(vec![]));
}

#[test]
fn missing_deposit_fails_amount_check() {
    let recipients = vec![entry("addrA", 1)];
    let r = try_distribute_native(
        &info("anyone", vec![]),
        &"uusd".to_string(),
        &recipients,
        &all_valid(1),
    );
    assert_eq!(r, Err(ContractError::MismatchedAssetAmount));
}

#[test]
fn foreign_coin_fails_asset_type_check() {
    let recipients = vec![entry("addrA", 300)];
    let r = try_distribute_native(
        &info("anyone", vec![coin("uusd", 300), coin("uluna", 300)]),
        &"uusd".to_string(),
        &recipients,
        &all_valid(1),
    );
    assert_eq!(r, Err(ContractError::MismatchedAssetType));
}

#[test]
fn last_coin_of_the_declared_denom_wins() {
    let recipients = vec![entry("addrA", 300)];
    let r = try_distribute_native(
        &info("anyone", vec![coin("uusd", 100), coin("uusd", 300)]),
        &"uusd".to_string(),
        &recipients,
        &all_valid(1),
    );
    assert!(r.is_ok());
}

#[test]
fn overflowing_sum_fails_instead_of_wrapping() {
    let recipients = vec![entry("addrA", u128::MAX), entry("addrB", 1)];
    let r = try_distribute_native(
        &info("anyone", vec![coin("uusd", u128::MAX)]),
        &"uusd".to_string(),
        &recipients,
        &all_valid(2),
    );
    assert_eq!(r, Err(ContractError::MismatchedAssetAmount));
}

#[test]
fn rejected_address_aborts_the_whole_batch() {
    let recipients = vec![entry("addrA", 100), entry("not an address", 200)];
    let checks = vec![None, Some("invalid address: not an address".to_string())];
    let r = try_distribute_native(
        &info("anyone", vec![coin("uusd", 300)]),
        &"uusd".to_string(),
        &recipients,
        &checks,
    );
    assert_eq!(
        r,
        Err(ContractError::InvalidAddress(
            "invalid address: not an address".to_string()
        ))
    );
}

#[test]
fn first_rejected_address_is_reported() {
    let recipients = vec![entry("bad one", 1), entry("bad two", 2)];
    let checks = vec![
        Some("invalid address: bad one".to_string()),
        Some("invalid address: bad two".to_string()),
    ];
    let r = try_distribute_native(
        &info("anyone", vec![coin("uusd", 3)]),
        &"uusd".to_string(),
        &recipients,
        &checks,
    );
    assert_eq!(
        r,
        Err(ContractError::InvalidAddress(
            "invalid address: bad one".to_string()
        ))
    );
}

#[test]
fn cw20_distribution_succeeds() {
    let recipients = vec![entry("addrA", 25), entry("addrB", 75)];
    let r = try_distribute_cw20(100, &"tokenX".to_string(), &recipients, &all_valid(2));
    assert_eq!(
        r,
        Ok(vec![
            TransferInstruction::Cw20Transfer {
                contract_addr: "tokenX".to_string(),
                recipient: "addrA".to_string(),
                amount: 25,
            },
            TransferInstruction::Cw20Transfer {
                contract_addr: "tokenX".to_string(),
                recipient: "addrB".to_string(),
                amount: 75,
            },
        ])
    );
}

#[test]
fn cw20_amount_mismatch_fails() {
    let recipients = vec![entry("addrA", 25), entry("addrB", 75)];
    let r = try_distribute_cw20(99, &"tokenX".to_string(), &recipients, &all_valid(2));
    assert_eq!(r, Err(ContractError::MismatchedAssetAmount));
}

#[test]
fn hook_from_the_wrong_token_contract_fails() {
    let hook = Cw20HookMsg::DistributeCw20 {
        asset_token: "tokenY".to_string(),
        recipients: vec![],
    };
    let r = receive_cw20(&info("tokenX", vec![]), 0, &hook, &all_valid(0));
    assert_eq!(r, Err(ContractError::MismatchedAssetType));
}

#[test]
fn hook_from_the_declared_token_contract_distributes() {
    let hook = Cw20HookMsg::DistributeCw20 {
        asset_token: "tokenX".to_string(),
        recipients: vec![entry("addrA", 40)],
    };
    let r = receive_cw20(&info("tokenX", vec![]), 40, &hook, &all_valid(1));
    assert_eq!(
        r,
        Ok(vec![TransferInstruction::Cw20Transfer {
            contract_addr: "tokenX".to_string(),
            recipient: "addrA".to_string(),
            amount: 40,
        }])
    );
}

#[test]
fn execute_dispatches_native_requests() {
    let msg = ExecuteMsg::DistributeNative {
        denom: "uusd".to_string(),
        recipients: vec![entry("addrA", 5)],
    };
    let r = execute(&info("anyone", vec![coin("uusd", 5)]), &msg, &all_valid(1));
    assert_eq!(
        r,
        Ok(vec![TransferInstruction::NativeSend {
            to_address: "addrA".to_string(),
            amount: 5,
            denom: "uusd".to_string(),
        }])
    );
}

#[test]
fn execute_dispatches_hook_requests() {
    let msg = ExecuteMsg::Receive {
        amount: 5,
        hook: Cw20HookMsg::DistributeCw20 {
            asset_token: "tokenX".to_string(),
            recipients: vec![entry("addrA", 5)],
        },
    };
    let r = execute(&info("tokenX", vec![]), &msg, &all_valid(1));
    assert_eq!(
        r,
        Ok(vec![TransferInstruction::Cw20Transfer {
            contract_addr: "tokenX".to_string(),
            recipient: "addrA".to_string(),
            amount: 5,
        }])
    );
}

#[test]
fn same_entry_compares_address_and_amount() {
    assert!(entry("addrA", 1).same_entry(&entry("addrA", 1)));
    assert!(!entry("addrA", 1).same_entry(&entry("addrA", 2)));
    assert!(!entry("addrA", 1).same_entry(&entry("addrB", 1)));
}
