//! Concrete-value checks of the loan state machine: every error variant,
//! the edge cases of each transition, and the full borrow scenario.

use rwa_lending::contract::{
    execute, execute_borrow_token, execute_lend_token, execute_return_token,
    execute_withdraw_collateral, instantiate, query_arbiter,
};
use rwa_lending::error::ContractError;
use rwa_lending::msg::{ExecuteMsg, InstantiateMsg, QueryMsg};
use rwa_lending::registry::LoanRegistry;
use rwa_lending::state::{Attribute, BlockInfo, Coin, Config, Expiration, Instruction, Loan};

fn coin(denom: &str, amount: u128) -> Coin {
    Coin { denom: denom.to_string(), amount }
}

fn listed_loan(lender: &str, asset: &str) -> Loan {
    Loan {
        lender: lender.to_string(),
        borrower: None,
        asset_address: asset.to_string(),
        duration: 10,
        collateral_amount: vec![coin("usd", 100)],
        daily_fee_amount: vec![coin("usd", 1)],
        max_rent_days: 5,
        ipfs_cid: "cid".to_string(),
        start_time: 0,
        is_active: true,
    }
}

fn registry_with(asset: &str, loan: Loan) -> LoanRegistry {
    let mut reg = LoanRegistry::new();
    reg.save(asset.to_string(), loan);
    reg
}

fn config(source: &str) -> Config {
    Config {
        arbiter: "arb".to_string(),
        recipient: "rcpt".to_string(),
        source: source.to_string(),
        expiration: None,
    }
}

fn lend(
    reg: &mut LoanRegistry,
    sender: &str,
    asset: &str,
    duration: u64,
    collateral: Vec<Coin>,
    fees: Vec<Coin>,
    max_rent_days: u64,
) -> Result<rwa_lending::state::Response, ContractError> {
    execute_lend_token(
        reg,
        sender.to_string(),
        asset.to_string(),
        duration,
        collateral,
        fees,
        max_rent_days,
        "cid2".to_string(),
    )
}

#[test]
fn lend_without_record_fails_not_found() {
    let mut reg = LoanRegistry::new();
    let r = lend(&mut reg, "alice", "asset", 10, vec![coin("usd", 100)], vec![coin("usd", 1)], 5);
    assert_eq!(r, Err(ContractError::LoanNotFound {}));
    assert!(reg.try_load(&"asset".to_string()).is_none());
}

#[test]
fn lend_by_other_identity_fails_unauthorized() {
    let mut reg = registry_with("asset", listed_loan("alice", "asset"));
    let r = lend(&mut reg, "bob", "asset", 10, vec![coin("usd", 100)], vec![coin("usd", 1)], 5);
    assert_eq!(r, Err(ContractError::Unauthorized {}));
    assert_eq!(reg.try_load(&"asset".to_string()), Some(&listed_loan("alice", "asset")));
}

#[test]
fn lend_by_other_identity_fails_before_field_checks() {
    // Even with every field invalid, a wrong caller is rejected first.
    let mut reg = registry_with("asset", listed_loan("alice", "asset"));
    let r = lend(&mut reg, "bob", "asset", 0, vec![], vec![], 0);
    assert_eq!(r, Err(ContractError::Unauthorized {}));
}

#[test]
fn lend_with_borrower_fails_already_active() {
    let mut loan = listed_loan("alice", "asset");
    loan.borrower = Some("bob".to_string());
    let mut reg = registry_with("asset", loan);
    let r = lend(&mut reg, "alice", "asset", 10, vec![coin("usd", 100)], vec![coin("usd", 1)], 5);
    assert_eq!(r, Err(ContractError::LoanAlreadyActive {}));
}

#[test]
fn lend_with_zero_duration_fails_invalid_duration() {
    let mut reg = registry_with("asset", listed_loan("alice", "asset"));
    let r = lend(&mut reg, "alice", "asset", 0, vec![coin("usd", 100)], vec![coin("usd", 1)], 5);
    assert_eq!(r, Err(ContractError::InvalidDuration {}));
}

#[test]
fn lend_with_empty_collateral_fails_invalid_amounts() {
    let mut reg = registry_with("asset", listed_loan("alice", "asset"));
    let r = lend(&mut reg, "alice", "asset", 10, vec![], vec![coin("usd", 1)], 5);
    assert_eq!(r, Err(ContractError::InvalidAmounts {}));
}

#[test]
fn lend_with_empty_fees_fails_invalid_amounts() {
    let mut reg = registry_with("asset", listed_loan("alice", "asset"));
    let r = lend(&mut reg, "alice", "asset", 10, vec![coin("usd", 100)], vec![], 5);
    assert_eq!(r, Err(ContractError::InvalidAmounts {}));
}

#[test]
fn lend_with_zero_max_rent_days_fails() {
    let mut reg = registry_with("asset", listed_loan("alice", "asset"));
    let r = lend(&mut reg, "alice", "asset", 10, vec![coin("usd", 100)], vec![coin("usd", 1)], 0);
    assert_eq!(r, Err(ContractError::InvalidMaxRentDays {}));
}

#[test]
fn lend_success_rewrites_parameters_only() {
    let mut reg = registry_with("asset", listed_loan("alice", "asset"));
    let r = lend(&mut reg, "alice", "asset", 20, vec![coin("eur", 7)], vec![coin("eur", 2)], 9);
    let resp = r.expect("lend should succeed");
    assert!(resp.messages.is_empty());
    assert!(resp.attributes.is_empty());
    let stored = reg.try_load(&"asset".to_string()).expect("record kept");
    assert_eq!(stored.lender, "alice".to_string());
    assert_eq!(stored.borrower, None);
    assert_eq!(stored.asset_address, "asset".to_string());
    assert_eq!(stored.duration, 20);
    assert_eq!(stored.collateral_amount, vec![coin("eur", 7)]);
    assert_eq!(stored.daily_fee_amount, vec![coin("eur", 2)]);
    assert_eq!(stored.max_rent_days, 9);
    assert_eq!(stored.ipfs_cid, "cid2".to_string());
    assert_eq!(stored.start_time, 0);
    assert!(stored.is_active);
}

#[test]
fn borrow_without_record_fails_not_found() {
    let mut reg = LoanRegistry::new();
    let r = execute_borrow_token(&mut reg, "bob".to_string(), "asset".to_string());
    assert_eq!(r, Err(ContractError::LoanNotFound {}));
}

#[test]
fn borrow_inactive_loan_fails_invalid_loan() {
    let mut loan = listed_loan("alice", "asset");
    loan.is_active = false;
    let mut reg = registry_with("asset", loan);
    let r = execute_borrow_token(&mut reg, "bob".to_string(), "asset".to_string());
    assert_eq!(
        r,
        Err(ContractError::InvalidLoan { reason: "Loan is not active".to_string() })
    );
}

#[test]
fn borrow_by_lender_fails_unauthorized() {
    let mut reg = registry_with("asset", listed_loan("alice", "asset"));
    let r = execute_borrow_token(&mut reg, "alice".to_string(), "asset".to_string());
    assert_eq!(r, Err(ContractError::Unauthorized {}));
    assert_eq!(reg.try_load(&"asset".to_string()).unwrap().borrower, None);
}

#[test]
fn borrow_scenario_succeeds_then_second_borrow_fails() {
    // Config{source=A}; Loan{lender=A, borrower=none, duration=10,
    // collateral=[("usd",100)], fees=[("usd",1)], max_rent_days=5} at "X".
    let mut reg = registry_with("X", listed_loan("A", "X"));
    let r = execute_borrow_token(&mut reg, "B".to_string(), "X".to_string());
    let resp = r.expect("borrow by B should succeed");
    assert_eq!(resp.messages.len(), 1);
    assert_eq!(
        resp.messages[0],
        Instruction::TokenTransfer {
            contract_addr: "X".to_string(),
            recipient: "A".to_string(),
            amount: vec![coin("usd", 100)],
        }
    );
    assert!(resp.attributes.is_empty());
    let stored = reg.try_load(&"X".to_string()).expect("record kept");
    assert_eq!(stored.borrower, Some("B".to_string()));
    assert_eq!(stored.lender, "A".to_string());
    assert_eq!(stored.collateral_amount, vec![coin("usd", 100)]);

    let r2 = execute_borrow_token(&mut reg, "C".to_string(), "X".to_string());
    assert_eq!(
        r2,
        Err(ContractError::InvalidLoan { reason: "Asset is already borrowed".to_string() })
    );
}

#[test]
fn return_without_record_fails_not_found() {
    let mut reg = LoanRegistry::new();
    let r = execute_return_token(&mut reg, 5, "bob".to_string(), "asset".to_string());
    assert_eq!(r, Err(ContractError::LoanNotFound {}));
}

#[test]
fn return_inactive_loan_fails_not_found() {
    let mut loan = listed_loan("alice", "asset");
    loan.is_active = false;
    loan.borrower = Some("bob".to_string());
    let mut reg = registry_with("asset", loan);
    let r = execute_return_token(&mut reg, 5, "bob".to_string(), "asset".to_string());
    assert_eq!(r, Err(ContractError::LoanNotFound {}));
}

#[test]
fn return_by_other_identity_fails_unauthorized() {
    let mut loan = listed_loan("alice", "asset");
    loan.borrower = Some("bob".to_string());
    let mut reg = registry_with("asset", loan);
    let r = execute_return_token(&mut reg, 5, "mallory".to_string(), "asset".to_string());
    assert_eq!(r, Err(ContractError::Unauthorized {}));
}

#[test]
fn return_with_no_borrower_fails_unauthorized() {
    let mut reg = registry_with("asset", listed_loan("alice", "asset"));
    let r = execute_return_token(&mut reg, 5, "bob".to_string(), "asset".to_string());
    assert_eq!(r, Err(ContractError::Unauthorized {}));
}

#[test]
fn return_after_deadline_fails_even_for_borrower() {
    // start_time 0, duration 10: time 11 is past the deadline.
    let mut loan = listed_loan("alice", "asset");
    loan.borrower = Some("bob".to_string());
    let mut reg = registry_with("asset", loan);
    let r = execute_return_token(&mut reg, 11, "bob".to_string(), "asset".to_string());
    assert_eq!(r, Err(ContractError::LoanExpired {}));
    assert!(reg.try_load(&"asset".to_string()).unwrap().is_active);
}

#[test]
fn return_at_deadline_succeeds() {
    // Exactly start_time + duration is still in time.
    let mut loan = listed_loan("alice", "asset");
    loan.borrower = Some("bob".to_string());
    let mut reg = registry_with("asset", loan);
    let r = execute_return_token(&mut reg, 10, "bob".to_string(), "asset".to_string());
    let resp = r.expect("return at the deadline should succeed");
    assert!(resp.messages.is_empty());
    assert!(resp.attributes.is_empty());
    let stored = reg.try_load(&"asset".to_string()).expect("record kept");
    assert!(!stored.is_active);
    assert_eq!(stored.borrower, Some("bob".to_string()));
}

#[test]
fn withdraw_by_other_identity_fails_unauthorized() {
    let cfg = config("alice");
    let r = execute_withdraw_collateral(&cfg, "bob".to_string(), vec![coin("usd", 5)]);
    assert_eq!(r, Err(ContractError::Unauthorized {}));
}

#[test]
fn withdraw_by_source_sends_funds_with_attributes() {
    let cfg = config("alice");
    let r = execute_withdraw_collateral(&cfg, "alice".to_string(), vec![coin("usd", 5)]);
    let resp = r.expect("withdraw by the source should succeed");
    assert_eq!(resp.messages.len(), 1);
    assert_eq!(
        resp.messages[0],
        Instruction::BankSend { to_address: "alice".to_string(), amount: vec![coin("usd", 5)] }
    );
    assert_eq!(
        resp.attributes,
        vec![
            Attribute { key: "action".to_string(), value: "withdraw_collateral".to_string() },
            Attribute { key: "recipient".to_string(), value: "alice".to_string() },
        ]
    );
}

#[test]
fn execute_dispatches_each_action() {
    let cfg = config("alice");
    let block = BlockInfo { height: 1, time: 5 };
    let mut reg = registry_with("asset", listed_loan("alice", "asset"));

    let r = execute(
        &cfg,
        &mut reg,
        &block,
        "bob".to_string(),
        ExecuteMsg::LendToken {
            asset_address: "asset".to_string(),
            duration: 10,
            collateral_amount: vec![coin("usd", 100)],
            daily_fee_amount: vec![coin("usd", 1)],
            max_rent_days: 5,
            ipfs_cid: "cid".to_string(),
        },
    );
    assert_eq!(r, Err(ContractError::Unauthorized {}));

    let r = execute(
        &cfg,
        &mut reg,
        &block,
        "bob".to_string(),
        ExecuteMsg::BorrowToken { asset_address: "asset".to_string() },
    );
    assert!(r.is_ok());

    let r = execute(
        &cfg,
        &mut reg,
        &block,
        "bob".to_string(),
        ExecuteMsg::ReturnToken { asset_address: "asset".to_string() },
    );
    assert!(r.is_ok());
    assert!(!reg.try_load(&"asset".to_string()).unwrap().is_active);

    let r = execute(
        &cfg,
        &mut reg,
        &block,
        "alice".to_string(),
        ExecuteMsg::WithdrawCollateral { amount: vec![coin("usd", 3)] },
    );
    assert!(r.is_ok());
}

#[test]
fn instantiate_stores_sender_as_source() {
    let block = BlockInfo { height: 100, time: 1000 };
    let msg = InstantiateMsg {
        arbiter: "arb".to_string(),
        recipient: "rcpt".to_string(),
        expiration: Some(Expiration::AtHeight(101)),
    };
    let cfg = instantiate(&block, "deployer".to_string(), msg).expect("not yet expired");
    assert_eq!(cfg.arbiter, "arb".to_string());
    assert_eq!(cfg.recipient, "rcpt".to_string());
    assert_eq!(cfg.source, "deployer".to_string());
    assert_eq!(cfg.expiration, Some(Expiration::AtHeight(101)));
}

#[test]
fn instantiate_rejects_reached_expiration() {
    let block = BlockInfo { height: 100, time: 1000 };
    let msg = InstantiateMsg {
        arbiter: "arb".to_string(),
        recipient: "rcpt".to_string(),
        expiration: Some(Expiration::AtHeight(100)),
    };
    let r = instantiate(&block, "deployer".to_string(), msg);
    assert_eq!(r, Err(ContractError::Expired { expiration: Expiration::AtHeight(100) }));

    let msg = InstantiateMsg {
        arbiter: "arb".to_string(),
        recipient: "rcpt".to_string(),
        expiration: Some(Expiration::AtTime(999)),
    };
    let r = instantiate(&block, "deployer".to_string(), msg);
    assert_eq!(r, Err(ContractError::Expired { expiration: Expiration::AtTime(999) }));
}

#[test]
fn instantiate_never_expiration_always_accepted() {
    let block = BlockInfo { height: u64::MAX, time: u64::MAX };
    let msg = InstantiateMsg {
        arbiter: "arb".to_string(),
        recipient: "rcpt".to_string(),
        expiration: Some(Expiration::Never),
    };
    assert!(instantiate(&block, "deployer".to_string(), msg).is_ok());
}

#[test]
fn query_arbiter_returns_configured_identity() {
    let cfg = config("alice");
    let _ = QueryMsg::Arbiter {};
    assert_eq!(query_arbiter(&cfg).arbiter, "arb".to_string());
}

#[test]
fn registry_load_and_save_round_trip() {
    let mut reg = LoanRegistry::new();
    assert_eq!(
        reg.load(&"a".to_string()).err(),
        Some(ContractError::LoanNotFound {})
    );
    reg.save("a".to_string(), listed_loan("l1", "a"));
    reg.save("b".to_string(), listed_loan("l2", "b"));
    assert_eq!(reg.load(&"a".to_string()).unwrap(), &listed_loan("l1", "a"));
    assert_eq!(reg.load(&"b".to_string()).unwrap(), &listed_loan("l2", "b"));
    // Saving again under the same key replaces the record.
    reg.save("a".to_string(), listed_loan("l3", "a"));
    assert_eq!(reg.load(&"a".to_string()).unwrap(), &listed_loan("l3", "a"));
    assert_eq!(reg.load(&"b".to_string()).unwrap(), &listed_loan("l2", "b"));
}

#[test]
fn error_messages_name_each_failure() {
    assert_eq!(ContractError::Unauthorized {}.message(), "Unauthorized".to_string());
    assert_eq!(ContractError::LoanNotFound {}.message(), "Loan not found".to_string());
    assert_eq!(
        ContractError::LoanAlreadyActive {}.message(),
        "Loan already active".to_string()
    );
    assert_eq!(ContractError::InvalidDuration {}.message(), "Invalid Duration".to_string());
    assert_eq!(ContractError::InvalidAmounts {}.message(), "Invalid Amount".to_string());
    assert_eq!(
        ContractError::InvalidMaxRentDays {}.message(),
        "Invalid Max Rent Days".to_string()
    );
    assert_eq!(ContractError::LoanExpired {}.message(), "Loan expired".to_string());
    assert_eq!(
        ContractError::InvalidLoan { reason: "why".to_string() }.message(),
        "why".to_string()
    );
    assert_eq!(
        ContractError::Expired { expiration: Expiration::Never }.message(),
        "Expired".to_string()
    );
}
