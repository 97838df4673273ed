//! The loan state machine: the four transition handlers, the instantiation
//! of the deployment configuration, and the arbiter query. Each handler's
//! whole behaviour — which error each rejected input gets, first failure
//! winning, and what a success stores and emits — is pinned by a
//! postcondition predicate.

use vstd::prelude::*;

verus! {

broadcast use vstd::string::group_string_axioms;

use crate::error::ContractError;
use crate::msg::ArbiterResponse;
use crate::msg::ExecuteMsg;
use crate::msg::InstantiateMsg;
use crate::registry::LoanRegistry;
use crate::state::Attribute;
use crate::state::BlockInfo;
use crate::state::Coin;
use crate::state::Config;
use crate::state::Instruction;
use crate::state::Loan;
use crate::state::Response;
use crate::state::copy_coins;

/// A response that carries no instruction and no attribute.
pub open spec fn empty_response(resp: Response) -> bool {
    resp.messages@.len() == 0 && resp.attributes@.len() == 0
}

/// Everything `instantiate` guarantees: with an expiration already reached
/// at the current block it fails with `Expired`, and otherwise it returns
/// the configuration exactly as requested, with the caller as `source`.
pub open spec fn instantiate_post(
    block: BlockInfo,
    sender: String,
    msg: InstantiateMsg,
    r: Result<Config, ContractError>,
) -> bool {
    if (msg.expiration matches Some(e) && e.spec_is_expired(block)) {
        r matches Err(ContractError::Expired { expiration }) && Some(expiration) == msg.expiration
    } else {
        r matches Ok(c) && c == (Config {
            arbiter: msg.arbiter,
            recipient: msg.recipient,
            source: sender,
            expiration: msg.expiration,
        })
    }
}

/// Initializes the deployment configuration. The caller becomes `source`;
/// an expiration that has already been reached is rejected.
pub fn instantiate(block: &BlockInfo, sender: String, msg: InstantiateMsg) -> (r: Result<
    Config,
    ContractError,
>)
    ensures
        instantiate_post(*block, sender, msg, r),
{
    if let Some(expiration) = msg.expiration {
        if expiration.is_expired(block) {
            return Err(ContractError::Expired { expiration });
        }
    }
    Ok(Config {
        arbiter: msg.arbiter,
        recipient: msg.recipient,
        source: sender,
        expiration: msg.expiration,
    })
}

/// The record a successful lend stores: the requested parameters, with the
/// lender, borrower, asset identifier, start time and active flag of the
/// prior record preserved.
pub open spec fn lend_updated_loan(
    prior: Loan,
    duration: u64,
    collateral_amount: Vec<Coin>,
    daily_fee_amount: Vec<Coin>,
    max_rent_days: u64,
    ipfs_cid: String,
) -> Loan {
    Loan {
        lender: prior.lender,
        borrower: prior.borrower,
        asset_address: prior.asset_address,
        duration,
        collateral_amount,
        daily_fee_amount,
        max_rent_days,
        ipfs_cid,
        start_time: prior.start_time,
        is_active: prior.is_active,
    }
}

/// Everything `execute_lend_token` guarantees, with the first failing
/// precondition winning: the record must exist (`LoanNotFound`), the caller
/// must be its lender (`Unauthorized`), it must have no borrower
/// (`LoanAlreadyActive`), the duration must be nonzero (`InvalidDuration`),
/// both amount lists must be non-empty (`InvalidAmounts`), and the maximum
/// rent days must be nonzero (`InvalidMaxRentDays`). On failure nothing
/// changes; on success the record's parameters are rewritten and no
/// instruction is emitted.
pub open spec fn lend_post(
    before: Map<Seq<char>, Loan>,
    after: Map<Seq<char>, Loan>,
    sender: String,
    asset_address: String,
    duration: u64,
    collateral_amount: Vec<Coin>,
    daily_fee_amount: Vec<Coin>,
    max_rent_days: u64,
    ipfs_cid: String,
    r: Result<Response, ContractError>,
) -> bool {
    if !before.contains_key(asset_address@) {
        after == before && r matches Err(ContractError::LoanNotFound {})
    } else {
        let prior = before[asset_address@];
        if prior.lender@ != sender@ {
            after == before && r matches Err(ContractError::Unauthorized {})
        } else if prior.borrower is Some {
            after == before && r matches Err(ContractError::LoanAlreadyActive {})
        } else if duration == 0 {
            after == before && r matches Err(ContractError::InvalidDuration {})
        } else if collateral_amount@.len() == 0 || daily_fee_amount@.len() == 0 {
            after == before && r matches Err(ContractError::InvalidAmounts {})
        } else if max_rent_days == 0 {
            after == before && r matches Err(ContractError::InvalidMaxRentDays {})
        } else {
            &&& after == before.insert(
                asset_address@,
                lend_updated_loan(
                    prior,
                    duration,
                    collateral_amount,
                    daily_fee_amount,
                    max_rent_days,
                    ipfs_cid,
                ),
            )
            &&& r matches Ok(resp) && empty_response(resp)
        }
    }
}

/// Rewrites the parameters of an existing, unborrowed loan record. Only the
/// stored lender may do so, and only with a nonzero duration, non-empty
/// amount lists and nonzero maximum rent days.
pub fn execute_lend_token(
    registry: &mut LoanRegistry,
    sender: String,
    asset_address: String,
    duration: u64,
    collateral_amount: Vec<Coin>,
    daily_fee_amount: Vec<Coin>,
    max_rent_days: u64,
    ipfs_cid: String,
) -> (r: Result<Response, ContractError>)
    requires
        old(registry).wf(),
    ensures
        final(registry).wf(),
        lend_post(
            old(registry)@,
            final(registry)@,
            sender,
            asset_address,
            duration,
            collateral_amount,
            daily_fee_amount,
            max_rent_days,
            ipfs_cid,
            r,
        ),
{
    match registry.try_load(&asset_address) {
        None => {
            return Err(ContractError::LoanNotFound {});
        },
        Some(prior) => {
            if !(prior.lender == sender) {
                return Err(ContractError::Unauthorized {});
            }
            if prior.borrower.is_some() {
                return Err(ContractError::LoanAlreadyActive {});
            }
        },
    }
    if duration == 0 {
        return Err(ContractError::InvalidDuration {});
    }
    if collateral_amount.len() == 0 || daily_fee_amount.len() == 0 {
        return Err(ContractError::InvalidAmounts {});
    }
    if max_rent_days == 0 {
        return Err(ContractError::InvalidMaxRentDays {});
    }
    let prior = registry.take(&asset_address);
    let updated = Loan {
        lender: prior.lender,
        borrower: prior.borrower,
        asset_address: prior.asset_address,
        duration,
        collateral_amount,
        daily_fee_amount,
        max_rent_days,
        ipfs_cid,
        start_time: prior.start_time,
        is_active: prior.is_active,
    };
    registry.save(asset_address, updated);
    proof {
        assert(registry@ =~= old(registry)@.insert(
            asset_address@,
            registry@[asset_address@],
        ));
    }
    Ok(Response::empty())
}

/// Everything `execute_borrow_token` guarantees, with the first failing
/// precondition winning: the record must exist, be active, the caller must
/// not be the lender, and nobody may hold the loan yet. On failure nothing
/// changes; on success the caller becomes the borrower and one instruction
/// is emitted, asking the asset's token contract to move the collateral to
/// the lender.
pub open spec fn borrow_post(
    before: Map<Seq<char>, Loan>,
    after: Map<Seq<char>, Loan>,
    sender: String,
    asset_address: String,
    r: Result<Response, ContractError>,
) -> bool {
    if !before.contains_key(asset_address@) {
        after == before && r matches Err(ContractError::LoanNotFound {})
    } else {
        let prior = before[asset_address@];
        if !prior.is_active {
            &&& after == before
            &&& r matches Err(ContractError::InvalidLoan { reason })
                && reason@ == "Loan is not active"@
        } else if sender@ == prior.lender@ {
            after == before && r matches Err(ContractError::Unauthorized {})
        } else if prior.borrower is Some {
            &&& after == before
            &&& r matches Err(ContractError::InvalidLoan { reason })
                && reason@ == "Asset is already borrowed"@
        } else {
            &&& after == before.insert(
                asset_address@,
                Loan {
                    lender: prior.lender,
                    borrower: Some(sender),
                    asset_address: prior.asset_address,
                    duration: prior.duration,
                    collateral_amount: prior.collateral_amount,
                    daily_fee_amount: prior.daily_fee_amount,
                    max_rent_days: prior.max_rent_days,
                    ipfs_cid: prior.ipfs_cid,
                    start_time: prior.start_time,
                    is_active: prior.is_active,
                },
            )
            &&& r matches Ok(resp) && resp.attributes@.len() == 0 && resp.messages@.len() == 1
                && (resp.messages@[0] matches Instruction::TokenTransfer {
                    contract_addr,
                    recipient,
                    amount,
                } && contract_addr == prior.asset_address && recipient == prior.lender
                    && amount@ == prior.collateral_amount@)
        }
    }
}

/// Assigns the caller as the borrower of an active, unborrowed loan and
/// emits the instruction that moves the collateral from the caller to the
/// lender. The lender itself may not borrow.
pub fn execute_borrow_token(
    registry: &mut LoanRegistry,
    sender: String,
    asset_address: String,
) -> (r: Result<Response, ContractError>)
    requires
        old(registry).wf(),
    ensures
        final(registry).wf(),
        borrow_post(old(registry)@, final(registry)@, sender, asset_address, r),
{
    let (contract_addr, recipient, amount) = match registry.try_load(&asset_address) {
        None => {
            return Err(ContractError::LoanNotFound {});
        },
        Some(prior) => {
            if !prior.is_active {
                return Err(ContractError::InvalidLoan {
                    reason: "Loan is not active".to_string(),
                });
            }
            if sender == prior.lender {
                return Err(ContractError::Unauthorized {});
            }
            if prior.borrower.is_some() {
                return Err(ContractError::InvalidLoan {
                    reason: "Asset is already borrowed".to_string(),
                });
            }
            (prior.asset_address.clone(), prior.lender.clone(), copy_coins(&prior.collateral_amount))
        },
    };
    let mut prior = registry.take(&asset_address);
    prior.borrower = Some(sender);
    registry.save(asset_address, prior);
    proof {
        assert(registry@ =~= old(registry)@.insert(
            asset_address@,
            registry@[asset_address@],
        ));
    }
    let mut messages: Vec<Instruction> = Vec::new();
    messages.push(Instruction::TokenTransfer { contract_addr, recipient, amount });
    Ok(Response { messages, attributes: Vec::new() })
}

/// Everything `execute_return_token` guarantees, with the first failing
/// precondition winning: the record must exist and be active (both
/// `LoanNotFound`), the caller must be the current borrower
/// (`Unauthorized`), and the borrow period must not be over
/// (`LoanExpired`). On failure nothing changes; on success the record's
/// active flag is cleared and no instruction is emitted.
pub open spec fn return_post(
    before: Map<Seq<char>, Loan>,
    after: Map<Seq<char>, Loan>,
    current_time: u64,
    sender: String,
    asset_address: String,
    r: Result<Response, ContractError>,
) -> bool {
    if !before.contains_key(asset_address@) {
        after == before && r matches Err(ContractError::LoanNotFound {})
    } else {
        let prior = before[asset_address@];
        if !prior.is_active {
            after == before && r matches Err(ContractError::LoanNotFound {})
        } else if !(prior.borrower matches Some(b) && b@ == sender@) {
            after == before && r matches Err(ContractError::Unauthorized {})
        } else if current_time > prior.start_time + prior.duration {
            after == before && r matches Err(ContractError::LoanExpired {})
        } else {
            &&& after == before.insert(
                asset_address@,
                Loan {
                    lender: prior.lender,
                    borrower: prior.borrower,
                    asset_address: prior.asset_address,
                    duration: prior.duration,
                    collateral_amount: prior.collateral_amount,
                    daily_fee_amount: prior.daily_fee_amount,
                    max_rent_days: prior.max_rent_days,
                    ipfs_cid: prior.ipfs_cid,
                    start_time: prior.start_time,
                    is_active: false,
                },
            )
            &&& r matches Ok(resp) && empty_response(resp)
        }
    }
}

/// Clears the active flag of a loan the caller currently borrows, provided
/// the borrow period has not run out.
pub fn execute_return_token(
    registry: &mut LoanRegistry,
    current_time: u64,
    sender: String,
    asset_address: String,
) -> (r: Result<Response, ContractError>)
    requires
        old(registry).wf(),
    ensures
        final(registry).wf(),
        return_post(old(registry)@, final(registry)@, current_time, sender, asset_address, r),
{
    match registry.try_load(&asset_address) {
        None => {
            return Err(ContractError::LoanNotFound {});
        },
        Some(prior) => {
            if !prior.is_active {
                return Err(ContractError::LoanNotFound {});
            }
            let authorized = match &prior.borrower {
                Some(b) => *b == sender,
                None => false,
            };
            if !authorized {
                return Err(ContractError::Unauthorized {});
            }
            if current_time > prior.start_time && current_time - prior.start_time
                > prior.duration {
                return Err(ContractError::LoanExpired {});
            }
        },
    }
    let mut prior = registry.take(&asset_address);
    prior.is_active = false;
    registry.save(asset_address, prior);
    proof {
        assert(registry@ =~= old(registry)@.insert(
            asset_address@,
            registry@[asset_address@],
        ));
    }
    Ok(Response::empty())
}

/// Everything `execute_withdraw_collateral` guarantees: any caller other
/// than the deployment's `source` is rejected with `Unauthorized` and
/// nothing is emitted; the `source` gets one native-currency send of the
/// requested amount to itself, with the two observability attributes.
pub open spec fn withdraw_post(
    config: Config,
    sender: String,
    amount: Vec<Coin>,
    r: Result<Response, ContractError>,
) -> bool {
    if sender@ != config.source@ {
        r matches Err(ContractError::Unauthorized {})
    } else {
        r matches Ok(resp) && {
            &&& resp.messages@.len() == 1
            &&& resp.messages@[0] matches Instruction::BankSend { to_address, amount: sent }
                && to_address == sender && sent == amount
            &&& resp.attributes@.len() == 2
            &&& resp.attributes@[0].key@ == "action"@
            &&& resp.attributes@[0].value@ == "withdraw_collateral"@
            &&& resp.attributes@[1].key@ == "recipient"@
            &&& resp.attributes@[1].value@ == sender@
        }
    }
}

/// Sends the requested amount of native funds to the deployment's `source`,
/// the only identity allowed to withdraw collateral.
pub fn execute_withdraw_collateral(config: &Config, sender: String, amount: Vec<Coin>) -> (r:
    Result<Response, ContractError>)
    ensures
        withdraw_post(*config, sender, amount, r),
{
    if !(sender == config.source) {
        return Err(ContractError::Unauthorized {});
    }
    let recipient = sender;
    let mut attributes: Vec<Attribute> = Vec::new();
    attributes.push(Attribute { key: "action".to_string(), value: "withdraw_collateral".to_string() });
    attributes.push(Attribute { key: "recipient".to_string(), value: recipient.clone() });
    let mut messages: Vec<Instruction> = Vec::new();
    messages.push(Instruction::BankSend { to_address: recipient, amount });
    Ok(Response { messages, attributes })
}

/// Dispatches one inbound action to its transition handler.
pub fn execute(
    config: &Config,
    registry: &mut LoanRegistry,
    block: &BlockInfo,
    sender: String,
    msg: ExecuteMsg,
) -> (r: Result<Response, ContractError>)
    requires
        old(registry).wf(),
    ensures
        final(registry).wf(),
        (msg matches ExecuteMsg::LendToken {
            asset_address,
            duration,
            collateral_amount,
            daily_fee_amount,
            max_rent_days,
            ipfs_cid,
        } ==> lend_post(
            old(registry)@,
            final(registry)@,
            sender,
            asset_address,
            duration,
            collateral_amount,
            daily_fee_amount,
            max_rent_days,
            ipfs_cid,
            r,
        )),
        (msg matches ExecuteMsg::BorrowToken { asset_address } ==> borrow_post(
            old(registry)@,
            final(registry)@,
            sender,
            asset_address,
            r,
        )),
        (msg matches ExecuteMsg::ReturnToken { asset_address } ==> return_post(
            old(registry)@,
            final(registry)@,
            block.time,
            sender,
            asset_address,
            r,
        )),
        (msg matches ExecuteMsg::WithdrawCollateral { amount } ==> withdraw_post(
            *config,
            sender,
            amount,
            r,
        ) && final(registry)@ == old(registry)@),
{
    match msg {
        ExecuteMsg::LendToken {
            asset_address,
            duration,
            collateral_amount,
            daily_fee_amount,
            max_rent_days,
            ipfs_cid,
        } => execute_lend_token(
            registry,
            sender,
            asset_address,
            duration,
            collateral_amount,
            daily_fee_amount,
            max_rent_days,
            ipfs_cid,
        ),
        ExecuteMsg::BorrowToken { asset_address } => execute_borrow_token(
            registry,
            sender,
            asset_address,
        ),
        ExecuteMsg::ReturnToken { asset_address } => execute_return_token(
            registry,
            block.time,
            sender,
            asset_address,
        ),
        ExecuteMsg::WithdrawCollateral { amount } => execute_withdraw_collateral(
            config,
            sender,
            amount,
        ),
    }
}

/// Answers the arbiter query with the configured arbiter identity.
pub fn query_arbiter(config: &Config) -> (r: ArbiterResponse)
    ensures
        r.arbiter == config.arbiter,
{
    ArbiterResponse { arbiter: config.arbiter.clone() }
}

} // verus!
