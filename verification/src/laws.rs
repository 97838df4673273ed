//! The guarantees of the loan state machine, each stated over the
//! postcondition predicate of the transition it concerns: whoever observes a
//! call that satisfied the transition's contract may conclude what these
//! lemmas state, for every input and every stored state.

use vstd::prelude::*;

verus! {

use crate::contract::borrow_post;
use crate::contract::instantiate_post;
use crate::contract::lend_post;
use crate::contract::return_post;
use crate::contract::withdraw_post;
use crate::error::ContractError;
use crate::msg::InstantiateMsg;
use crate::state::BlockInfo;
use crate::state::Coin;
use crate::state::Config;
use crate::state::Loan;
use crate::state::Response;

/// Lending an asset with no stored loan record fails with `LoanNotFound`,
/// whatever the other inputs, and stores nothing.
pub proof fn law_lend_requires_record(
    before: Map<Seq<char>, Loan>,
    after: Map<Seq<char>, Loan>,
    sender: String,
    asset_address: String,
    duration: u64,
    collateral_amount: Vec<Coin>,
    daily_fee_amount: Vec<Coin>,
    max_rent_days: u64,
    ipfs_cid: String,
    r: Result<Response, ContractError>,
)
    requires
        lend_post(
            before,
            after,
            sender,
            asset_address,
            duration,
            collateral_amount,
            daily_fee_amount,
            max_rent_days,
            ipfs_cid,
            r,
        ),
        !before.contains_key(asset_address@),
    ensures
        r matches Err(ContractError::LoanNotFound {}),
        after == before,
{
}

/// Lending by any identity other than the stored lender fails with
/// `Unauthorized`, regardless of every other input, and stores nothing.
pub proof fn law_lend_only_by_lender(
    before: Map<Seq<char>, Loan>,
    after: Map<Seq<char>, Loan>,
    sender: String,
    asset_address: String,
    duration: u64,
    collateral_amount: Vec<Coin>,
    daily_fee_amount: Vec<Coin>,
    max_rent_days: u64,
    ipfs_cid: String,
    r: Result<Response, ContractError>,
)
    requires
        lend_post(
            before,
            after,
            sender,
            asset_address,
            duration,
            collateral_amount,
            daily_fee_amount,
            max_rent_days,
            ipfs_cid,
            r,
        ),
        before.contains_key(asset_address@),
        before[asset_address@].lender@ != sender@,
    ensures
        r matches Err(ContractError::Unauthorized {}),
        after == before,
{
}

/// Lending an asset whose record already names a borrower fails with
/// `LoanAlreadyActive` and stores nothing.
pub proof fn law_lend_rejects_borrowed(
    before: Map<Seq<char>, Loan>,
    after: Map<Seq<char>, Loan>,
    sender: String,
    asset_address: String,
    duration: u64,
    collateral_amount: Vec<Coin>,
    daily_fee_amount: Vec<Coin>,
    max_rent_days: u64,
    ipfs_cid: String,
    r: Result<Response, ContractError>,
)
    requires
        lend_post(
            before,
            after,
            sender,
            asset_address,
            duration,
            collateral_amount,
            daily_fee_amount,
            max_rent_days,
            ipfs_cid,
            r,
        ),
        before.contains_key(asset_address@),
        before[asset_address@].lender@ == sender@,
        before[asset_address@].borrower is Some,
    ensures
        r matches Err(ContractError::LoanAlreadyActive {}),
        after == before,
{
}

/// A lend request with a zero duration fails with `InvalidDuration`, however
/// valid every other field is, and stores nothing.
pub proof fn law_lend_rejects_zero_duration(
    before: Map<Seq<char>, Loan>,
    after: Map<Seq<char>, Loan>,
    sender: String,
    asset_address: String,
    collateral_amount: Vec<Coin>,
    daily_fee_amount: Vec<Coin>,
    max_rent_days: u64,
    ipfs_cid: String,
    r: Result<Response, ContractError>,
)
    requires
        lend_post(
            before,
            after,
            sender,
            asset_address,
            0u64,
            collateral_amount,
            daily_fee_amount,
            max_rent_days,
            ipfs_cid,
            r,
        ),
        before.contains_key(asset_address@),
        before[asset_address@].lender@ == sender@,
        before[asset_address@].borrower is None,
    ensures
        r matches Err(ContractError::InvalidDuration {}),
        after == before,
{
}

/// A lend request with either amount list empty fails with `InvalidAmounts`
/// and stores nothing.
pub proof fn law_lend_rejects_empty_amounts(
    before: Map<Seq<char>, Loan>,
    after: Map<Seq<char>, Loan>,
    sender: String,
    asset_address: String,
    duration: u64,
    collateral_amount: Vec<Coin>,
    daily_fee_amount: Vec<Coin>,
    max_rent_days: u64,
    ipfs_cid: String,
    r: Result<Response, ContractError>,
)
    requires
        lend_post(
            before,
            after,
            sender,
            asset_address,
            duration,
            collateral_amount,
            daily_fee_amount,
            max_rent_days,
            ipfs_cid,
            r,
        ),
        before.contains_key(asset_address@),
        before[asset_address@].lender@ == sender@,
        before[asset_address@].borrower is None,
        duration != 0,
        collateral_amount@.len() == 0 || daily_fee_amount@.len() == 0,
    ensures
        r matches Err(ContractError::InvalidAmounts {}),
        after == before,
{
}

/// The stored lender itself may never borrow: on an active record a borrow
/// by the lender fails with `Unauthorized` and changes nothing.
pub proof fn law_borrow_not_by_lender(
    before: Map<Seq<char>, Loan>,
    after: Map<Seq<char>, Loan>,
    sender: String,
    asset_address: String,
    r: Result<Response, ContractError>,
)
    requires
        borrow_post(before, after, sender, asset_address, r),
        before.contains_key(asset_address@),
        before[asset_address@].is_active,
        sender@ == before[asset_address@].lender@,
    ensures
        r matches Err(ContractError::Unauthorized {}),
        after == before,
{
}

/// Borrowing an asset whose record already names a borrower fails for every
/// caller and changes nothing; a caller other than the lender is told the
/// asset is already borrowed.
pub proof fn law_borrow_rejects_borrowed(
    before: Map<Seq<char>, Loan>,
    after: Map<Seq<char>, Loan>,
    sender: String,
    asset_address: String,
    r: Result<Response, ContractError>,
)
    requires
        borrow_post(before, after, sender, asset_address, r),
        before.contains_key(asset_address@),
        before[asset_address@].is_active,
        before[asset_address@].borrower is Some,
    ensures
        r is Err,
        after == before,
        sender@ != before[asset_address@].lender@ ==> (r matches Err(
            ContractError::InvalidLoan { reason },
        ) && reason@ == "Asset is already borrowed"@),
{
}

/// Returning by any identity other than the current borrower fails with
/// `Unauthorized` and changes nothing.
pub proof fn law_return_only_by_borrower(
    before: Map<Seq<char>, Loan>,
    after: Map<Seq<char>, Loan>,
    current_time: u64,
    sender: String,
    asset_address: String,
    r: Result<Response, ContractError>,
)
    requires
        return_post(before, after, current_time, sender, asset_address, r),
        before.contains_key(asset_address@),
        before[asset_address@].is_active,
        !(before[asset_address@].borrower matches Some(b) && b@ == sender@),
    ensures
        r matches Err(ContractError::Unauthorized {}),
        after == before,
{
}

/// Returning after the borrow period has run out fails even for the correct
/// borrower, and changes nothing.
pub proof fn law_return_rejects_late(
    before: Map<Seq<char>, Loan>,
    after: Map<Seq<char>, Loan>,
    current_time: u64,
    sender: String,
    asset_address: String,
    r: Result<Response, ContractError>,
)
    requires
        return_post(before, after, current_time, sender, asset_address, r),
        before.contains_key(asset_address@),
        before[asset_address@].is_active,
        before[asset_address@].borrower matches Some(b) && b@ == sender@,
        current_time > before[asset_address@].start_time + before[asset_address@].duration,
    ensures
        r matches Err(ContractError::LoanExpired {}),
        after == before,
{
}

/// Withdrawing collateral as any identity other than the deployment's
/// `source` fails with `Unauthorized`; in particular no instruction is
/// emitted, since a failure carries none.
pub proof fn law_withdraw_only_by_source(
    config: Config,
    sender: String,
    amount: Vec<Coin>,
    r: Result<Response, ContractError>,
)
    requires
        withdraw_post(config, sender, amount, r),
        sender@ != config.source@,
    ensures
        r matches Err(ContractError::Unauthorized {}),
{
}

/// The registry's caller-kept invariant: every stored record's
/// `asset_address` equals the key it is stored under.
pub open spec fn key_consistent(loans: Map<Seq<char>, Loan>) -> bool {
    forall|k: Seq<char>| #[trigger] loans.contains_key(k) ==> loans[k].asset_address@ == k
}

/// A lend call keeps the registry key-consistent: the rewritten record
/// keeps the asset identifier it was stored under.
pub proof fn law_lend_keeps_keys_consistent(
    before: Map<Seq<char>, Loan>,
    after: Map<Seq<char>, Loan>,
    sender: String,
    asset_address: String,
    duration: u64,
    collateral_amount: Vec<Coin>,
    daily_fee_amount: Vec<Coin>,
    max_rent_days: u64,
    ipfs_cid: String,
    r: Result<Response, ContractError>,
)
    requires
        lend_post(
            before,
            after,
            sender,
            asset_address,
            duration,
            collateral_amount,
            daily_fee_amount,
            max_rent_days,
            ipfs_cid,
            r,
        ),
        key_consistent(before),
    ensures
        key_consistent(after),
{
}

/// A borrow call keeps the registry key-consistent.
pub proof fn law_borrow_keeps_keys_consistent(
    before: Map<Seq<char>, Loan>,
    after: Map<Seq<char>, Loan>,
    sender: String,
    asset_address: String,
    r: Result<Response, ContractError>,
)
    requires
        borrow_post(before, after, sender, asset_address, r),
        key_consistent(before),
    ensures
        key_consistent(after),
{
}

/// A return call keeps the registry key-consistent.
pub proof fn law_return_keeps_keys_consistent(
    before: Map<Seq<char>, Loan>,
    after: Map<Seq<char>, Loan>,
    current_time: u64,
    sender: String,
    asset_address: String,
    r: Result<Response, ContractError>,
)
    requires
        return_post(before, after, current_time, sender, asset_address, r),
        key_consistent(before),
    ensures
        key_consistent(after),
{
}

/// A configuration that instantiation accepts never carries an expiration
/// that had already been reached at the block it was created in.
pub proof fn law_instantiate_config_unexpired(
    block: BlockInfo,
    sender: String,
    msg: InstantiateMsg,
    r: Result<Config, ContractError>,
)
    requires
        instantiate_post(block, sender, msg, r),
    ensures
        r matches Ok(c) ==> (c.expiration matches Some(e) ==> !e.spec_is_expired(block)),
{
}

} // verus!

