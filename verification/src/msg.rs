//! The inbound actions of the lending core and its query responses, stated
//! over plain values. The host runtime decodes its wire envelope into these
//! before calling in.

use vstd::prelude::*;

verus! {

use crate::state::Coin;
use crate::state::Expiration;

/// The action that creates the deployment configuration.
#[derive(Debug, Clone, PartialEq, Eq)]
pub struct InstantiateMsg {
    pub arbiter: String,
    pub recipient: String,
    /// When set and the block has reached it, the deployment is expired.
    pub expiration: Option<Expiration>,
}

/// The four transitions of the loan state machine.
#[derive(Debug, Clone, PartialEq, Eq)]
pub enum ExecuteMsg {
    LendToken {
        asset_address: String,
        duration: u64,
        collateral_amount: Vec<Coin>,
        daily_fee_amount: Vec<Coin>,
        max_rent_days: u64,
        ipfs_cid: String,
    },
    BorrowToken { asset_address: String },
    ReturnToken { asset_address: String },
    WithdrawCollateral { amount: Vec<Coin> },
}

/// The queries the core answers.
#[derive(Debug, Clone, PartialEq, Eq)]
pub enum QueryMsg {
    /// Returns the configured arbiter identity.
    Arbiter {},
}

/// The answer to `QueryMsg::Arbiter`.
#[derive(Debug, Clone, PartialEq, Eq)]
pub struct ArbiterResponse {
    pub arbiter: String,
}

} // verus!
