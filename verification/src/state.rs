//! Data model of the lending core: coins, block information, expirations,
//! the deployment configuration, loan records, and the instructions and
//! attributes a transition hands back to the host.

use vstd::prelude::*;

verus! {

/// An amount of one denomination.
#[derive(Debug, Clone, PartialEq, Eq)]
pub struct Coin {
    pub denom: String,
    pub amount: u128,
}

/// The height and time of the block a call runs in, as the host reports them.
#[derive(Debug, Clone, Copy, PartialEq, Eq, Structural)]
pub struct BlockInfo {
    pub height: u64,
    pub time: u64,
}

/// A point after which a deployment is expired: a block height, a block time,
/// or never.
#[derive(Debug, Clone, Copy, PartialEq, Eq, Structural)]
pub enum Expiration {
    AtHeight(u64),
    AtTime(u64),
    Never,
}

impl Expiration {
    /// Whether the expiration has been reached at `block`.
    pub open spec fn spec_is_expired(self, block: BlockInfo) -> bool {
        match self {
            Expiration::AtHeight(height) => block.height >= height,
            Expiration::AtTime(time) => block.time >= time,
            Expiration::Never => false,
        }
    }

    /// Decides whether the expiration has been reached at `block`.
    pub fn is_expired(&self, block: &BlockInfo) -> (r: bool)
        ensures
            r == self.spec_is_expired(*block),
    {
        match self {
            Expiration::AtHeight(height) => block.height >= *height,
            Expiration::AtTime(time) => block.time >= *time,
            Expiration::Never => false,
        }
    }
}

/// The deployment-wide configuration, created once at instantiation.
/// `source` is the deployer, the only identity allowed to withdraw collateral.
#[derive(Debug, Clone, PartialEq, Eq)]
pub struct Config {
    pub arbiter: String,
    pub recipient: String,
    pub source: String,
    pub expiration: Option<Expiration>,
}

/// One loan record, stored under its asset identifier.
///
/// `borrower` is `None` while nobody holds the loan; a borrower is only ever
/// recorded as an explicit `Some` identity, never as a reserved sentinel
/// value.
#[derive(Debug, Clone, PartialEq, Eq)]
pub struct Loan {
    pub lender: String,
    pub borrower: Option<String>,
    pub asset_address: String,
    pub duration: u64,
    pub collateral_amount: Vec<Coin>,
    pub daily_fee_amount: Vec<Coin>,
    pub max_rent_days: u64,
    pub ipfs_cid: String,
    pub start_time: u64,
    pub is_active: bool,
}

/// An asset-movement instruction handed back to the host for execution.
#[derive(Debug, Clone, PartialEq, Eq)]
pub enum Instruction {
    /// Send native funds to `to_address`.
    BankSend { to_address: String, amount: Vec<Coin> },
    /// Ask the token contract at `contract_addr` to move `amount` from the
    /// acting party to `recipient`.
    TokenTransfer { contract_addr: String, recipient: String, amount: Vec<Coin> },
}

/// An observability attribute attached to a successful call.
#[derive(Debug, Clone, PartialEq, Eq)]
pub struct Attribute {
    pub key: String,
    pub value: String,
}

/// What a successful transition returns: instructions for the host to
/// execute and attributes to record.
#[derive(Debug, Clone, PartialEq, Eq)]
pub struct Response {
    pub messages: Vec<Instruction>,
    pub attributes: Vec<Attribute>,
}

impl Response {
    /// A response with no instructions and no attributes.
    pub fn empty() -> (r: Response)
        ensures
            r.messages@.len() == 0,
            r.attributes@.len() == 0,
    {
        Response { messages: Vec::new(), attributes: Vec::new() }
    }
}

/// Copies a coin list; the copy holds exactly the same coins.
pub fn copy_coins(coins: &Vec<Coin>) -> (r: Vec<Coin>)
    ensures
        r@ == coins@,
{
    let mut r: Vec<Coin> = Vec::new();
    let n = coins.len();
    let mut i: usize = 0;
    while i < n
        invariant
            n == coins@.len(),
            i <= n,
            r@ == coins@.subrange(0, i as int),
        decreases n - i,
    {
        let c = Coin { denom: coins[i].denom.clone(), amount: coins[i].amount };
        assert(c == coins@[i as int]);
        r.push(c);
        assert(r@ =~= coins@.subrange(0, i + 1 as int));
        i = i + 1;
    }
    assert(r@ =~= coins@);
    r
}

} // verus!
