//! The closed taxonomy of precondition failures a transition can report.

use vstd::prelude::*;

verus! {

broadcast use vstd::string::group_string_axioms;

use crate::state::Expiration;

/// Every way a transition can fail. Each variant names one rejected
/// precondition; no transition mutates any state when it returns one of
/// these.
#[derive(Debug, Clone, PartialEq, Eq)]
pub enum ContractError {
    /// The caller is not the identity the transition requires.
    Unauthorized {},
    /// The deployment's expiration had already been reached at instantiation.
    Expired { expiration: Expiration },
    /// No loan record is stored under the asset identifier.
    LoanNotFound {},
    /// The loan already has a borrower, so it cannot be re-lent.
    LoanAlreadyActive {},
    /// A loan duration of zero was supplied.
    InvalidDuration {},
    /// An empty collateral or fee list was supplied.
    InvalidAmounts {},
    /// A maximum of zero rentable days was supplied.
    InvalidMaxRentDays {},
    /// The borrow period ended before the return was attempted.
    LoanExpired {},
    /// The loan record refuses the transition for the stated reason.
    InvalidLoan { reason: String },
}

impl ContractError {
    /// A human-readable description of the failure.
    pub fn message(&self) -> (s: String)
        ensures
            (self matches ContractError::Unauthorized {} ==> s@ == "Unauthorized"@),
            (self matches ContractError::Expired { .. } ==> s@ == "Expired"@),
            (self matches ContractError::LoanNotFound {} ==> s@ == "Loan not found"@),
            (self matches ContractError::LoanAlreadyActive {} ==> s@ == "Loan already active"@),
            (self matches ContractError::InvalidDuration {} ==> s@ == "Invalid Duration"@),
            (self matches ContractError::InvalidAmounts {} ==> s@ == "Invalid Amount"@),
            (self matches ContractError::InvalidMaxRentDays {} ==> s@ == "Invalid Max Rent Days"@),
            (self matches ContractError::LoanExpired {} ==> s@ == "Loan expired"@),
            (self matches ContractError::InvalidLoan { reason } ==> s@ == reason@),
    {
        match self {
            ContractError::Unauthorized {} => "Unauthorized".to_string(),
            ContractError::Expired { .. } => "Expired".to_string(),
            ContractError::LoanNotFound {} => "Loan not found".to_string(),
            ContractError::LoanAlreadyActive {} => "Loan already active".to_string(),
            ContractError::InvalidDuration {} => "Invalid Duration".to_string(),
            ContractError::InvalidAmounts {} => "Invalid Amount".to_string(),
            ContractError::InvalidMaxRentDays {} => "Invalid Max Rent Days".to_string(),
            ContractError::LoanExpired {} => "Loan expired".to_string(),
            ContractError::InvalidLoan { reason } => reason.clone(),
        }
    }
}

} // verus!
