//! Error taxonomy of the registry and of the valuation path.

use vstd::prelude::*;

verus! {

/// Errors of the on-chain registry operations.
#[derive(Clone, Copy, Debug, PartialEq, Eq, Structural)]
pub enum ErrorCode {
    InvalidAdmin,
    InvalidAccount,
    InvalidOperator,
    InvalidTimestamp,
    AccountLimitReached,
    AccountAlreadyAdded,
    OnlyAdminCanProposeNewAdmin,
    OnlyProposedAdminCanAccept,
    ProposedAdminAlreadySet,
    ProposedAdminIsCurrentAdmin,
}

impl ErrorCode {
    /// The human-readable reason for this error.
    pub fn message(&self) -> (r: &'static str)
        ensures
            *self is InvalidAdmin ==> r@ == "Invalid admin"@,
            *self is InvalidAccount ==> r@ == "Invalid account"@,
            *self is InvalidOperator ==> r@ == "Invalid operator"@,
            *self is InvalidTimestamp ==> r@ == "Invalid timestamp"@,
            *self is AccountLimitReached ==> r@ == "Account limit reached"@,
            *self is AccountAlreadyAdded ==> r@ == "Account already added"@,
            *self is OnlyAdminCanProposeNewAdmin ==> r@ == "Only admin can propose new admin"@,
            *self is OnlyProposedAdminCanAccept ==> r@
                == "Only proposed admin can accept admin transfer"@,
            *self is ProposedAdminAlreadySet ==> r@ == "Proposed admin already set"@,
            *self is ProposedAdminIsCurrentAdmin ==> r@ == "Proposed admin is current admin"@,
    {
        match self {
            ErrorCode::InvalidAdmin => "Invalid admin",
            ErrorCode::InvalidAccount => "Invalid account",
            ErrorCode::InvalidOperator => "Invalid operator",
            ErrorCode::InvalidTimestamp => "Invalid timestamp",
            ErrorCode::AccountLimitReached => "Account limit reached",
            ErrorCode::AccountAlreadyAdded => "Account already added",
            ErrorCode::OnlyAdminCanProposeNewAdmin => "Only admin can propose new admin",
            ErrorCode::OnlyProposedAdminCanAccept => "Only proposed admin can accept admin transfer",
            ErrorCode::ProposedAdminAlreadySet => "Proposed admin already set",
            ErrorCode::ProposedAdminIsCurrentAdmin => "Proposed admin is current admin",
        }
    }
}

/// Errors of the off-chain valuation and aggregation path.
#[derive(Clone, Copy, Debug, PartialEq, Eq, Structural)]
pub enum ValuationError {
    /// A sum or scaling step would exceed the 128-bit width.
    ArithmeticOverflow,
    /// A price per unit was requested with a zero total supply.
    DivisionByZero,
    /// Oracle or token-account bytes fail to parse into the expected shape.
    MalformedExternalData,
    /// Fetched account state does not correspond to what the registry records.
    MismatchedAsset,
}

impl ValuationError {
    /// The human-readable reason for this error.
    pub fn message(&self) -> (r: &'static str)
        ensures
            *self is ArithmeticOverflow ==> r@ == "Arithmetic overflow"@,
            *self is DivisionByZero ==> r@ == "Division by zero"@,
            *self is MalformedExternalData ==> r@ == "Malformed external data"@,
            *self is MismatchedAsset ==> r@ == "Mismatched asset"@,
    {
        match self {
            ValuationError::ArithmeticOverflow => "Arithmetic overflow",
            ValuationError::DivisionByZero => "Division by zero",
            ValuationError::MalformedExternalData => "Malformed external data",
            ValuationError::MismatchedAsset => "Mismatched asset",
        }
    }
}

} // verus!
