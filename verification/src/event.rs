//! Audit records: every mutating operation that succeeds emits one immutable
//! event carrying the operation's salient identities and, where relevant,
//! before/after values.

use vstd::prelude::*;

use crate::pubkey::Pubkey;

verus! {

/// The admin configuration was created.
#[derive(Clone, Copy, Debug, PartialEq, Eq, Structural)]
pub struct AdminConfigCreated {
    pub admin: Pubkey,
    pub config: Pubkey,
}

/// An operator record was created or overwritten.
#[derive(Clone, Copy, Debug, PartialEq, Eq, Structural)]
pub struct OperatorAdded {
    pub operator: Pubkey,
}

/// An operator record was destroyed.
#[derive(Clone, Copy, Debug, PartialEq, Eq, Structural)]
pub struct OperatorRemoved {
    pub operator: Pubkey,
}

/// A new admin was proposed by the current admin.
#[derive(Clone, Copy, Debug, PartialEq, Eq, Structural)]
pub struct AdminTransferProposed {
    pub current_admin: Pubkey,
    pub proposed_admin: Pubkey,
}

/// A pending admin proposal was acknowledged.
#[derive(Clone, Copy, Debug, PartialEq, Eq, Structural)]
pub struct AdminTransferAccepted {
    pub current_admin: Pubkey,
    pub proposed_admin: Pubkey,
}

/// An admin transfer was committed: the proposed admin took over.
#[derive(Clone, Copy, Debug, PartialEq, Eq, Structural)]
pub struct AdminTransferCompleted {
    pub previous_admin: Pubkey,
    pub new_admin: Pubkey,
}

/// A lookup table for one tracked asset was created.
#[derive(Clone, Copy, Debug, PartialEq, Eq, Structural)]
pub struct AssetLookupTableCreated {
    pub lookup_table: Pubkey,
}

/// A holder identity was appended to an asset's lookup table.
#[derive(Clone, Copy, Debug, PartialEq, Eq, Structural)]
pub struct AccountAdded {
    pub account: Pubkey,
    pub lookup_table: Pubkey,
}

/// A holder identity was removed from an asset's lookup table.
#[derive(Clone, Copy, Debug, PartialEq, Eq, Structural)]
pub struct AccountRemoved {
    pub account: Pubkey,
    pub lookup_table: Pubkey,
}

/// The running total valuation was posted.
#[derive(Clone, Copy, Debug, PartialEq, Eq, Structural)]
pub struct AumUsdUpdated {
    pub aum_usd: u128,
    pub last_updated_timestamp: i64,
    pub config: Pubkey,
}

} // verus!
