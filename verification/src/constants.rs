//! Deployment-wide constants.

use vstd::prelude::*;

verus! {

/// Capacity bound of one asset's holder list.
pub const MAX_ACCOUNTS_PER_ASSET: usize = 16;

/// Every USD amount is a fixed-point integer with this many fractional
/// decimal digits (one dollar is `1_000_000`).
pub const AUM_VALUE_SCALE_DECIMALS: u32 = 6;

/// Seed of the singleton admin-config address.
pub const ADMIN_CONFIG_SEED: &'static str = "admin-config";

/// Seed of a delegated operator record's address.
pub const OPERATOR_SEED: &'static str = "operator";

/// Seed of a per-asset lookup-table address.
pub const ASSET_LOOKUP_TABLE_SEED: &'static str = "asset-lookup-table";

} // verus!
