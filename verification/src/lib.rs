//! On-chain registry of tracked assets and their custodial token holders,
//! with role-gated mutation and an off-chain aggregate-valuation path.
//!
//! The registry associates each tracked asset with an oracle reference, a
//! token mint, and a capacity-bounded, duplicate-free list of token-holder
//! identities. Every mutation passes an admin/operator access-control gate.
//! The valuation side normalizes heterogeneous (price-exponent,
//! token-decimals) pairs to one canonical six-decimal USD scale and sums the
//! per-asset contributions into a total assets-under-management figure.

use vstd::prelude::*;

mod aggregator;
mod asset;
mod codec;
mod config;
mod constants;
mod error;
mod event;
mod instructions;
mod pubkey;
mod valuation;

pub use aggregator::asset_total;
pub use aggregator::calculate_asset_value;
pub use aggregator::data_views;
pub use aggregator::holder_balance;
pub use aggregator::holder_mismatch;
pub use aggregator::lemma_asset_total_matches_table_total;
pub use aggregator::price_update_of;
pub use aggregator::read_oracle_price;
pub use aggregator::read_token_account;
pub use aggregator::token_account_of;
pub use aggregator::PriceReading;
pub use aggregator::TokenAccountView;
pub use asset::lemma_add_then_remove_restores;
pub use asset::lemma_swap_remove_distinct;
pub use asset::AssetLookupTable;
pub use codec::le_bytes_to_i64;
pub use codec::le_bytes_to_nat;
pub use codec::parse_asset_lookup_table;
pub use codec::parse_unitas_config;
pub use codec::parse_usdu_config;
pub use codec::pow256;
pub use codec::pubkey_from_le;
pub use codec::spec_table_holder_count;
pub use codec::spec_table_holders;
pub use codec::spec_unitas_config;
pub use codec::spec_usdu_config;
pub use config::Operator;
pub use config::OperatorRegistry;
pub use config::UnitasConfig;
pub use config::UsduConfig;
pub use constants::ADMIN_CONFIG_SEED;
pub use constants::ASSET_LOOKUP_TABLE_SEED;
pub use constants::AUM_VALUE_SCALE_DECIMALS;
pub use constants::MAX_ACCOUNTS_PER_ASSET;
pub use constants::OPERATOR_SEED;
pub use error::ErrorCode;
pub use error::ValuationError;
pub use event::AccountAdded;
pub use event::AccountRemoved;
pub use event::AdminConfigCreated;
pub use event::AdminTransferAccepted;
pub use event::AdminTransferCompleted;
pub use event::AdminTransferProposed;
pub use event::AssetLookupTableCreated;
pub use event::AumUsdUpdated;
pub use event::OperatorAdded;
pub use event::OperatorRemoved;
pub use instructions::authorized;
pub use instructions::is_authorized;
pub use instructions::lemma_admin_transfer;
pub use instructions::lemma_unauthorized_rejected;
pub use instructions::process_accept_admin_transfer;
pub use instructions::process_add_account;
pub use instructions::process_add_operator;
pub use instructions::process_create_asset_lookup_table;
pub use instructions::process_init_admin_config;
pub use instructions::process_init_admin_config_result;
pub use instructions::process_propose_new_admin;
pub use instructions::process_remove_account;
pub use instructions::process_remove_operator;
pub use instructions::process_update_aum_usd;
pub use instructions::spec_accept_admin_transfer;
pub use instructions::spec_propose_new_admin;
pub use instructions::CreateAssetLookupTableArgs;
pub use pubkey::Pubkey;
pub use valuation::abs_val;
pub use valuation::asset_value;
pub use valuation::compute_asset_value;
pub use valuation::compute_table_total;
pub use valuation::compute_total_aum;
pub use valuation::derive_price_per_unit;
pub use valuation::lemma_sum_values_permutation;
pub use valuation::pow10;
pub use valuation::sum_values;
pub use valuation::table_total;
pub use valuation::ten_pow;
pub use valuation::ten_pow_checked;
pub use valuation::total_decimals;

verus! {

/// Create the singleton admin configuration. See
/// [`process_init_admin_config`].
pub fn init_admin_config(admin: Pubkey, usdu_config: Pubkey, config_key: Pubkey) -> (r: (
    UnitasConfig,
    AdminConfigCreated,
))
    requires
        !admin.is_zero(),
    ensures
        r == instructions::process_init_admin_config_result(admin, usdu_config, config_key),
        r.0.wf(),
{
    instructions::process_init_admin_config(admin, usdu_config, config_key)
}

/// Propose a new admin. See [`process_propose_new_admin`].
pub fn propose_new_admin(config: &mut UnitasConfig, caller: Pubkey, proposed: Pubkey) -> (r: Result<
    AdminTransferProposed,
    ErrorCode,
>)
    ensures
        (*final(config), r) == spec_propose_new_admin(*old(config), caller, proposed),
        old(config).wf() ==> final(config).wf(),
{
    instructions::process_propose_new_admin(config, caller, proposed)
}

/// Commit a pending admin transfer. See [`process_accept_admin_transfer`].
pub fn accept_admin_transfer(config: &mut UnitasConfig, caller: Pubkey) -> (r: Result<
    AdminTransferCompleted,
    ErrorCode,
>)
    ensures
        (*final(config), r) == spec_accept_admin_transfer(*old(config), caller),
        old(config).wf() ==> final(config).wf(),
{
    instructions::process_accept_admin_transfer(config, caller)
}

/// Create or overwrite an operator record. See [`process_add_operator`].
pub fn add_operator(
    config: &UnitasConfig,
    ops: &mut OperatorRegistry,
    caller: Pubkey,
    user: Pubkey,
) -> (r: Result<OperatorAdded, ErrorCode>)
    requires
        old(ops).wf(),
    ensures
        final(ops).wf(),
        caller != config.admin ==> r == Err::<OperatorAdded, ErrorCode>(ErrorCode::InvalidAdmin)
            && *final(ops) == *old(ops),
        caller == config.admin ==> r == Ok::<OperatorAdded, ErrorCode>(
            OperatorAdded { operator: user },
        ) && final(ops).contains_user(user),
        caller == config.admin && old(ops).contains_user(user) ==> *final(ops) == *old(ops),
        caller == config.admin && !old(ops).contains_user(user) ==> final(ops).users() == old(
            ops,
        ).users().push(user),
{
    instructions::process_add_operator(config, ops, caller, user)
}

/// Destroy an operator record. See [`process_remove_operator`].
pub fn remove_operator(
    config: &UnitasConfig,
    ops: &mut OperatorRegistry,
    caller: Pubkey,
    user: Pubkey,
) -> (r: Result<OperatorRemoved, ErrorCode>)
    requires
        old(ops).wf(),
    ensures
        final(ops).wf(),
        caller != config.admin ==> r == Err::<OperatorRemoved, ErrorCode>(ErrorCode::InvalidAdmin)
            && *final(ops) == *old(ops),
        caller == config.admin && !old(ops).contains_user(user) ==> r == Err::<
            OperatorRemoved,
            ErrorCode,
        >(ErrorCode::InvalidOperator) && *final(ops) == *old(ops),
        caller == config.admin && old(ops).contains_user(user) ==> r == Ok::<
            OperatorRemoved,
            ErrorCode,
        >(OperatorRemoved { operator: user }) && final(ops).users().len() == old(
            ops,
        ).users().len() - 1,
        caller == config.admin ==> forall|v: Pubkey|
            final(ops).contains_user(v) == (old(ops).contains_user(v) && !(r is Ok && v == user)),
{
    instructions::process_remove_operator(config, ops, caller, user)
}

/// Create the lookup table for one asset. See
/// [`process_create_asset_lookup_table`].
pub fn create_asset_lookup_table(
    config: &UnitasConfig,
    caller: Pubkey,
    asset_mint: Pubkey,
    args: CreateAssetLookupTableArgs,
    lookup_table_key: Pubkey,
) -> (r: Result<(AssetLookupTable, AssetLookupTableCreated), ErrorCode>)
    ensures
        caller != config.admin ==> r == Err::<(AssetLookupTable, AssetLookupTableCreated), ErrorCode>(
            ErrorCode::InvalidAdmin,
        ),
        caller == config.admin ==> r is Ok && {
            let (table, event) = r->Ok_0;
            &&& table.asset_mint == asset_mint
            &&& table.oracle_account == args.oracle_account
            &&& table.decimals == args.decimals
            &&& table.holders() == Seq::<Pubkey>::empty()
            &&& table.aum_usd == 0
            &&& table.last_updated_timestamp == 0
            &&& table.wf()
            &&& event == (AssetLookupTableCreated { lookup_table: lookup_table_key })
        },
{
    instructions::process_create_asset_lookup_table(config, caller, asset_mint, args, lookup_table_key)
}

/// Append a holder to an asset's table. See [`process_add_account`].
pub fn add_account(
    config: &UnitasConfig,
    ops: &OperatorRegistry,
    table: &mut AssetLookupTable,
    caller: Pubkey,
    account: Pubkey,
    lookup_table_key: Pubkey,
) -> (r: Result<AccountAdded, ErrorCode>)
    requires
        old(table).wf(),
    ensures
        final(table).wf(),
        AssetLookupTable::same_asset(*old(table), *final(table)),
        final(table).aum_usd == old(table).aum_usd,
        final(table).last_updated_timestamp == old(table).last_updated_timestamp,
        !authorized(*config, *ops, caller) ==> r == Err::<AccountAdded, ErrorCode>(
            ErrorCode::InvalidOperator,
        ) && *final(table) == *old(table),
        authorized(*config, *ops, caller) && old(table).has_holder(account) ==> r == Err::<
            AccountAdded,
            ErrorCode,
        >(ErrorCode::AccountAlreadyAdded) && *final(table) == *old(table),
        authorized(*config, *ops, caller) && !old(table).has_holder(account) && old(
            table,
        ).holders().len() == MAX_ACCOUNTS_PER_ASSET ==> r == Err::<AccountAdded, ErrorCode>(
            ErrorCode::AccountLimitReached,
        ) && *final(table) == *old(table),
        authorized(*config, *ops, caller) && !old(table).has_holder(account) && old(
            table,
        ).holders().len() < MAX_ACCOUNTS_PER_ASSET ==> r == Ok::<AccountAdded, ErrorCode>(
            AccountAdded { account, lookup_table: lookup_table_key },
        ) && final(table).holders() == old(table).holders().push(account),
{
    instructions::process_add_account(config, ops, table, caller, account, lookup_table_key)
}

/// Remove a holder from an asset's table. See [`process_remove_account`].
pub fn remove_account(
    config: &UnitasConfig,
    ops: &OperatorRegistry,
    table: &mut AssetLookupTable,
    caller: Pubkey,
    account: Pubkey,
    lookup_table_key: Pubkey,
) -> (r: Result<AccountRemoved, ErrorCode>)
    requires
        old(table).wf(),
    ensures
        final(table).wf(),
        AssetLookupTable::same_asset(*old(table), *final(table)),
        final(table).aum_usd == old(table).aum_usd,
        final(table).last_updated_timestamp == old(table).last_updated_timestamp,
        !authorized(*config, *ops, caller) ==> r == Err::<AccountRemoved, ErrorCode>(
            ErrorCode::InvalidOperator,
        ) && *final(table) == *old(table),
        authorized(*config, *ops, caller) && !old(table).has_holder(account) ==> r == Err::<
            AccountRemoved,
            ErrorCode,
        >(ErrorCode::InvalidAccount) && *final(table) == *old(table),
        authorized(*config, *ops, caller) && old(table).has_holder(account) ==> r == Ok::<
            AccountRemoved,
            ErrorCode,
        >(AccountRemoved { account, lookup_table: lookup_table_key })
            && final(table).holders().len() == old(table).holders().len() - 1,
        authorized(*config, *ops, caller) ==> forall|v: Pubkey|
            final(table).has_holder(v) == (old(table).has_holder(v) && !(r is Ok && v == account)),
{
    instructions::process_remove_account(config, ops, table, caller, account, lookup_table_key)
}

/// Post a new running total valuation. See [`process_update_aum_usd`].
pub fn update_aum_usd(
    config: &mut UnitasConfig,
    ops: &OperatorRegistry,
    caller: Pubkey,
    aum_usd: u128,
    now: i64,
    config_key: Pubkey,
) -> (r: Result<AumUsdUpdated, ErrorCode>)
    ensures
        !authorized(*old(config), *ops, caller) ==> r == Err::<AumUsdUpdated, ErrorCode>(
            ErrorCode::InvalidOperator,
        ) && *final(config) == *old(config),
        authorized(*old(config), *ops, caller) ==> r == Ok::<AumUsdUpdated, ErrorCode>(
            AumUsdUpdated { aum_usd, last_updated_timestamp: now, config: config_key },
        ) && *final(config) == (UnitasConfig {
            admin: old(config).admin,
            pending_admin: old(config).pending_admin,
            aum_usd,
            last_updated_timestamp: now,
            usdu_config: old(config).usdu_config,
        }),
        old(config).wf() ==> final(config).wf(),
{
    instructions::process_update_aum_usd(config, ops, caller, aum_usd, now, config_key)
}

} // verus!
