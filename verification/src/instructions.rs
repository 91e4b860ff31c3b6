//! The mutating instructions of the registry. Every one passes the
//! admin/operator access-control gate before touching state, fails with no
//! partial mutation, and emits an audit record on success.

use vstd::prelude::*;

use crate::asset::AssetLookupTable;
use crate::config::OperatorRegistry;
use crate::config::UnitasConfig;
use crate::constants::MAX_ACCOUNTS_PER_ASSET;
use crate::error::ErrorCode;
use crate::event::AccountAdded;
use crate::event::AccountRemoved;
use crate::event::AdminConfigCreated;
use crate::event::AdminTransferCompleted;
use crate::event::AdminTransferProposed;
use crate::event::AssetLookupTableCreated;
use crate::event::AumUsdUpdated;
use crate::event::OperatorAdded;
use crate::event::OperatorRemoved;
use crate::pubkey::Pubkey;

verus! {

/// The arguments of table creation: the oracle that prices the asset and the
/// token's decimal precision.
#[derive(Clone, Copy, Debug, PartialEq, Eq, Structural)]
pub struct CreateAssetLookupTableArgs {
    pub oracle_account: Pubkey,
    pub decimals: u8,
}

/// The authorization gate of every registry mutation: the caller must be the
/// admin or hold an operator record. The admin check comes first; a caller
/// that is neither is rejected hard, with no fallback.
pub open spec fn authorized(config: UnitasConfig, ops: OperatorRegistry, caller: Pubkey) -> bool {
    caller == config.admin || ops.contains_user(caller)
}

/// The authorization gate, as executable code.
pub fn is_authorized(config: &UnitasConfig, ops: &OperatorRegistry, caller: &Pubkey) -> (r: bool)
    ensures
        r == authorized(*config, *ops, *caller),
{
    if config.is_admin(caller) {
        true
    } else {
        ops.is_operator(caller)
    }
}

/// What initialization creates: a configuration with the given admin, no
/// pending proposal, and a zero running total, plus its audit record.
pub open spec fn process_init_admin_config_result(
    admin: Pubkey,
    usdu_config: Pubkey,
    config_key: Pubkey,
) -> (UnitasConfig, AdminConfigCreated) {
    (
        UnitasConfig {
            admin,
            pending_admin: Pubkey { lo: 0, hi: 0 },
            aum_usd: 0,
            last_updated_timestamp: 0,
            usdu_config,
        },
        AdminConfigCreated { admin, config: config_key },
    )
}

/// Create the singleton admin configuration, once, at deployment time.
/// `config_key` is the address the host assigned to the record.
pub fn process_init_admin_config(admin: Pubkey, usdu_config: Pubkey, config_key: Pubkey) -> (r: (
    UnitasConfig,
    AdminConfigCreated,
))
    requires
        !admin.is_zero(),
    ensures
        r == process_init_admin_config_result(admin, usdu_config, config_key),
        r.0.wf(),
{
    let config = UnitasConfig {
        admin,
        pending_admin: Pubkey::zero(),
        aum_usd: 0,
        last_updated_timestamp: 0,
        usdu_config,
    };
    let event = AdminConfigCreated { admin, config: config_key };
    (config, event)
}

/// What proposing a new admin does: only the current admin may propose, a
/// redundant re-proposal and a self-proposal are rejected, and on success
/// only `pending_admin` changes.
pub open spec fn spec_propose_new_admin(config: UnitasConfig, caller: Pubkey, proposed: Pubkey) -> (
    UnitasConfig,
    Result<AdminTransferProposed, ErrorCode>,
) {
    if caller != config.admin {
        (config, Err(ErrorCode::OnlyAdminCanProposeNewAdmin))
    } else if config.pending_admin == proposed {
        (config, Err(ErrorCode::ProposedAdminAlreadySet))
    } else if config.admin == proposed {
        (config, Err(ErrorCode::ProposedAdminIsCurrentAdmin))
    } else {
        (
            UnitasConfig {
                admin: config.admin,
                pending_admin: proposed,
                aum_usd: config.aum_usd,
                last_updated_timestamp: config.last_updated_timestamp,
                usdu_config: config.usdu_config,
            },
            Ok(AdminTransferProposed { current_admin: caller, proposed_admin: proposed }),
        )
    }
}

/// Propose `proposed` as the next admin.
pub fn process_propose_new_admin(
    config: &mut UnitasConfig,
    caller: Pubkey,
    proposed: Pubkey,
) -> (r: Result<AdminTransferProposed, ErrorCode>)
    ensures
        (*final(config), r) == spec_propose_new_admin(*old(config), caller, proposed),
        r is Ok <==> caller == old(config).admin && proposed != old(config).pending_admin
            && proposed != old(config).admin,
        r is Err ==> *final(config) == *old(config),
        old(config).wf() ==> final(config).wf(),
{
    if !config.is_admin(&caller) {
        return Err(ErrorCode::OnlyAdminCanProposeNewAdmin);
    }
    if config.pending_admin == proposed {
        return Err(ErrorCode::ProposedAdminAlreadySet);
    }
    if config.admin == proposed {
        return Err(ErrorCode::ProposedAdminIsCurrentAdmin);
    }
    config.pending_admin = proposed;
    Ok(AdminTransferProposed { current_admin: caller, proposed_admin: proposed })
}

/// What accepting an admin transfer does: only the pending admin, when one is
/// present, may accept; the proposal is then committed and cleared.
pub open spec fn spec_accept_admin_transfer(config: UnitasConfig, caller: Pubkey) -> (
    UnitasConfig,
    Result<AdminTransferCompleted, ErrorCode>,
) {
    if config.pending_admin.is_zero() || caller != config.pending_admin {
        (config, Err(ErrorCode::OnlyProposedAdminCanAccept))
    } else {
        (
            UnitasConfig {
                admin: caller,
                pending_admin: Pubkey { lo: 0, hi: 0 },
                aum_usd: config.aum_usd,
                last_updated_timestamp: config.last_updated_timestamp,
                usdu_config: config.usdu_config,
            },
            Ok(AdminTransferCompleted { previous_admin: config.admin, new_admin: caller }),
        )
    }
}

/// Commit a pending admin transfer.
pub fn process_accept_admin_transfer(config: &mut UnitasConfig, caller: Pubkey) -> (r: Result<
    AdminTransferCompleted,
    ErrorCode,
>)
    ensures
        (*final(config), r) == spec_accept_admin_transfer(*old(config), caller),
        r is Ok <==> !old(config).pending_admin.is_zero() && caller == old(config).pending_admin,
        r is Ok ==> final(config).admin == caller && final(config).pending_admin.is_zero(),
        r is Err ==> *final(config) == *old(config),
        old(config).wf() ==> final(config).wf(),
{
    if config.pending_admin.lo == 0 && config.pending_admin.hi == 0 {
        return Err(ErrorCode::OnlyProposedAdminCanAccept);
    }
    if config.pending_admin != caller {
        return Err(ErrorCode::OnlyProposedAdminCanAccept);
    }
    let previous_admin = config.admin;
    config.admin = caller;
    config.pending_admin = Pubkey::zero();
    Ok(AdminTransferCompleted { previous_admin, new_admin: caller })
}

/// Create or overwrite the operator record for `user`: admin-only, and an
/// idempotent upsert rather than an error on re-add.
pub fn process_add_operator(
    config: &UnitasConfig,
    ops: &mut OperatorRegistry,
    caller: Pubkey,
    user: Pubkey,
) -> (r: Result<OperatorAdded, ErrorCode>)
    requires
        old(ops).wf(),
    ensures
        final(ops).wf(),
        caller != config.admin ==> r == Err::<OperatorAdded, ErrorCode>(ErrorCode::InvalidAdmin)
            && *final(ops) == *old(ops),
        caller == config.admin ==> r == Ok::<OperatorAdded, ErrorCode>(
            OperatorAdded { operator: user },
        ) && final(ops).contains_user(user),
        caller == config.admin && old(ops).contains_user(user) ==> *final(ops) == *old(ops),
        caller == config.admin && !old(ops).contains_user(user) ==> final(ops).users() == old(
            ops,
        ).users().push(user),
{
    if !config.is_admin(&caller) {
        return Err(ErrorCode::InvalidAdmin);
    }
    ops.upsert(user);
    Ok(OperatorAdded { operator: user })
}

/// Destroy the operator record for `user`: admin-only, and an error when no
/// record for `user` exists.
pub fn process_remove_operator(
    config: &UnitasConfig,
    ops: &mut OperatorRegistry,
    caller: Pubkey,
    user: Pubkey,
) -> (r: Result<OperatorRemoved, ErrorCode>)
    requires
        old(ops).wf(),
    ensures
        final(ops).wf(),
        caller != config.admin ==> r == Err::<OperatorRemoved, ErrorCode>(ErrorCode::InvalidAdmin)
            && *final(ops) == *old(ops),
        caller == config.admin && !old(ops).contains_user(user) ==> r == Err::<
            OperatorRemoved,
            ErrorCode,
        >(ErrorCode::InvalidOperator) && *final(ops) == *old(ops),
        caller == config.admin && old(ops).contains_user(user) ==> r == Ok::<
            OperatorRemoved,
            ErrorCode,
        >(OperatorRemoved { operator: user }) && final(ops).users().len() == old(
            ops,
        ).users().len() - 1,
        caller == config.admin ==> forall|v: Pubkey|
            final(ops).contains_user(v) == (old(ops).contains_user(v) && !(r is Ok && v == user)),
{
    if !config.is_admin(&caller) {
        return Err(ErrorCode::InvalidAdmin);
    }
    if ops.remove(user) {
        Ok(OperatorRemoved { operator: user })
    } else {
        Err(ErrorCode::InvalidOperator)
    }
}

/// Create the lookup table for one asset: admin-only. `lookup_table_key` is
/// the address the host assigned to the table; the host guarantees it is
/// fresh per asset mint, so no duplicate table can arise here.
pub fn process_create_asset_lookup_table(
    config: &UnitasConfig,
    caller: Pubkey,
    asset_mint: Pubkey,
    args: CreateAssetLookupTableArgs,
    lookup_table_key: Pubkey,
) -> (r: Result<(AssetLookupTable, AssetLookupTableCreated), ErrorCode>)
    ensures
        caller != config.admin ==> r == Err::<(AssetLookupTable, AssetLookupTableCreated), ErrorCode>(
            ErrorCode::InvalidAdmin,
        ),
        caller == config.admin ==> r is Ok && {
            let (table, event) = r->Ok_0;
            &&& table.asset_mint == asset_mint
            &&& table.oracle_account == args.oracle_account
            &&& table.decimals == args.decimals
            &&& table.holders() == Seq::<Pubkey>::empty()
            &&& table.aum_usd == 0
            &&& table.last_updated_timestamp == 0
            &&& table.wf()
            &&& event == (AssetLookupTableCreated { lookup_table: lookup_table_key })
        },
{
    if !config.is_admin(&caller) {
        return Err(ErrorCode::InvalidAdmin);
    }
    let table = AssetLookupTable::new(asset_mint, args.oracle_account, args.decimals);
    Ok((table, AssetLookupTableCreated { lookup_table: lookup_table_key }))
}

/// Append a holder to an asset's table: admin or operator. An unauthorized
/// caller is rejected with no mutation; a duplicate holder or a full table
/// is rejected with no mutation.
pub fn process_add_account(
    config: &UnitasConfig,
    ops: &OperatorRegistry,
    table: &mut AssetLookupTable,
    caller: Pubkey,
    account: Pubkey,
    lookup_table_key: Pubkey,
) -> (r: Result<AccountAdded, ErrorCode>)
    requires
        old(table).wf(),
    ensures
        final(table).wf(),
        AssetLookupTable::same_asset(*old(table), *final(table)),
        final(table).aum_usd == old(table).aum_usd,
        final(table).last_updated_timestamp == old(table).last_updated_timestamp,
        !authorized(*config, *ops, caller) ==> r == Err::<AccountAdded, ErrorCode>(
            ErrorCode::InvalidOperator,
        ) && *final(table) == *old(table),
        authorized(*config, *ops, caller) && old(table).has_holder(account) ==> r == Err::<
            AccountAdded,
            ErrorCode,
        >(ErrorCode::AccountAlreadyAdded) && *final(table) == *old(table),
        authorized(*config, *ops, caller) && !old(table).has_holder(account) && old(
            table,
        ).holders().len() == MAX_ACCOUNTS_PER_ASSET ==> r == Err::<AccountAdded, ErrorCode>(
            ErrorCode::AccountLimitReached,
        ) && *final(table) == *old(table),
        authorized(*config, *ops, caller) && !old(table).has_holder(account) && old(
            table,
        ).holders().len() < MAX_ACCOUNTS_PER_ASSET ==> r == Ok::<AccountAdded, ErrorCode>(
            AccountAdded { account, lookup_table: lookup_table_key },
        ) && final(table).holders() == old(table).holders().push(account),
{
    if !is_authorized(config, ops, &caller) {
        return Err(ErrorCode::InvalidOperator);
    }
    match table.add_token_account_owner(account) {
        Ok(_) => Ok(AccountAdded { account, lookup_table: lookup_table_key }),
        Err(e) => Err(e),
    }
}

/// Remove a holder from an asset's table: admin or operator. An unauthorized
/// caller, or a holder that is not registered, is rejected with no mutation.
pub fn process_remove_account(
    config: &UnitasConfig,
    ops: &OperatorRegistry,
    table: &mut AssetLookupTable,
    caller: Pubkey,
    account: Pubkey,
    lookup_table_key: Pubkey,
) -> (r: Result<AccountRemoved, ErrorCode>)
    requires
        old(table).wf(),
    ensures
        final(table).wf(),
        AssetLookupTable::same_asset(*old(table), *final(table)),
        final(table).aum_usd == old(table).aum_usd,
        final(table).last_updated_timestamp == old(table).last_updated_timestamp,
        !authorized(*config, *ops, caller) ==> r == Err::<AccountRemoved, ErrorCode>(
            ErrorCode::InvalidOperator,
        ) && *final(table) == *old(table),
        authorized(*config, *ops, caller) && !old(table).has_holder(account) ==> r == Err::<
            AccountRemoved,
            ErrorCode,
        >(ErrorCode::InvalidAccount) && *final(table) == *old(table),
        authorized(*config, *ops, caller) && old(table).has_holder(account) ==> r == Ok::<
            AccountRemoved,
            ErrorCode,
        >(AccountRemoved { account, lookup_table: lookup_table_key })
            && final(table).holders().len() == old(table).holders().len() - 1,
        authorized(*config, *ops, caller) ==> forall|v: Pubkey|
            final(table).has_holder(v) == (old(table).has_holder(v) && !(r is Ok && v == account)),
{
    if !is_authorized(config, ops, &caller) {
        return Err(ErrorCode::InvalidOperator);
    }
    match table.remove_token_account_owner(account) {
        Ok(_) => Ok(AccountRemoved { account, lookup_table: lookup_table_key }),
        Err(e) => Err(e),
    }
}

/// Post a new running total valuation on the configuration, with the time of
/// the update: admin or operator.
pub fn process_update_aum_usd(
    config: &mut UnitasConfig,
    ops: &OperatorRegistry,
    caller: Pubkey,
    aum_usd: u128,
    now: i64,
    config_key: Pubkey,
) -> (r: Result<AumUsdUpdated, ErrorCode>)
    ensures
        !authorized(*old(config), *ops, caller) ==> r == Err::<AumUsdUpdated, ErrorCode>(
            ErrorCode::InvalidOperator,
        ) && *final(config) == *old(config),
        authorized(*old(config), *ops, caller) ==> r == Ok::<AumUsdUpdated, ErrorCode>(
            AumUsdUpdated { aum_usd, last_updated_timestamp: now, config: config_key },
        ) && *final(config) == (UnitasConfig {
            admin: old(config).admin,
            pending_admin: old(config).pending_admin,
            aum_usd,
            last_updated_timestamp: now,
            usdu_config: old(config).usdu_config,
        }),
        old(config).wf() ==> final(config).wf(),
{
    if !is_authorized(config, ops, &caller) {
        return Err(ErrorCode::InvalidOperator);
    }
    config.aum_usd = aum_usd;
    config.last_updated_timestamp = now;
    Ok(AumUsdUpdated { aum_usd, last_updated_timestamp: now, config: config_key })
}

/// Law: the two-phase admin handshake. When the admin proposes a fresh,
/// non-absent identity `x`, the proposal succeeds; acceptance by `x` then
/// succeeds and makes `x`, and no longer the previous admin, the admin,
/// while acceptance by anyone else fails and changes nothing.
pub proof fn lemma_admin_transfer(config: UnitasConfig, x: Pubkey, other: Pubkey)
    requires
        !x.is_zero(),
        x != config.admin,
        x != config.pending_admin,
        other != x,
    ensures
        ({
            let (c1, r1) = spec_propose_new_admin(config, config.admin, x);
            let (c2, r2) = spec_accept_admin_transfer(c1, x);
            let (c3, r3) = spec_accept_admin_transfer(c1, other);
            &&& r1 is Ok
            &&& r2 is Ok
            &&& c2.admin == x
            &&& c2.admin != config.admin
            &&& c2.pending_admin.is_zero()
            &&& r3 is Err
            &&& c3 == c1
        }),
{
}

/// Law: a caller that is neither the admin nor a registered operator cannot
/// mutate anything. The operator-gated instructions reject it with
/// `InvalidOperator` and the admin-only instructions with their own error,
/// each leaving state unchanged, as the contracts of the `process_` functions
/// state; for the admin handshake this follows from the transition functions
/// alone.
pub proof fn lemma_unauthorized_rejected(
    config: UnitasConfig,
    ops: OperatorRegistry,
    caller: Pubkey,
    target: Pubkey,
)
    requires
        caller != config.admin,
        !ops.contains_user(caller),
    ensures
        !authorized(config, ops, caller),
        spec_propose_new_admin(config, caller, target) == (
            config,
            Err::<AdminTransferProposed, ErrorCode>(ErrorCode::OnlyAdminCanProposeNewAdmin),
        ),
        caller != config.pending_admin || config.pending_admin.is_zero()
            ==> spec_accept_admin_transfer(config, caller) == (
            config,
            Err::<AdminTransferCompleted, ErrorCode>(ErrorCode::OnlyProposedAdminCanAccept),
        ),
{
}

} // verus!
