use unitas_oracle::add_account;
use unitas_oracle::add_operator;
use unitas_oracle::accept_admin_transfer;
use unitas_oracle::create_asset_lookup_table;
use unitas_oracle::init_admin_config;
use unitas_oracle::process_update_aum_usd;
use unitas_oracle::propose_new_admin;
use unitas_oracle::remove_account;
use unitas_oracle::remove_operator;
use unitas_oracle::update_aum_usd;
use unitas_oracle::AssetLookupTable;
use unitas_oracle::CreateAssetLookupTableArgs;
use unitas_oracle::ErrorCode;
use unitas_oracle::OperatorRegistry;
use unitas_oracle::Pubkey;
use unitas_oracle::UnitasConfig;
use unitas_oracle::MAX_ACCOUNTS_PER_ASSET;

fn key(n: u128) -> Pubkey {
    Pubkey { lo: n, hi: 0 }
}

fn fresh_config(admin: Pubkey) -> UnitasConfig {
    init_admin_config(admin, key(900), key(901)).0
}

fn fresh_table() -> AssetLookupTable {
    AssetLookupTable::new(key(800), key(801), 6)
}

#[test]
fn init_config_sets_admin_and_emits_record() {
    let (config, event) = init_admin_config(key(1), key(900), key(901));
    assert_eq!(config.admin, key(1));
    assert_eq!(config.pending_admin, key(0));
    assert_eq!(config.aum_usd, 0);
    assert_eq!(config.last_updated_timestamp, 0);
    assert_eq!(config.usdu_config, key(900));
    assert!(config.is_admin(&key(1)));
    assert!(!config.is_admin(&key(2)));
    assert_eq!(event.admin, key(1));
    assert_eq!(event.config, key(901));
}

#[test]
fn add_holder_then_remove_restores_list() {
    let mut table = fresh_table();
    table.add_token_account_owner(key(10)).unwrap();
    table.add_token_account_owner(key(11)).unwrap();
    let before = table.token_account_owners.clone();
    table.add_token_account_owner(key(12)).unwrap();
    table.remove_token_account_owner(key(12)).unwrap();
    assert_eq!(table.token_account_owners, before);
}

#[test]
fn duplicate_holder_is_rejected_without_change() {
    let mut table = fresh_table();
    table.add_token_account_owner(key(10)).unwrap();
    table.add_token_account_owner(key(11)).unwrap();
    let before = table.token_account_owners.clone();
    let r = table.add_token_account_owner(key(10));
    assert_eq!(r, Err(ErrorCode::AccountAlreadyAdded));
    assert_eq!(table.token_account_owners, before);
    assert_eq!(table.token_account_owners.len(), 2);
}

#[test]
fn capacity_bound_is_enforced() {
    let mut table = fresh_table();
    for i in 0..MAX_ACCOUNTS_PER_ASSET {
        table.add_token_account_owner(key(100 + i as u128)).unwrap();
    }
    assert_eq!(table.token_account_owners.len(), MAX_ACCOUNTS_PER_ASSET);
    let r = table.add_token_account_owner(key(777));
    assert_eq!(r, Err(ErrorCode::AccountLimitReached));
    assert_eq!(table.token_account_owners.len(), MAX_ACCOUNTS_PER_ASSET);
    // a duplicate on a full table still reports the duplicate
    let r = table.add_token_account_owner(key(100));
    assert_eq!(r, Err(ErrorCode::AccountAlreadyAdded));
}

#[test]
fn removing_missing_holder_is_rejected_without_change() {
    let mut table = fresh_table();
    table.add_token_account_owner(key(10)).unwrap();
    let before = table.token_account_owners.clone();
    let r = table.remove_token_account_owner(key(99));
    assert_eq!(r, Err(ErrorCode::InvalidAccount));
    assert_eq!(table.token_account_owners, before);
    let mut empty = fresh_table();
    assert_eq!(
        empty.remove_token_account_owner(key(1)),
        Err(ErrorCode::InvalidAccount)
    );
}

#[test]
fn swap_removal_moves_last_holder_into_slot() {
    let mut table = fresh_table();
    for i in 0..4u128 {
        table.add_token_account_owner(key(10 + i)).unwrap();
    }
    table.remove_token_account_owner(key(11)).unwrap();
    assert_eq!(
        table.token_account_owners,
        vec![key(10), key(13), key(12)]
    );
}

#[test]
fn admin_transfer_handshake() {
    let admin = key(1);
    let next = key(2);
    let mut config = fresh_config(admin);
    let event = propose_new_admin(&mut config, admin, next).unwrap();
    assert_eq!(event.current_admin, admin);
    assert_eq!(event.proposed_admin, next);
    assert_eq!(config.pending_admin, next);
    assert!(config.is_admin(&admin));

    // acceptance by anyone but the proposed identity fails
    let r = accept_admin_transfer(&mut config, key(3));
    assert_eq!(r, Err(ErrorCode::OnlyProposedAdminCanAccept));
    assert_eq!(config.pending_admin, next);

    let done = accept_admin_transfer(&mut config, next).unwrap();
    assert_eq!(done.previous_admin, admin);
    assert_eq!(done.new_admin, next);
    assert!(config.is_admin(&next));
    assert!(!config.is_admin(&admin));
    assert_eq!(config.pending_admin, key(0));
}

#[test]
fn propose_rejects_non_admin_redundant_and_self() {
    let admin = key(1);
    let mut config = fresh_config(admin);
    assert_eq!(
        propose_new_admin(&mut config, key(5), key(6)),
        Err(ErrorCode::OnlyAdminCanProposeNewAdmin)
    );
    propose_new_admin(&mut config, admin, key(2)).unwrap();
    assert_eq!(
        propose_new_admin(&mut config, admin, key(2)),
        Err(ErrorCode::ProposedAdminAlreadySet)
    );
    assert_eq!(
        propose_new_admin(&mut config, admin, admin),
        Err(ErrorCode::ProposedAdminIsCurrentAdmin)
    );
    // a different fresh candidate still overwrites the pending proposal
    propose_new_admin(&mut config, admin, key(3)).unwrap();
    assert_eq!(config.pending_admin, key(3));
}

#[test]
fn accept_without_pending_proposal_fails() {
    let mut config = fresh_config(key(1));
    assert_eq!(
        accept_admin_transfer(&mut config, key(0)),
        Err(ErrorCode::OnlyProposedAdminCanAccept)
    );
    assert_eq!(
        accept_admin_transfer(&mut config, key(2)),
        Err(ErrorCode::OnlyProposedAdminCanAccept)
    );
}

#[test]
fn operator_upsert_is_idempotent() {
    let admin = key(1);
    let config = fresh_config(admin);
    let mut ops = OperatorRegistry::new();
    let ev = add_operator(&config, &mut ops, admin, key(7)).unwrap();
    assert_eq!(ev.operator, key(7));
    assert_eq!(ops.operators.len(), 1);
    add_operator(&config, &mut ops, admin, key(7)).unwrap();
    assert_eq!(ops.operators.len(), 1);
    add_operator(&config, &mut ops, admin, key(8)).unwrap();
    assert_eq!(ops.operators.len(), 2);
}

#[test]
fn operator_removal() {
    let admin = key(1);
    let config = fresh_config(admin);
    let mut ops = OperatorRegistry::new();
    add_operator(&config, &mut ops, admin, key(7)).unwrap();
    assert_eq!(
        remove_operator(&config, &mut ops, admin, key(9)),
        Err(ErrorCode::InvalidOperator)
    );
    let ev = remove_operator(&config, &mut ops, admin, key(7)).unwrap();
    assert_eq!(ev.operator, key(7));
    assert_eq!(ops.operators.len(), 0);
    assert_eq!(
        remove_operator(&config, &mut ops, key(7), key(7)),
        Err(ErrorCode::InvalidAdmin)
    );
}

#[test]
fn operator_may_mutate_holders_and_aum() {
    let admin = key(1);
    let operator = key(7);
    let mut config = fresh_config(admin);
    let mut ops = OperatorRegistry::new();
    add_operator(&config, &mut ops, admin, operator).unwrap();
    let mut table = fresh_table();
    let ev = add_account(&config, &ops, &mut table, operator, key(10), key(801)).unwrap();
    assert_eq!(ev.account, key(10));
    assert_eq!(ev.lookup_table, key(801));
    let ev = remove_account(&config, &ops, &mut table, operator, key(10), key(801)).unwrap();
    assert_eq!(ev.account, key(10));
    assert!(table.token_account_owners.is_empty());
    let ev = update_aum_usd(&mut config, &ops, operator, 5_000_000, 1_700_000_000, key(901))
        .unwrap();
    assert_eq!(ev.aum_usd, 5_000_000);
    assert_eq!(ev.last_updated_timestamp, 1_700_000_000);
    assert_eq!(ev.config, key(901));
    assert_eq!(config.aum_usd, 5_000_000);
    assert_eq!(config.last_updated_timestamp, 1_700_000_000);
}

#[test]
fn unauthorized_caller_cannot_mutate_anything() {
    let admin = key(1);
    let stranger = key(66);
    let mut config = fresh_config(admin);
    let mut ops = OperatorRegistry::new();
    add_operator(&config, &mut ops, admin, key(7)).unwrap();
    let mut table = fresh_table();
    table.add_token_account_owner(key(10)).unwrap();
    let before_table = table.clone();
    let before_config = config;

    assert_eq!(
        add_account(&config, &ops, &mut table, stranger, key(11), key(801)),
        Err(ErrorCode::InvalidOperator)
    );
    assert_eq!(
        remove_account(&config, &ops, &mut table, stranger, key(10), key(801)),
        Err(ErrorCode::InvalidOperator)
    );
    assert_eq!(table, before_table);
    assert_eq!(
        update_aum_usd(&mut config, &ops, stranger, 9, 9, key(901)),
        Err(ErrorCode::InvalidOperator)
    );
    assert_eq!(config, before_config);
    assert_eq!(
        add_operator(&config, &mut ops, stranger, key(8)),
        Err(ErrorCode::InvalidAdmin)
    );
    assert_eq!(
        remove_operator(&config, &mut ops, stranger, key(7)),
        Err(ErrorCode::InvalidAdmin)
    );
    assert_eq!(ops.operators.len(), 1);
    assert_eq!(
        create_asset_lookup_table(
            &config,
            stranger,
            key(802),
            CreateAssetLookupTableArgs { oracle_account: key(803), decimals: 9 },
            key(804)
        ),
        Err(ErrorCode::InvalidAdmin)
    );
    assert_eq!(
        propose_new_admin(&mut config, stranger, key(5)),
        Err(ErrorCode::OnlyAdminCanProposeNewAdmin)
    );
}

#[test]
fn create_table_initializes_empty() {
    let admin = key(1);
    let config = fresh_config(admin);
    let (table, event) = create_asset_lookup_table(
        &config,
        admin,
        key(802),
        CreateAssetLookupTableArgs { oracle_account: key(803), decimals: 9 },
        key(804),
    )
    .unwrap();
    assert_eq!(table.asset_mint, key(802));
    assert_eq!(table.oracle_account, key(803));
    assert_eq!(table.decimals, 9);
    assert!(table.token_account_owners.is_empty());
    assert_eq!(table.aum_usd, 0);
    assert_eq!(table.last_updated_timestamp, 0);
    assert_eq!(event.lookup_table, key(804));
}

#[test]
fn set_aum_usd_posts_value_and_timestamp() {
    let mut table = fresh_table();
    table.set_aum_usd(42_000_000, 1_700_000_123);
    assert_eq!(table.aum_usd, 42_000_000);
    assert_eq!(table.last_updated_timestamp, 1_700_000_123);
}

#[test]
fn process_update_aum_usd_requires_gate() {
    let admin = key(1);
    let mut config = fresh_config(admin);
    let ops = OperatorRegistry::new();
    let ev = process_update_aum_usd(&mut config, &ops, admin, 7, 8, key(901)).unwrap();
    assert_eq!(ev.aum_usd, 7);
    assert_eq!(config.aum_usd, 7);
    assert_eq!(
        process_update_aum_usd(&mut config, &ops, key(2), 9, 9, key(901)),
        Err(ErrorCode::InvalidOperator)
    );
    assert_eq!(config.aum_usd, 7);
}

#[test]
fn registry_error_messages_are_human_readable() {
    assert_eq!(ErrorCode::InvalidAdmin.message(), "Invalid admin");
    assert_eq!(ErrorCode::AccountLimitReached.message(), "Account limit reached");
    assert_eq!(ErrorCode::AccountAlreadyAdded.message(), "Account already added");
    assert_eq!(ErrorCode::InvalidAccount.message(), "Invalid account");
    assert_eq!(ErrorCode::InvalidOperator.message(), "Invalid operator");
    assert_eq!(
        ErrorCode::OnlyProposedAdminCanAccept.message(),
        "Only proposed admin can accept admin transfer"
    );
}
