use anchor_lang::solana_program::program_option::COption;
use anchor_lang::solana_program::program_pack::Pack;
use anchor_lang::AccountSerialize;
use anchor_spl::token::spl_token::state::Account as SplAccount;
use anchor_spl::token::spl_token::state::AccountState;
use pyth_solana_receiver_sdk::price_update::PriceFeedMessage;
use pyth_solana_receiver_sdk::price_update::PriceUpdateV2;
use pyth_solana_receiver_sdk::price_update::VerificationLevel;

use unitas_oracle::calculate_asset_value;
use unitas_oracle::read_oracle_price;
use unitas_oracle::read_token_account;
use unitas_oracle::AssetLookupTable;
use unitas_oracle::Pubkey;
use unitas_oracle::ValuationError;

fn key(n: u128) -> Pubkey {
    Pubkey { lo: n, hi: n + 2 }
}

fn sol_key(k: Pubkey) -> anchor_lang::prelude::Pubkey {
    let mut bytes = [0u8; 32];
    bytes[..16].copy_from_slice(&k.lo.to_le_bytes());
    bytes[16..].copy_from_slice(&k.hi.to_le_bytes());
    anchor_lang::prelude::Pubkey::new_from_array(bytes)
}

fn oracle_bytes(price: i64, exponent: i32) -> Vec<u8> {
    let update = PriceUpdateV2 {
        write_authority: anchor_lang::prelude::Pubkey::default(),
        verification_level: VerificationLevel::Full,
        price_message: PriceFeedMessage {
            feed_id: [7u8; 32],
            price,
            conf: 25,
            exponent,
            publish_time: 1_700_000_000,
            prev_publish_time: 1_699_999_999,
            ema_price: price,
            ema_conf: 25,
        },
        posted_slot: 1234,
    };
    let mut out = Vec::new();
    update.try_serialize(&mut out).unwrap();
    out
}

fn token_account_bytes(owner: Pubkey, mint: Pubkey, amount: u64) -> Vec<u8> {
    let account = SplAccount {
        mint: sol_key(mint),
        owner: sol_key(owner),
        amount,
        delegate: COption::None,
        state: AccountState::Initialized,
        is_native: COption::None,
        delegated_amount: 0,
        close_authority: COption::None,
    };
    let mut out = vec![0u8; SplAccount::LEN];
    SplAccount::pack(account, &mut out).unwrap();
    out
}

#[test]
fn oracle_record_decodes_to_price_and_exponent() {
    let data = oracle_bytes(150_000_000, -8);
    let reading = read_oracle_price(&data).unwrap();
    assert_eq!(reading.price, 150_000_000);
    assert_eq!(reading.exponent, -8);
}

#[test]
fn garbage_oracle_record_is_malformed() {
    assert_eq!(
        read_oracle_price(&[1, 2, 3]),
        Err(ValuationError::MalformedExternalData)
    );
    let mut data = oracle_bytes(1, -1);
    data[0] ^= 0xff; // break the record tag
    assert_eq!(
        read_oracle_price(&data),
        Err(ValuationError::MalformedExternalData)
    );
}

#[test]
fn token_account_record_decodes() {
    let data = token_account_bytes(key(5), key(6), 42);
    let acct = read_token_account(&data).unwrap();
    assert_eq!(acct.owner, key(5));
    assert_eq!(acct.mint, key(6));
    assert_eq!(acct.amount, 42);
}

#[test]
fn garbage_token_account_record_is_malformed() {
    assert_eq!(
        read_token_account(&[0u8; 10]),
        Err(ValuationError::MalformedExternalData)
    );
}

#[test]
fn asset_value_from_fetched_state() {
    let mut table = AssetLookupTable::new(key(1), key(2), 6);
    table.add_token_account_owner(key(10)).unwrap();
    table.add_token_account_owner(key(11)).unwrap();
    table.add_token_account_owner(key(12)).unwrap();
    let oracle = oracle_bytes(150_000_000, -8);
    let holder_data = vec![
        Some(token_account_bytes(key(10), key(1), 2_000_000)),
        Some(token_account_bytes(key(11), key(1), 1_000_000)),
        // this account could not be fetched: zero contribution
        None,
    ];
    let total = calculate_asset_value(&table, &oracle, &holder_data).unwrap();
    assert_eq!(total, 3_000_000 + 1_500_000);
}

#[test]
fn undecodable_holder_record_contributes_zero() {
    let mut table = AssetLookupTable::new(key(1), key(2), 6);
    table.add_token_account_owner(key(10)).unwrap();
    table.add_token_account_owner(key(11)).unwrap();
    let oracle = oracle_bytes(150_000_000, -8);
    let holder_data = vec![
        Some(vec![9u8; 11]),
        Some(token_account_bytes(key(11), key(1), 2_000_000)),
    ];
    let total = calculate_asset_value(&table, &oracle, &holder_data).unwrap();
    assert_eq!(total, 3_000_000);
}

#[test]
fn mismatched_holder_record_is_fatal() {
    let mut table = AssetLookupTable::new(key(1), key(2), 6);
    table.add_token_account_owner(key(10)).unwrap();
    let oracle = oracle_bytes(150_000_000, -8);
    // decodes, but its owner is not the registered holder
    let holder_data = vec![Some(token_account_bytes(key(66), key(1), 2_000_000))];
    assert_eq!(
        calculate_asset_value(&table, &oracle, &holder_data),
        Err(ValuationError::MismatchedAsset)
    );
    // decodes, but for a different mint
    let holder_data = vec![Some(token_account_bytes(key(10), key(9), 2_000_000))];
    assert_eq!(
        calculate_asset_value(&table, &oracle, &holder_data),
        Err(ValuationError::MismatchedAsset)
    );
}

#[test]
fn unparseable_oracle_record_is_fatal() {
    let mut table = AssetLookupTable::new(key(1), key(2), 6);
    table.add_token_account_owner(key(10)).unwrap();
    let holder_data = vec![None];
    assert_eq!(
        calculate_asset_value(&table, &[4u8; 4], &holder_data),
        Err(ValuationError::MalformedExternalData)
    );
}

#[test]
fn out_of_range_exponent_is_fatal() {
    let mut table = AssetLookupTable::new(key(1), key(2), 30);
    table.add_token_account_owner(key(10)).unwrap();
    // |exponent| + decimals = 37: beyond the scaler's domain
    let oracle = oracle_bytes(150_000_000, -7);
    let holder_data = vec![None];
    assert_eq!(
        calculate_asset_value(&table, &oracle, &holder_data),
        Err(ValuationError::MalformedExternalData)
    );
}

#[test]
fn negative_oracle_price_contributes_its_magnitude() {
    let mut table = AssetLookupTable::new(key(1), key(2), 6);
    table.add_token_account_owner(key(10)).unwrap();
    let oracle = oracle_bytes(-150_000_000, -8);
    let holder_data = vec![Some(token_account_bytes(key(10), key(1), 2_000_000))];
    let total = calculate_asset_value(&table, &oracle, &holder_data).unwrap();
    assert_eq!(total, 3_000_000);
}
