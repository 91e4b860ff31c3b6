use unitas_oracle::parse_asset_lookup_table;
use unitas_oracle::parse_unitas_config;
use unitas_oracle::parse_usdu_config;
use unitas_oracle::Pubkey;
use unitas_oracle::ValuationError;

fn push_pubkey(out: &mut Vec<u8>, k: Pubkey) {
    out.extend_from_slice(&k.lo.to_le_bytes());
    out.extend_from_slice(&k.hi.to_le_bytes());
}

fn key(n: u128) -> Pubkey {
    Pubkey { lo: n, hi: n + 1 }
}

fn unitas_config_bytes(
    admin: Pubkey,
    pending: Pubkey,
    aum: u128,
    ts: i64,
    usdu: Pubkey,
) -> Vec<u8> {
    let mut out = vec![0u8; 8];
    push_pubkey(&mut out, admin);
    push_pubkey(&mut out, pending);
    out.extend_from_slice(&aum.to_le_bytes());
    out.extend_from_slice(&ts.to_le_bytes());
    push_pubkey(&mut out, usdu);
    out
}

#[test]
fn unitas_config_record_decodes() {
    let data = unitas_config_bytes(key(1), key(2), 5_000_000, -42, key(3));
    let c = parse_unitas_config(&data).unwrap();
    assert_eq!(c.admin, key(1));
    assert_eq!(c.pending_admin, key(2));
    assert_eq!(c.aum_usd, 5_000_000);
    assert_eq!(c.last_updated_timestamp, -42);
    assert_eq!(c.usdu_config, key(3));
}

#[test]
fn short_config_record_is_malformed() {
    let data = unitas_config_bytes(key(1), key(2), 0, 0, key(3));
    assert_eq!(
        parse_unitas_config(&data[..127]),
        Err(ValuationError::MalformedExternalData)
    );
    assert_eq!(
        parse_unitas_config(&[]),
        Err(ValuationError::MalformedExternalData)
    );
    assert_eq!(
        parse_unitas_config(&data[..7]),
        Err(ValuationError::MalformedExternalData)
    );
}

fn usdu_config_bytes(init_byte: u8, token_init_byte: u8, supply: u128) -> Vec<u8> {
    let mut out = vec![0u8; 8];
    push_pubkey(&mut out, key(1));
    push_pubkey(&mut out, key(2));
    push_pubkey(&mut out, key(3));
    out.push(254); // bump
    out.push(init_byte);
    push_pubkey(&mut out, key(4));
    out.push(253); // token bump
    out.push(token_init_byte);
    out.extend_from_slice(&supply.to_le_bytes());
    out
}

#[test]
fn usdu_config_record_decodes() {
    let data = usdu_config_bytes(1, 0, 123_456_789);
    let c = parse_usdu_config(&data).unwrap();
    assert_eq!(c.admin, key(1));
    assert_eq!(c.pending_admin, key(2));
    assert_eq!(c.access_registry, key(3));
    assert_eq!(c.bump, 254);
    assert!(c.is_initialized);
    assert_eq!(c.usdu_token, key(4));
    assert_eq!(c.usdu_token_bump, 253);
    assert!(!c.is_usdu_token_initialized);
    assert_eq!(c.total_supply, 123_456_789);
}

#[test]
fn usdu_config_with_bad_boolean_is_malformed() {
    let data = usdu_config_bytes(2, 0, 1);
    assert_eq!(
        parse_usdu_config(&data),
        Err(ValuationError::MalformedExternalData)
    );
    let data = usdu_config_bytes(0, 7, 1);
    assert_eq!(
        parse_usdu_config(&data),
        Err(ValuationError::MalformedExternalData)
    );
    let ok = usdu_config_bytes(0, 1, 1);
    assert_eq!(
        parse_usdu_config(&ok[..155]),
        Err(ValuationError::MalformedExternalData)
    );
}

fn asset_table_bytes(
    mint: Pubkey,
    oracle: Pubkey,
    decimals: u8,
    holders: &[Pubkey],
    aum: u128,
    ts: i64,
) -> Vec<u8> {
    let mut out = vec![0u8; 8];
    push_pubkey(&mut out, mint);
    push_pubkey(&mut out, oracle);
    out.push(decimals);
    out.extend_from_slice(&(holders.len() as u32).to_le_bytes());
    for h in holders {
        push_pubkey(&mut out, *h);
    }
    out.extend_from_slice(&aum.to_le_bytes());
    out.extend_from_slice(&ts.to_le_bytes());
    out
}

#[test]
fn asset_table_record_decodes() {
    let holders = [key(10), key(11)];
    let data = asset_table_bytes(key(1), key(2), 6, &holders, 9_000_000, -7);
    let t = parse_asset_lookup_table(&data).unwrap();
    assert_eq!(t.asset_mint, key(1));
    assert_eq!(t.oracle_account, key(2));
    assert_eq!(t.decimals, 6);
    assert_eq!(t.token_account_owners, vec![key(10), key(11)]);
    assert_eq!(t.aum_usd, 9_000_000);
    assert_eq!(t.last_updated_timestamp, -7);
}

#[test]
fn asset_table_with_no_holders_decodes() {
    let data = asset_table_bytes(key(1), key(2), 9, &[], 0, 0);
    let t = parse_asset_lookup_table(&data).unwrap();
    assert!(t.token_account_owners.is_empty());
}

#[test]
fn asset_table_with_duplicate_holder_is_malformed() {
    let holders = [key(10), key(11), key(10)];
    let data = asset_table_bytes(key(1), key(2), 6, &holders, 0, 0);
    assert_eq!(
        parse_asset_lookup_table(&data),
        Err(ValuationError::MalformedExternalData)
    );
}

#[test]
fn asset_table_over_capacity_is_malformed() {
    let holders: Vec<Pubkey> = (0..17u128).map(key).collect();
    let data = asset_table_bytes(key(1), key(2), 6, &holders, 0, 0);
    assert_eq!(
        parse_asset_lookup_table(&data),
        Err(ValuationError::MalformedExternalData)
    );
}

#[test]
fn truncated_asset_table_is_malformed() {
    let holders = [key(10)];
    let data = asset_table_bytes(key(1), key(2), 6, &holders, 1, 1);
    assert_eq!(
        parse_asset_lookup_table(&data[..data.len() - 1]),
        Err(ValuationError::MalformedExternalData)
    );
    assert_eq!(
        parse_asset_lookup_table(&data[..76]),
        Err(ValuationError::MalformedExternalData)
    );
}
