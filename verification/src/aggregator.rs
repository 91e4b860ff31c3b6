//! The read-only valuation path: decode an oracle reading and the fetched
//! holder token accounts, cross-check them against what the registry
//! records, and compute one asset's USD contribution.
//!
//! Fetching the account bytes is the caller's concern; everything from raw
//! bytes to the summed contribution happens here.

use vstd::prelude::*;

use anchor_lang::AccountDeserialize;

use crate::asset::AssetLookupTable;
use crate::error::ValuationError;
use crate::pubkey::Pubkey;
use crate::valuation::abs_val;
use crate::valuation::asset_value;
use crate::valuation::compute_asset_value;
use crate::valuation::table_total;
use crate::valuation::total_decimals;

verus! {

/// One oracle reading: the signed price and its decimal exponent.
#[derive(Clone, Copy, Debug, PartialEq, Eq, Structural)]
pub struct PriceReading {
    pub price: i64,
    pub exponent: i32,
}

/// One fetched token account, reduced to the fields valuation reads.
#[derive(Clone, Copy, Debug, PartialEq, Eq, Structural)]
pub struct TokenAccountView {
    pub mint: Pubkey,
    pub owner: Pubkey,
    pub amount: u64,
}

/// What a price-update record denotes, as the oracle receiver program
/// defines it: a function of the bytes alone.
pub uninterp spec fn price_update_of(data: Seq<u8>) -> Option<PriceReading>;

/// What a token-account record denotes, as the token program defines it: a
/// function of the bytes alone.
pub uninterp spec fn token_account_of(data: Seq<u8>) -> Option<TokenAccountView>;

/// Relies on `pyth_solana_receiver_sdk::price_update::PriceUpdateV2::try_deserialize`:
/// decoding a price-update account is a pure function of its bytes, and the
/// feed's price and exponent are the two fields read here.
#[verifier::external_body]
fn parse_price_update(data: &[u8]) -> (r: Option<PriceReading>)
    ensures
        r == price_update_of(data@),
{
    match pyth_solana_receiver_sdk::price_update::PriceUpdateV2::try_deserialize(&mut &data[..]) {
        Ok(p) => Some(
            PriceReading { price: p.price_message.price, exponent: p.price_message.exponent },
        ),
        Err(_) => None,
    }
}

/// Relies on `anchor_spl::token::TokenAccount::try_deserialize`: unpacking a
/// token account is a pure function of its bytes; its mint, owner and amount
/// are read here, the identities carried over as two little-endian words.
#[verifier::external_body]
fn parse_token_account(data: &[u8]) -> (r: Option<TokenAccountView>)
    ensures
        r == token_account_of(data@),
{
    let key = |b: [u8; 32]| Pubkey {
        lo: u128::from_le_bytes(b[0..16].try_into().unwrap()),
        hi: u128::from_le_bytes(b[16..32].try_into().unwrap()),
    };
    match anchor_spl::token::TokenAccount::try_deserialize(&mut &data[..]) {
        Ok(t) => Some(
            TokenAccountView { mint: key(t.mint.to_bytes()), owner: key(t.owner.to_bytes()), amount: t.amount },
        ),
        Err(_) => None,
    }
}

/// Decode an oracle price-update record.
///
/// Fails with `MalformedExternalData` exactly when the bytes do not decode.
pub fn read_oracle_price(data: &[u8]) -> (r: Result<PriceReading, ValuationError>)
    ensures
        r is Ok <==> price_update_of(data@) is Some,
        r is Ok ==> r->Ok_0 == price_update_of(data@)->Some_0,
        r is Err ==> r == Err::<PriceReading, ValuationError>(
            ValuationError::MalformedExternalData,
        ),
{
    match parse_price_update(data) {
        Some(p) => Ok(p),
        None => Err(ValuationError::MalformedExternalData),
    }
}

/// Decode a fetched token-account record.
///
/// Fails with `MalformedExternalData` exactly when the bytes do not decode.
pub fn read_token_account(data: &[u8]) -> (r: Result<TokenAccountView, ValuationError>)
    ensures
        r is Ok <==> token_account_of(data@) is Some,
        r is Ok ==> r->Ok_0 == token_account_of(data@)->Some_0,
        r is Err ==> r == Err::<TokenAccountView, ValuationError>(
            ValuationError::MalformedExternalData,
        ),
{
    match parse_token_account(data) {
        Some(t) => Ok(t),
        None => Err(ValuationError::MalformedExternalData),
    }
}

/// The views of a list of fetched records, each either absent or its bytes.
pub open spec fn data_views(ds: Seq<Option<Vec<u8>>>) -> Seq<Option<Seq<u8>>> {
    ds.map_values(
        |o: Option<Vec<u8>>|
            if o is Some {
                Some(o->Some_0@)
            } else {
                None
            },
    )
}

/// True when a fetched holder record decodes but does not correspond to what
/// the registry records: its owner is not the registered holder, or its mint
/// is not the table's asset. Validation escalates this to a hard failure.
pub open spec fn holder_mismatch(mint: Pubkey, holder: Pubkey, d: Option<Seq<u8>>) -> bool {
    d is Some && token_account_of(d->Some_0) is Some && {
        let a = token_account_of(d->Some_0)->Some_0;
        a.owner != holder || a.mint != mint
    }
}

/// The balance a fetched holder record contributes: its amount when it
/// decodes, zero when the record is absent or does not decode (a
/// recoverable, reported condition). A decoded record that does not match
/// the registry never reaches the sum: validation rejects it first.
pub open spec fn holder_balance(d: Option<Seq<u8>>) -> nat {
    if d is Some && token_account_of(d->Some_0) is Some {
        token_account_of(d->Some_0)->Some_0.amount as nat
    } else {
        0
    }
}

/// The USD contribution of one asset: the sum, over its holders, of the
/// value of each fetched balance at the oracle's price.
pub open spec fn asset_total(
    price: int,
    exponent: int,
    token_decimals: nat,
    datas: Seq<Option<Seq<u8>>>,
) -> int
    decreases datas.len(),
{
    if datas.len() == 0 {
        0
    } else {
        asset_total(price, exponent, token_decimals, datas.drop_last()) + asset_value(
            price,
            exponent,
            holder_balance(datas.last()),
            token_decimals,
        )
    }
}

/// Law: the byte-level total agrees with the valuation engine. Summing the
/// value of each fetched record equals summing, with [`table_total`], the
/// balances those records contribute.
pub proof fn lemma_asset_total_matches_table_total(
    price: int,
    exponent: int,
    token_decimals: nat,
    datas: Seq<Option<Seq<u8>>>,
)
    ensures
        asset_total(price, exponent, token_decimals, datas) == table_total(
            price,
            exponent,
            token_decimals,
            datas.map_values(|d: Option<Seq<u8>>| holder_balance(d) as u64),
        ),
    decreases datas.len(),
{
    let balances = datas.map_values(|d: Option<Seq<u8>>| holder_balance(d) as u64);
    if datas.len() > 0 {
        assert(balances.drop_last() =~= datas.drop_last().map_values(
            |d: Option<Seq<u8>>| holder_balance(d) as u64,
        ));
        assert(balances.last() == holder_balance(datas.last()) as u64);
        lemma_asset_total_matches_table_total(price, exponent, token_decimals, datas.drop_last());
    } else {
        assert(balances =~= Seq::<u64>::empty());
    }
}

/// A prefix never sums to more than the whole list.
proof fn lemma_asset_total_prefix(
    price: int,
    exponent: int,
    token_decimals: nat,
    datas: Seq<Option<Seq<u8>>>,
    i: int,
)
    requires
        0 <= i <= datas.len(),
    ensures
        asset_total(price, exponent, token_decimals, datas.take(i)) <= asset_total(
            price,
            exponent,
            token_decimals,
            datas,
        ),
    decreases datas.len() - i,
{
    if i < datas.len() {
        assert(datas.take(i + 1).drop_last() =~= datas.take(i));
        assert(datas.take(i + 1).last() == datas[i]);
        lemma_asset_total_prefix(price, exponent, token_decimals, datas, i + 1);
    } else {
        assert(datas.take(i) =~= datas);
    }
}

/// Compute one asset's USD contribution to the total valuation, from the
/// oracle record's bytes and each registered holder's fetched token-account
/// bytes (absent entries stand for accounts that could not be fetched and
/// contribute zero).
///
/// Fails with `MalformedExternalData` when the oracle record does not decode
/// or its exponent leaves the scaler's domain; with `MismatchedAsset` when a
/// decoded holder record does not correspond to the registry (checked for
/// every holder before anything is summed); and with `ArithmeticOverflow`
/// exactly when the total exceeds the 128-bit width.
pub fn calculate_asset_value(
    table: &AssetLookupTable,
    oracle_data: &[u8],
    holder_account_data: &Vec<Option<Vec<u8>>>,
) -> (r: Result<u128, ValuationError>)
    requires
        holder_account_data@.len() == table.holders().len(),
    ensures
        ({
            let po = price_update_of(oracle_data@);
            let ds = data_views(holder_account_data@);
            &&& (po is None || (po is Some && total_decimals(
                po->Some_0.exponent as int,
                table.decimals as nat,
            ) > 36)) <==> r == Err::<u128, ValuationError>(ValuationError::MalformedExternalData)
            &&& po is Some && total_decimals(po->Some_0.exponent as int, table.decimals as nat)
                <= 36 ==> {
                let price = po->Some_0.price as int;
                let exponent = po->Some_0.exponent as int;
                &&& (exists|i: int|
                    0 <= i < ds.len() && holder_mismatch(
                        table.asset_mint,
                        table.holders()[i],
                        ds[i],
                    )) <==> r == Err::<u128, ValuationError>(ValuationError::MismatchedAsset)
                &&& (forall|i: int|
                    0 <= i < ds.len() ==> !holder_mismatch(
                        table.asset_mint,
                        table.holders()[i],
                        ds[i],
                    )) ==> {
                    &&& (r is Ok <==> asset_total(price, exponent, table.decimals as nat, ds)
                        <= u128::MAX)
                    &&& (r is Ok ==> r->Ok_0 == asset_total(
                        price,
                        exponent,
                        table.decimals as nat,
                        ds,
                    ))
                    &&& (!(r is Ok) ==> r == Err::<u128, ValuationError>(
                        ValuationError::ArithmeticOverflow,
                    ))
                }
            }
        }),
{
    let reading = match parse_price_update(oracle_data) {
        Some(p) => p,
        None => {
            return Err(ValuationError::MalformedExternalData);
        },
    };
    let e_abs: u32 = if reading.exponent >= 0 {
        reading.exponent as u32
    } else {
        (-(reading.exponent as i64)) as u32
    };
    assert(e_abs == abs_val(reading.exponent as int));
    if e_abs + (table.decimals as u32) > 36 {
        return Err(ValuationError::MalformedExternalData);
    }
    let ghost ds = data_views(holder_account_data@);
    let n = holder_account_data.len();
    let mut i: usize = 0;
    while i < n
        invariant
            n == holder_account_data@.len() == table.holders().len(),
            0 <= i <= n,
            ds == data_views(holder_account_data@),
            price_update_of(oracle_data@) == Some(reading),
            total_decimals(reading.exponent as int, table.decimals as nat) <= 36,
            forall|k: int|
                0 <= k < i ==> !holder_mismatch(table.asset_mint, table.holders()[k], ds[k]),
        decreases n - i,
    {
        match &holder_account_data[i] {
            Some(bytes) => {
                match parse_token_account(bytes.as_slice()) {
                    Some(acct) => {
                        if !(acct.owner == table.token_account_owners[i]) || !(acct.mint
                            == table.asset_mint) {
                            assert(holder_mismatch(
                                table.asset_mint,
                                table.holders()[i as int],
                                ds[i as int],
                            ));
                            return Err(ValuationError::MismatchedAsset);
                        }
                    },
                    None => {},
                }
            },
            None => {},
        }
        i = i + 1;
    }
    let ghost price = reading.price as int;
    let ghost exponent = reading.exponent as int;
    let ghost gd = table.decimals as nat;
    let mut total: u128 = 0;
    let mut j: usize = 0;
    while j < n
        invariant
            n == holder_account_data@.len() == table.holders().len(),
            0 <= j <= n,
            ds == data_views(holder_account_data@),
            price_update_of(oracle_data@) == Some(reading),
            price == reading.price as int,
            exponent == reading.exponent as int,
            gd == table.decimals as nat,
            total_decimals(exponent, gd) <= 36,
            forall|k: int|
                0 <= k < n ==> !holder_mismatch(table.asset_mint, table.holders()[k], ds[k]),
            total == asset_total(price, exponent, gd, ds.take(j as int)),
        decreases n - j,
    {
        proof {
            assert(ds.take(j + 1).drop_last() =~= ds.take(j as int));
            assert(ds.take(j + 1).last() == ds[j as int]);
        }
        let balance: u64 = match &holder_account_data[j] {
            Some(bytes) => {
                match parse_token_account(bytes.as_slice()) {
                    Some(acct) => acct.amount,
                    None => 0,
                }
            },
            None => 0,
        };
        assert(balance == holder_balance(ds[j as int]));
        let v = match compute_asset_value(reading.price, reading.exponent, balance, table.decimals) {
            Ok(v) => v,
            Err(e) => {
                proof {
                    lemma_asset_total_prefix(price, exponent, gd, ds, j + 1);
                }
                return Err(e);
            },
        };
        total = match total.checked_add(v) {
            Some(t) => t,
            None => {
                proof {
                    lemma_asset_total_prefix(price, exponent, gd, ds, j + 1);
                }
                return Err(ValuationError::ArithmeticOverflow);
            },
        };
        j = j + 1;
    }
    proof {
        assert(ds.take(n as int) =~= ds);
    }
    Ok(total)
}

} // verus!
