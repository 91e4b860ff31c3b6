//! Byte-level decoding of the account records the aggregator reads: the
//! admin configuration, the per-asset lookup tables, and the companion
//! supply configuration. Each record is an 8-byte discriminator followed by
//! its fields, little-endian, with every list length-prefixed by a 32-bit
//! count. Bytes that do not fit the expected shape are malformed external
//! data, never a panic.

use vstd::prelude::*;

use crate::asset::AssetLookupTable;
use crate::config::UnitasConfig;
use crate::config::UsduConfig;
use crate::constants::MAX_ACCOUNTS_PER_ASSET;
use crate::error::ValuationError;
use crate::pubkey::Pubkey;

verus! {

/// `256^n`: the number of values of an `n`-byte field.
pub open spec fn pow256(n: nat) -> nat
    decreases n,
{
    if n == 0 {
        1
    } else {
        256 * pow256((n - 1) as nat)
    }
}

/// The unsigned integer a little-endian byte string denotes: the first byte
/// is the least significant.
pub open spec fn le_bytes_to_nat(s: Seq<u8>) -> nat
    decreases s.len(),
{
    if s.len() == 0 {
        0
    } else {
        (s[0] + 256 * le_bytes_to_nat(s.drop_first())) as nat
    }
}

/// The signed 64-bit integer a little-endian byte string denotes, in two's
/// complement.
pub open spec fn le_bytes_to_i64(s: Seq<u8>) -> int {
    let n = le_bytes_to_nat(s);
    if n < 0x8000000000000000 {
        n as int
    } else {
        n - 0x10000000000000000
    }
}

/// The identity a 32-byte string denotes: two little-endian 16-byte words.
pub open spec fn pubkey_from_le(s: Seq<u8>) -> Pubkey {
    Pubkey {
        lo: le_bytes_to_nat(s.subrange(0, 16)) as u128,
        hi: le_bytes_to_nat(s.subrange(16, 32)) as u128,
    }
}

/// An `n`-byte string denotes fewer than `256^n`.
proof fn lemma_le_bytes_bound(s: Seq<u8>)
    ensures
        le_bytes_to_nat(s) < pow256(s.len()),
    decreases s.len(),
{
    if s.len() > 0 {
        lemma_le_bytes_bound(s.drop_first());
    }
}

/// `pow256` is monotone, and sixteen bytes never overflow a `u128`.
proof fn lemma_pow256_le_16(n: nat)
    requires
        n <= 16,
    ensures
        pow256(n) <= pow256(16),
        pow256(16) == 0x100000000000000000000000000000000,
    decreases 16 - n,
{
    reveal_with_fuel(pow256, 17);
    if n < 16 {
        lemma_pow256_le_16(n + 1);
    }
}

/// Read a `width`-byte little-endian unsigned integer at `offset`.
fn read_le(data: &[u8], offset: usize, width: usize) -> (r: u128)
    requires
        width <= 16,
        offset + width <= data@.len(),
    ensures
        r == le_bytes_to_nat(data@.subrange(offset as int, offset + width)),
        r < pow256(width as nat),
{
    let n = data.len();
    let mut r: u128 = 0;
    let mut k: usize = width;
    while k > 0
        invariant
            k <= width <= 16,
            offset + width <= n == data@.len(),
            r == le_bytes_to_nat(data@.subrange(offset + k, offset + width)),
            r < pow256((width - k) as nat),
        decreases k,
    {
        k = k - 1;
        proof {
            let tail = data@.subrange(offset + k, offset + width);
            assert(tail.drop_first() =~= data@.subrange(offset + k + 1, offset + width));
            assert(tail[0] == data@[offset + k]);
            lemma_pow256_le_16((width - k) as nat);
        }
        r = r * 256 + (data[offset + k] as u128);
    }
    r
}

/// Read a 32-bit little-endian count at `offset`.
fn read_u32_le(data: &[u8], offset: usize) -> (r: u32)
    requires
        offset + 4 <= data@.len(),
    ensures
        r == le_bytes_to_nat(data@.subrange(offset as int, offset + 4)),
{
    let wide = read_le(data, offset, 4);
    proof {
        reveal_with_fuel(pow256, 5);
    }
    wide as u32
}

/// Read a 128-bit little-endian unsigned integer at `offset`.
fn read_u128_le(data: &[u8], offset: usize) -> (r: u128)
    requires
        offset + 16 <= data@.len(),
    ensures
        r == le_bytes_to_nat(data@.subrange(offset as int, offset + 16)),
{
    read_le(data, offset, 16)
}

/// Read a 64-bit little-endian two's-complement integer at `offset`.
fn read_i64_le(data: &[u8], offset: usize) -> (r: i64)
    requires
        offset + 8 <= data@.len(),
    ensures
        r == le_bytes_to_i64(data@.subrange(offset as int, offset + 8)),
{
    let n = read_le(data, offset, 8);
    proof {
        reveal_with_fuel(pow256, 9);
    }
    if n < 0x8000000000000000 {
        n as i64
    } else {
        let m = (n - 0x8000000000000000) as u64;
        i64::MIN + (m as i64)
    }
}

/// Read a 32-byte identity at `offset`.
fn read_pubkey(data: &[u8], offset: usize) -> (r: Pubkey)
    requires
        offset + 32 <= data@.len(),
    ensures
        r == pubkey_from_le(data@.subrange(offset as int, offset + 32)),
{
    let n = data.len();
    assert(offset + 32 <= n);
    let lo = read_le(data, offset, 16);
    let hi = read_le(data, offset + 16, 16);
    proof {
        let s = data@.subrange(offset as int, offset + 32);
        assert(s.subrange(0, 16) =~= data@.subrange(offset as int, offset + 16));
        assert(s.subrange(16, 32) =~= data@.subrange(offset + 16, offset + 32));
    }
    Pubkey { lo, hi }
}

/// The admin configuration a record payload denotes.
pub open spec fn spec_unitas_config(p: Seq<u8>) -> UnitasConfig {
    UnitasConfig {
        admin: pubkey_from_le(p.subrange(0, 32)),
        pending_admin: pubkey_from_le(p.subrange(32, 64)),
        aum_usd: le_bytes_to_nat(p.subrange(64, 80)) as u128,
        last_updated_timestamp: le_bytes_to_i64(p.subrange(80, 88)) as i64,
        usdu_config: pubkey_from_le(p.subrange(88, 120)),
    }
}

/// Decode an admin-configuration record: an 8-byte discriminator, then the
/// five fields. Fails with `MalformedExternalData` exactly when the record
/// is too short.
pub fn parse_unitas_config(data: &[u8]) -> (r: Result<UnitasConfig, ValuationError>)
    ensures
        r is Ok <==> data@.len() >= 128,
        r is Ok ==> r->Ok_0 == spec_unitas_config(data@.subrange(8, data@.len() as int)),
        r is Err ==> r == Err::<UnitasConfig, ValuationError>(ValuationError::MalformedExternalData),
{
    if data.len() < 128 {
        return Err(ValuationError::MalformedExternalData);
    }
    let admin = read_pubkey(data, 8);
    let pending_admin = read_pubkey(data, 40);
    let aum_usd = read_u128_le(data, 72);
    let last_updated_timestamp = read_i64_le(data, 88);
    let usdu_config = read_pubkey(data, 96);
    proof {
        let p = data@.subrange(8, data@.len() as int);
        assert(p.subrange(0, 32) =~= data@.subrange(8, 40));
        assert(p.subrange(32, 64) =~= data@.subrange(40, 72));
        assert(p.subrange(64, 80) =~= data@.subrange(72, 88));
        assert(p.subrange(80, 88) =~= data@.subrange(88, 96));
        assert(p.subrange(88, 120) =~= data@.subrange(96, 128));
    }
    Ok(UnitasConfig { admin, pending_admin, aum_usd, last_updated_timestamp, usdu_config })
}

/// The supply configuration a record payload denotes.
pub open spec fn spec_usdu_config(p: Seq<u8>) -> UsduConfig {
    UsduConfig {
        admin: pubkey_from_le(p.subrange(0, 32)),
        pending_admin: pubkey_from_le(p.subrange(32, 64)),
        access_registry: pubkey_from_le(p.subrange(64, 96)),
        bump: p[96],
        is_initialized: p[97] == 1,
        usdu_token: pubkey_from_le(p.subrange(98, 130)),
        usdu_token_bump: p[130],
        is_usdu_token_initialized: p[131] == 1,
        total_supply: le_bytes_to_nat(p.subrange(132, 148)) as u128,
    }
}

/// Decode a supply-configuration record. Fails with `MalformedExternalData`
/// exactly when the record is too short or a boolean byte is neither 0
/// nor 1.
pub fn parse_usdu_config(data: &[u8]) -> (r: Result<UsduConfig, ValuationError>)
    ensures
        r is Ok <==> data@.len() >= 156 && data@[105] <= 1 && data@[139] <= 1,
        r is Ok ==> r->Ok_0 == spec_usdu_config(data@.subrange(8, data@.len() as int)),
        r is Err ==> r == Err::<UsduConfig, ValuationError>(ValuationError::MalformedExternalData),
{
    if data.len() < 156 {
        return Err(ValuationError::MalformedExternalData);
    }
    if data[105] > 1 || data[139] > 1 {
        return Err(ValuationError::MalformedExternalData);
    }
    let admin = read_pubkey(data, 8);
    let pending_admin = read_pubkey(data, 40);
    let access_registry = read_pubkey(data, 72);
    let bump = data[104];
    let is_initialized = data[105] == 1;
    let usdu_token = read_pubkey(data, 106);
    let usdu_token_bump = data[138];
    let is_usdu_token_initialized = data[139] == 1;
    let total_supply = read_u128_le(data, 140);
    proof {
        let p = data@.subrange(8, data@.len() as int);
        assert(p.subrange(0, 32) =~= data@.subrange(8, 40));
        assert(p.subrange(32, 64) =~= data@.subrange(40, 72));
        assert(p.subrange(64, 96) =~= data@.subrange(72, 104));
        assert(p[96] == data@[104]);
        assert(p[97] == data@[105]);
        assert(p.subrange(98, 130) =~= data@.subrange(106, 138));
        assert(p[130] == data@[138]);
        assert(p[131] == data@[139]);
        assert(p.subrange(132, 148) =~= data@.subrange(140, 156));
    }
    Ok(
        UsduConfig {
            admin,
            pending_admin,
            access_registry,
            bump,
            is_initialized,
            usdu_token,
            usdu_token_bump,
            is_usdu_token_initialized,
            total_supply,
        },
    )
}

/// How many holders an asset-table record claims.
pub open spec fn spec_table_holder_count(p: Seq<u8>) -> nat {
    le_bytes_to_nat(p.subrange(65, 69))
}

/// The holder identities an asset-table record payload denotes.
pub open spec fn spec_table_holders(p: Seq<u8>) -> Seq<Pubkey> {
    Seq::new(
        spec_table_holder_count(p),
        |k: int| pubkey_from_le(p.subrange(69 + 32 * k, 69 + 32 * k + 32)),
    )
}

/// Decode an asset-table record: discriminator, mint, oracle, decimals, the
/// count-prefixed holder list, then the posted value and its timestamp.
/// Fails with `MalformedExternalData` exactly when the record is too short
/// for its claimed holder count, the count exceeds the capacity bound, or a
/// holder identity repeats — so a table this returns is always well formed.
pub fn parse_asset_lookup_table(data: &[u8]) -> (r: Result<AssetLookupTable, ValuationError>)
    ensures
        r is Ok <==> data@.len() >= 77 && ({
            let p = data@.subrange(8, data@.len() as int);
            let m = spec_table_holder_count(p) as int;
            &&& m <= MAX_ACCOUNTS_PER_ASSET
            &&& data@.len() >= 101 + 32 * m
            &&& spec_table_holders(p).no_duplicates()
        }),
        r is Ok ==> ({
            let p = data@.subrange(8, data@.len() as int);
            let m = spec_table_holder_count(p) as int;
            let t = r->Ok_0;
            &&& t.asset_mint == pubkey_from_le(p.subrange(0, 32))
            &&& t.oracle_account == pubkey_from_le(p.subrange(32, 64))
            &&& t.decimals == p[64]
            &&& t.holders() == spec_table_holders(p)
            &&& t.aum_usd == le_bytes_to_nat(p.subrange(69 + 32 * m, 85 + 32 * m))
            &&& t.last_updated_timestamp == le_bytes_to_i64(p.subrange(85 + 32 * m, 93 + 32 * m))
            &&& t.wf()
        }),
        r is Err ==> r == Err::<AssetLookupTable, ValuationError>(
            ValuationError::MalformedExternalData,
        ),
{
    if data.len() < 77 {
        return Err(ValuationError::MalformedExternalData);
    }
    let ghost p = data@.subrange(8, data@.len() as int);
    let count = read_u32_le(data, 73);
    proof {
        assert(p.subrange(65, 69) =~= data@.subrange(73, 77));
        reveal_with_fuel(pow256, 5);
    }
    if count > (MAX_ACCOUNTS_PER_ASSET as u32) {
        return Err(ValuationError::MalformedExternalData);
    }
    let m = count as usize;
    if data.len() < 101 + 32 * m {
        return Err(ValuationError::MalformedExternalData);
    }
    let asset_mint = read_pubkey(data, 8);
    let oracle_account = read_pubkey(data, 40);
    let decimals = data[72];
    proof {
        assert(p.subrange(0, 32) =~= data@.subrange(8, 40));
        assert(p.subrange(32, 64) =~= data@.subrange(40, 72));
        assert(p[64] == data@[72]);
    }
    let mut table = AssetLookupTable::new(asset_mint, oracle_account, decimals);
    let mut i: usize = 0;
    while i < m
        invariant
            0 <= i <= m <= MAX_ACCOUNTS_PER_ASSET,
            m == spec_table_holder_count(p),
            data@.len() >= 101 + 32 * m,
            p == data@.subrange(8, data@.len() as int),
            table.wf(),
            table.holders() == spec_table_holders(p).take(i as int),
            table.asset_mint == pubkey_from_le(p.subrange(0, 32)),
            table.oracle_account == pubkey_from_le(p.subrange(32, 64)),
            table.decimals == p[64],
            table.aum_usd == 0,
            table.last_updated_timestamp == 0,
        decreases m - i,
    {
        let pk = read_pubkey(data, 77 + 32 * i);
        proof {
            assert(p.subrange(69 + 32 * (i as int), 69 + 32 * (i as int) + 32) =~= data@.subrange(
                77 + 32 * (i as int),
                77 + 32 * (i as int) + 32,
            ));
            assert(spec_table_holders(p)[i as int] == pk);
        }
        match table.add_token_account_owner(pk) {
            Ok(_) => {},
            Err(_) => {
                proof {
                    let hs = spec_table_holders(p);
                    assert(table.holders().len() == i);
                    assert(table.has_holder(pk));
                    let k = choose|k: int| 0 <= k < i && hs.take(i as int)[k] == pk;
                    assert(hs[k] == hs[i as int]);
                    assert(!hs.no_duplicates());
                }
                return Err(ValuationError::MalformedExternalData);
            },
        }
        proof {
            assert(table.holders() =~= spec_table_holders(p).take(i + 1));
        }
        i = i + 1;
    }
    proof {
        assert(spec_table_holders(p).take(m as int) =~= spec_table_holders(p));
    }
    let aum_usd = read_u128_le(data, 77 + 32 * m);
    let last_updated_timestamp = read_i64_le(data, 93 + 32 * m);
    proof {
        let mi = m as int;
        assert(p.subrange(69 + 32 * mi, 85 + 32 * mi) =~= data@.subrange(
            77 + 32 * mi,
            93 + 32 * mi,
        ));
        assert(p.subrange(85 + 32 * mi, 93 + 32 * mi) =~= data@.subrange(
            93 + 32 * mi,
            101 + 32 * mi,
        ));
    }
    table.set_aum_usd(aum_usd, last_updated_timestamp);
    Ok(table)
}

} // verus!
