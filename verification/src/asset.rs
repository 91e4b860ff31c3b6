//! The per-asset lookup table: one tracked asset, its oracle reference, and
//! its capacity-bounded list of token-holder identities.

use vstd::prelude::*;

use crate::constants::MAX_ACCOUNTS_PER_ASSET;
use crate::error::ErrorCode;
use crate::pubkey::Pubkey;

verus! {

/// One registry entry: a tracked asset keyed by its mint, the oracle account
/// that prices it, the token's decimal precision, the holder identities whose
/// balances count toward the asset's valuation, and the last posted USD
/// contribution.
///
/// Holder order carries no meaning beyond iteration determinism: removal may
/// reorder the list (swap with last), and nothing downstream may depend on
/// the order.
#[derive(Clone, Debug, PartialEq, Eq)]
pub struct AssetLookupTable {
    pub asset_mint: Pubkey,
    pub oracle_account: Pubkey,
    pub decimals: u8,
    pub token_account_owners: Vec<Pubkey>,
    pub aum_usd: u128,
    pub last_updated_timestamp: i64,
}

impl AssetLookupTable {
    /// The holder identities, in storage order.
    pub open spec fn holders(self) -> Seq<Pubkey> {
        self.token_account_owners@
    }

    /// The table invariant: no duplicate holder, and never more holders than
    /// the capacity bound.
    pub open spec fn wf(self) -> bool {
        &&& self.holders().no_duplicates()
        &&& self.holders().len() <= MAX_ACCOUNTS_PER_ASSET
    }

    /// True when `account` is a registered holder.
    pub open spec fn has_holder(self, account: Pubkey) -> bool {
        self.holders().contains(account)
    }

    /// The fields that identify the asset, unchanged between two states.
    pub open spec fn same_asset(pre: AssetLookupTable, post: AssetLookupTable) -> bool {
        &&& post.asset_mint == pre.asset_mint
        &&& post.oracle_account == pre.oracle_account
        &&& post.decimals == pre.decimals
    }

    /// A fresh table for one asset: no holders, no posted value.
    pub fn new(asset_mint: Pubkey, oracle_account: Pubkey, decimals: u8) -> (r: AssetLookupTable)
        ensures
            r.asset_mint == asset_mint,
            r.oracle_account == oracle_account,
            r.decimals == decimals,
            r.holders() == Seq::<Pubkey>::empty(),
            r.aum_usd == 0,
            r.last_updated_timestamp == 0,
            r.wf(),
    {
        let r = AssetLookupTable {
            asset_mint,
            oracle_account,
            decimals,
            token_account_owners: Vec::new(),
            aum_usd: 0,
            last_updated_timestamp: 0,
        };
        proof {
            assert(r.holders() =~= Seq::<Pubkey>::empty());
        }
        r
    }

    /// True when `account` is a registered holder.
    pub fn contains_holder(&self, account: &Pubkey) -> (r: bool)
        ensures
            r == self.has_holder(*account),
    {
        let n = self.token_account_owners.len();
        let mut i: usize = 0;
        while i < n
            invariant
                n == self.holders().len(),
                0 <= i <= n,
                forall|k: int| 0 <= k < i ==> self.holders()[k] != *account,
            decreases n - i,
        {
            if self.token_account_owners[i] == *account {
                return true;
            }
            i = i + 1;
        }
        false
    }

    /// Append `account` to the holder list.
    ///
    /// Fails with `AccountAlreadyAdded` when `account` is already registered
    /// (even on a full table), with `AccountLimitReached` when the table is
    /// at capacity; either failure leaves the table unchanged.
    pub fn add_token_account_owner(&mut self, account: Pubkey) -> (r: Result<(), ErrorCode>)
        requires
            old(self).wf(),
        ensures
            final(self).wf(),
            AssetLookupTable::same_asset(*old(self), *final(self)),
            old(self).has_holder(account) ==> r == Err::<(), ErrorCode>(
                ErrorCode::AccountAlreadyAdded,
            ) && *final(self) == *old(self),
            !old(self).has_holder(account) && old(self).holders().len()
                == MAX_ACCOUNTS_PER_ASSET ==> r == Err::<(), ErrorCode>(
                ErrorCode::AccountLimitReached,
            ) && *final(self) == *old(self),
            !old(self).has_holder(account) && old(self).holders().len()
                < MAX_ACCOUNTS_PER_ASSET ==> r == Ok::<(), ErrorCode>(()) && final(self).holders()
                == old(self).holders().push(account),
            final(self).aum_usd == old(self).aum_usd,
            final(self).last_updated_timestamp == old(self).last_updated_timestamp,
    {
        if self.contains_holder(&account) {
            return Err(ErrorCode::AccountAlreadyAdded);
        }
        if self.token_account_owners.len() == MAX_ACCOUNTS_PER_ASSET {
            return Err(ErrorCode::AccountLimitReached);
        }
        self.token_account_owners.push(account);
        Ok(())
    }

    /// Remove `account` from the holder list by swapping the last holder
    /// into its slot.
    ///
    /// Fails with `InvalidAccount`, leaving the table unchanged, when
    /// `account` is not registered.
    pub fn remove_token_account_owner(&mut self, account: Pubkey) -> (r: Result<(), ErrorCode>)
        requires
            old(self).wf(),
        ensures
            final(self).wf(),
            AssetLookupTable::same_asset(*old(self), *final(self)),
            !old(self).has_holder(account) ==> r == Err::<(), ErrorCode>(ErrorCode::InvalidAccount)
                && *final(self) == *old(self),
            old(self).has_holder(account) ==> r == Ok::<(), ErrorCode>(()) && (exists|j: int|
                0 <= j < old(self).holders().len() && old(self).holders()[j] == account
                    && final(self).holders() == old(self).holders().update(
                    j,
                    old(self).holders().last(),
                ).drop_last()),
            old(self).has_holder(account) ==> final(self).holders().len() == old(
                self,
            ).holders().len() - 1,
            forall|v: Pubkey|
                final(self).has_holder(v) == (old(self).has_holder(v) && v != account),
            final(self).aum_usd == old(self).aum_usd,
            final(self).last_updated_timestamp == old(self).last_updated_timestamp,
    {
        let n = self.token_account_owners.len();
        let mut i: usize = 0;
        while i < n
            invariant
                *self == *old(self),
                self.wf(),
                n == self.holders().len(),
                0 <= i <= n,
                forall|k: int| 0 <= k < i ==> self.holders()[k] != account,
            decreases n - i,
        {
            if self.token_account_owners[i] == account {
                let ghost pre = self.holders();
                self.token_account_owners.swap_remove(i);
                proof {
                    lemma_swap_remove_distinct(pre, i as int, account);
                }
                return Ok(());
            }
            i = i + 1;
        }
        Err(ErrorCode::InvalidAccount)
    }

    /// Post a new USD value for this asset, with the time of the update.
    pub fn set_aum_usd(&mut self, value: u128, now: i64)
        ensures
            final(self).aum_usd == value,
            final(self).last_updated_timestamp == now,
            AssetLookupTable::same_asset(*old(self), *final(self)),
            final(self).holders() == old(self).holders(),
            old(self).wf() ==> final(self).wf(),
    {
        self.aum_usd = value;
        self.last_updated_timestamp = now;
    }
}

/// Law: appending a fresh holder and then removing that same holder restores
/// the holder list exactly as it was — whatever index the removal finds the
/// holder at, swap-removal there undoes the append.
pub proof fn lemma_add_then_remove_restores(s: Seq<Pubkey>, a: Pubkey)
    requires
        s.no_duplicates(),
        !s.contains(a),
    ensures
        forall|j: int|
            0 <= j < s.push(a).len() && s.push(a)[j] == a ==> s.push(a).update(
                j,
                s.push(a).last(),
            ).drop_last() == s,
{
    let t = s.push(a);
    assert forall|j: int| 0 <= j < t.len() && t[j] == a implies t.update(
        j,
        t.last(),
    ).drop_last() == s by {
        if j < s.len() {
            assert(s[j] == a);
            assert(s.contains(a));
        }
        assert(j == s.len());
        assert(t.update(j, t.last()) =~= t);
        assert(t.drop_last() =~= s);
    }
}

/// What one swap-removal does to a duplicate-free sequence: length drops by
/// one, the removed element's membership is gone, everyone else's is kept,
/// and freedom from duplicates survives.
pub proof fn lemma_swap_remove_distinct(s: Seq<Pubkey>, i: int, a: Pubkey)
    requires
        s.no_duplicates(),
        0 <= i < s.len(),
        s[i] == a,
    ensures
        ({
            let q = s.update(i, s.last()).drop_last();
            &&& q.no_duplicates()
            &&& q.len() == s.len() - 1
            &&& forall|v: Pubkey| q.contains(v) == (s.contains(v) && v != a)
        }),
{
    let q = s.update(i, s.last()).drop_last();
    assert forall|x: int, y: int| 0 <= x < y < q.len() implies q[x] != q[y] by {
        let sx: int = if x == i { s.len() - 1 } else { x };
        let sy: int = if y == i { s.len() - 1 } else { y };
        assert(q[x] == s[sx]);
        assert(q[y] == s[sy]);
        assert(sx != sy);
    }
    assert forall|v: Pubkey| q.contains(v) == (s.contains(v) && v != a) by {
        if q.contains(v) {
            let k = choose|k: int| 0 <= k < q.len() && q[k] == v;
            if k == i {
                assert(s[s.len() - 1] == v);
            } else {
                assert(s[k] == v);
            }
            assert(s.contains(v));
            if v == a {
                if k == i {
                    assert(s[s.len() - 1] == a && s[i] == a && i < s.len() - 1);
                } else {
                    assert(s[k] == a && s[i] == a && k != i);
                }
                assert(false);
            }
        }
        if s.contains(v) && v != a {
            let k = choose|k: int| 0 <= k < s.len() && s[k] == v;
            assert(k != i);
            if k < s.len() - 1 {
                assert(q[k] == v);
            } else {
                assert(i < s.len() - 1);
                assert(q[i] == v);
            }
            assert(q.contains(v));
        }
    }
}

} // verus!
