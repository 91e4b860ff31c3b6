//! The access-control ledger: admin configuration and operator records.

use vstd::prelude::*;

use crate::pubkey::Pubkey;

verus! {

/// The singleton admin configuration: current admin, optional pending-admin
/// proposal, the running total valuation, and a reference to the companion
/// supply configuration.
#[derive(Clone, Copy, Debug, PartialEq, Eq, Structural)]
pub struct UnitasConfig {
    pub admin: Pubkey,
    pub pending_admin: Pubkey,
    pub aum_usd: u128,
    pub last_updated_timestamp: i64,
    pub usdu_config: Pubkey,
}

impl UnitasConfig {
    /// A configuration is well formed when an admin is set and any pending
    /// proposal names neither the all-zero sentinel as admin nor the admin
    /// itself.
    pub open spec fn wf(self) -> bool {
        &&& !self.admin.is_zero()
        &&& self.pending_admin != self.admin
    }

    /// True exactly of the current admin identity.
    pub fn is_admin(&self, key: &Pubkey) -> (r: bool)
        ensures
            r == (self.admin == *key),
    {
        self.admin == *key
    }
}

/// The companion supply configuration that the aggregator reads to derive a
/// price per unit: only `total_supply` feeds the computation, the rest is
/// carried for completeness.
#[derive(Clone, Copy, Debug, PartialEq, Eq, Structural)]
pub struct UsduConfig {
    pub admin: Pubkey,
    pub pending_admin: Pubkey,
    pub access_registry: Pubkey,
    pub bump: u8,
    pub is_initialized: bool,
    pub usdu_token: Pubkey,
    pub usdu_token_bump: u8,
    pub is_usdu_token_initialized: bool,
    pub total_supply: u128,
}

/// One delegated identity, authorized to perform registry mutations without
/// holding full admin rights.
#[derive(Clone, Copy, Debug, PartialEq, Eq, Structural)]
pub struct Operator {
    pub user: Pubkey,
}

/// The collection of operator records owned by the access-control ledger.
///
/// The host keys each record by its user identity, so no two records name
/// the same user; that uniqueness is this type's invariant.
#[derive(Clone, Debug, PartialEq, Eq)]
pub struct OperatorRegistry {
    pub operators: Vec<Operator>,
}

impl OperatorRegistry {
    /// The registered user identities, in record order.
    pub open spec fn users(self) -> Seq<Pubkey> {
        self.operators@.map_values(|o: Operator| o.user)
    }

    /// No two records name the same user.
    pub open spec fn wf(self) -> bool {
        forall|i: int, j: int|
            0 <= i < j < self.users().len() ==> self.users()[i] != self.users()[j]
    }

    /// True when `user` holds an operator record.
    pub open spec fn contains_user(self, user: Pubkey) -> bool {
        self.users().contains(user)
    }

    /// An empty ledger, with no operator records.
    pub fn new() -> (r: OperatorRegistry)
        ensures
            r.users() == Seq::<Pubkey>::empty(),
            r.wf(),
    {
        let r = OperatorRegistry { operators: Vec::new() };
        proof {
            assert(r.users() =~= Seq::<Pubkey>::empty());
        }
        r
    }

    /// True when `user` holds an operator record.
    pub fn is_operator(&self, user: &Pubkey) -> (r: bool)
        ensures
            r == self.contains_user(*user),
    {
        let n = self.operators.len();
        let mut i: usize = 0;
        while i < n
            invariant
                n == self.operators.len(),
                0 <= i <= n,
                forall|k: int| 0 <= k < i ==> self.users()[k] != *user,
            decreases n - i,
        {
            if self.operators[i].user == *user {
                assert(self.users()[i as int] == *user);
                return true;
            }
            i = i + 1;
        }
        assert(forall|k: int| 0 <= k < self.users().len() ==> self.users()[k] != *user);
        false
    }

    /// Create or overwrite the record for `user`: an idempotent upsert,
    /// never an error.
    pub fn upsert(&mut self, user: Pubkey)
        requires
            old(self).wf(),
        ensures
            final(self).wf(),
            final(self).contains_user(user),
            old(self).contains_user(user) ==> *final(self) == *old(self),
            !old(self).contains_user(user) ==> final(self).users() == old(self).users().push(
                user,
            ),
    {
        if self.is_operator(&user) {
            return ;
        }
        let ghost pre = *self;
        self.operators.push(Operator { user });
        proof {
            assert(self.users() =~= pre.users().push(user));
            assert(self.users().last() == user);
            assert(self.contains_user(user));
        }
    }

    /// Destroy the record for `user`. Returns whether a record existed; when
    /// none did, the ledger is unchanged.
    pub fn remove(&mut self, user: Pubkey) -> (found: bool)
        requires
            old(self).wf(),
        ensures
            final(self).wf(),
            found == old(self).contains_user(user),
            !found ==> *final(self) == *old(self),
            forall|v: Pubkey|
                final(self).contains_user(v) == (old(self).contains_user(v) && v != user),
            found ==> final(self).users().len() == old(self).users().len() - 1,
    {
        let n = self.operators.len();
        let mut i: usize = 0;
        while i < n
            invariant
                *self == *old(self),
                self.wf(),
                n == self.operators.len(),
                0 <= i <= n,
                forall|k: int| 0 <= k < i ==> self.users()[k] != user,
            decreases n - i,
        {
            if self.operators[i].user == user {
                let ghost pre = *self;
                assert(pre.users()[i as int] == user);
                self.operators.swap_remove(i);
                proof {
                    lemma_swap_remove_users(pre, *self, i as int, user);
                }
                return true;
            }
            i = i + 1;
        }
        assert(forall|k: int| 0 <= k < self.users().len() ==> self.users()[k] != user);
        assert(!self.contains_user(user));
        false
    }
}

/// What one swap-removal does to the user sequence: membership of the removed
/// user is gone, everyone else's is kept, and uniqueness survives.
proof fn lemma_swap_remove_users(
    pre: OperatorRegistry,
    post: OperatorRegistry,
    i: int,
    user: Pubkey,
)
    requires
        pre.wf(),
        0 <= i < pre.operators@.len(),
        pre.users()[i] == user,
        post.operators@ == pre.operators@.update(i, pre.operators@.last()).drop_last(),
    ensures
        post.wf(),
        post.users().len() == pre.users().len() - 1,
        forall|v: Pubkey| post.contains_user(v) == (pre.contains_user(v) && v != user),
{
    assert(post.users() =~= pre.users().update(i, pre.users().last()).drop_last());
    let pu = pre.users();
    let qu = post.users();
    assert forall|a: int, b: int| 0 <= a < b < qu.len() implies qu[a] != qu[b] by {
        let sa: int = if a == i { pu.len() - 1 } else { a };
        let sb: int = if b == i { pu.len() - 1 } else { b };
        assert(qu[a] == pu[sa]);
        assert(qu[b] == pu[sb]);
        assert(sa != sb);
    }
    assert forall|v: Pubkey| qu.contains(v) == (pu.contains(v) && v != user) by {
        if qu.contains(v) {
            let k = choose|k: int| 0 <= k < qu.len() && qu[k] == v;
            if k == i {
                assert(pu[pu.len() - 1] == v);
            } else {
                assert(pu[k] == v);
            }
            assert(pu.contains(v));
            if v == user {
                // uniqueness puts `user` only at index i, yet v sits elsewhere
                if k == i {
                    assert(pu[pu.len() - 1] == user);
                    assert(i < pu.len() - 1);
                    assert(false);
                } else {
                    assert(pu[k] == user && pu[i] == user && k != i);
                    assert(false);
                }
            }
        }
        if pu.contains(v) && v != user {
            let k = choose|k: int| 0 <= k < pu.len() && pu[k] == v;
            assert(k != i);
            if k < pu.len() - 1 {
                assert(qu[k] == v);
            } else {
                assert(i < pu.len() - 1);
                assert(qu[i] == v);
            }
            assert(qu.contains(v));
        }
    }
}

} // verus!
