//! Pool reserve snapshots and the registry that resolves them by asset
//! identifier.
//!
//! The registry is modelled as a map from asset identifier to reserve
//! snapshot: its view is a `Map<u32, PoolReserve>`, lookups and upserts are
//! specified against that map, and an internal invariant keeps one entry per
//! asset identifier.

use vstd::prelude::*;
use crate::errors::Error;

verus! {

/// The current balances of one pool: a currency reserve and an asset (token)
/// reserve, identified by the asset's identifier. The two reserves may be
/// denominated in different fixed-point precisions.
#[derive(Clone, Copy, Debug, PartialEq, Eq, Structural)]
pub struct PoolReserve {
    pub asset_id: u32,
    pub currency_reserve: u128,
    pub token_reserve: u128,
}

/// One entry per asset identifier.
spec fn distinct_ids(s: Seq<PoolReserve>) -> bool {
    forall|i: int, j: int|
        0 <= i < j < s.len() ==> (#[trigger] s[i]).asset_id != (#[trigger] s[j]).asset_id
}

/// The map described by a sequence of pool entries; later entries win.
spec fn pools_as_map(s: Seq<PoolReserve>) -> Map<u32, PoolReserve>
    decreases s.len(),
{
    if s.len() == 0 {
        Map::empty()
    } else {
        pools_as_map(s.drop_last()).insert(s.last().asset_id, s.last())
    }
}

proof fn lemma_pools_as_map_contains(s: Seq<PoolReserve>, k: u32)
    ensures
        pools_as_map(s).contains_key(k) <==> (exists|i: int|
            0 <= i < s.len() && (#[trigger] s[i]).asset_id == k),
    decreases s.len(),
{
    if s.len() > 0 {
        lemma_pools_as_map_contains(s.drop_last(), k);
        if s.last().asset_id == k {
            assert(s[s.len() - 1].asset_id == k);
        } else {
            if exists|i: int| 0 <= i < s.len() && (#[trigger] s[i]).asset_id == k {
                let i = choose|i: int| 0 <= i < s.len() && (#[trigger] s[i]).asset_id == k;
                assert(s.drop_last()[i].asset_id == k);
            }
            if exists|i: int|
                0 <= i < s.drop_last().len() && (#[trigger] s.drop_last()[i]).asset_id == k {
                let i = choose|i: int|
                    0 <= i < s.drop_last().len() && (#[trigger] s.drop_last()[i]).asset_id == k;
                assert(s[i].asset_id == k);
            }
        }
    }
}

proof fn lemma_distinct_drop_last(s: Seq<PoolReserve>)
    requires
        s.len() > 0,
        distinct_ids(s),
    ensures
        distinct_ids(s.drop_last()),
{
    assert forall|i: int, j: int|
        0 <= i < j < s.drop_last().len() implies (#[trigger] s.drop_last()[i]).asset_id != (
    #[trigger] s.drop_last()[j]).asset_id by {
        assert(s.drop_last()[i] == s[i]);
        assert(s.drop_last()[j] == s[j]);
    }
}

proof fn lemma_pools_as_map_index(s: Seq<PoolReserve>, i: int)
    requires
        distinct_ids(s),
        0 <= i < s.len(),
    ensures
        pools_as_map(s).contains_key(s[i].asset_id),
        pools_as_map(s)[s[i].asset_id] == s[i],
    decreases s.len(),
{
    if i < s.len() - 1 {
        lemma_distinct_drop_last(s);
        lemma_pools_as_map_index(s.drop_last(), i);
        assert(s.drop_last()[i] == s[i]);
        assert(s[i].asset_id != s[s.len() - 1].asset_id);
    }
}

proof fn lemma_pools_as_map_update(s: Seq<PoolReserve>, i: int, p: PoolReserve)
    requires
        distinct_ids(s),
        0 <= i < s.len(),
        s[i].asset_id == p.asset_id,
    ensures
        pools_as_map(s.update(i, p)) == pools_as_map(s).insert(p.asset_id, p),
    decreases s.len(),
{
    let t = s.update(i, p);
    if i == s.len() - 1 {
        assert(t.drop_last() =~= s.drop_last());
        assert(t.last() == p);
        assert(pools_as_map(s).insert(p.asset_id, p) =~= pools_as_map(s.drop_last()).insert(
            p.asset_id,
            p,
        ));
    } else {
        lemma_distinct_drop_last(s);
        lemma_pools_as_map_update(s.drop_last(), i, p);
        assert(t.drop_last() =~= s.drop_last().update(i, p));
        assert(t.last() == s.last());
        assert(s[i].asset_id != s[s.len() - 1].asset_id);
        assert(pools_as_map(s.drop_last()).insert(p.asset_id, p).insert(
            s.last().asset_id,
            s.last(),
        ) =~= pools_as_map(s.drop_last()).insert(s.last().asset_id, s.last()).insert(
            p.asset_id,
            p,
        ));
    }
}

/// A registry of pool reserve snapshots, one per asset identifier.
pub struct PoolRegistry {
    pools: Vec<PoolReserve>,
}

impl View for PoolRegistry {
    type V = Map<u32, PoolReserve>;

    closed spec fn view(&self) -> Map<u32, PoolReserve> {
        pools_as_map(self.pools@)
    }
}

impl PoolRegistry {
    #[verifier::type_invariant]
    spec fn inv(&self) -> bool {
        distinct_ids(self.pools@)
    }

    /// An empty registry: no pool is provisioned.
    pub fn new() -> (r: PoolRegistry)
        ensures
            r@ == Map::<u32, PoolReserve>::empty(),
    {
        PoolRegistry { pools: Vec::new() }
    }

    /// The position of the entry for `asset_id`, if one exists.
    fn find_index(&self, asset_id: u32) -> (r: Option<usize>)
        ensures
            match r {
                Some(i) => i < self.pools@.len() && self.pools@[i as int].asset_id == asset_id,
                None => forall|j: int|
                    0 <= j < self.pools@.len() ==> (#[trigger] self.pools@[j]).asset_id
                        != asset_id,
            },
    {
        let n = self.pools.len();
        let mut i: usize = 0;
        while i < n
            invariant
                i <= n,
                n == self.pools@.len(),
                forall|j: int| 0 <= j < i ==> (#[trigger] self.pools@[j]).asset_id != asset_id,
            decreases n - i,
        {
            if self.pools[i].asset_id == asset_id {
                return Some(i);
            }
            i += 1;
        }
        None
    }

    /// Read-only snapshot lookup: the pool provisioned for `asset_id`, or
    /// `ExchangeNotFound` when none is.
    pub fn get_pool(&self, asset_id: u32) -> (r: Result<PoolReserve, Error>)
        ensures
            self@.contains_key(asset_id) ==> r == Ok::<PoolReserve, Error>(self@[asset_id]),
            !self@.contains_key(asset_id) ==> r == Err::<PoolReserve, Error>(
                Error::ExchangeNotFound,
            ),
    {
        proof {
            use_type_invariant(self);
            lemma_pools_as_map_contains(self.pools@, asset_id);
        }
        match self.find_index(asset_id) {
            Some(i) => {
                proof {
                    lemma_pools_as_map_index(self.pools@, i as int);
                }
                Ok(self.pools[i])
            },
            None => Err(Error::ExchangeNotFound),
        }
    }

    /// Provision a pool, or replace the reserves of the pool already
    /// provisioned under the same asset identifier.
    pub fn create_pool(&mut self, pool: PoolReserve)
        ensures
            final(self)@ == old(self)@.insert(pool.asset_id, pool),
    {
        proof {
            use_type_invariant(&*self);
        }
        let found = self.find_index(pool.asset_id);
        let ghost s0 = self.pools@;
        let mut pools: Vec<PoolReserve> = Vec::new();
        std::mem::swap(&mut pools, &mut self.pools);
        match found {
            Some(i) => {
                pools[i] = pool;
                proof {
                    lemma_pools_as_map_update(s0, i as int, pool);
                    assert forall|a: int, b: int|
                        0 <= a < b < pools@.len() implies (#[trigger] pools@[a]).asset_id != (
                    #[trigger] pools@[b]).asset_id by {
                        assert(pools@[a].asset_id == s0[a].asset_id);
                        assert(pools@[b].asset_id == s0[b].asset_id);
                    }
                }
            },
            None => {
                pools.push(pool);
                proof {
                    assert(pools@.drop_last() =~= s0);
                    assert(pools@.last() == pool);
                    assert forall|a: int, b: int|
                        0 <= a < b < pools@.len() implies (#[trigger] pools@[a]).asset_id != (
                    #[trigger] pools@[b]).asset_id by {
                        if b < s0.len() {
                            assert(pools@[a] == s0[a]);
                            assert(pools@[b] == s0[b]);
                        } else {
                            assert(pools@[a] == s0[a]);
                            assert(pools@[b] == pool);
                        }
                    }
                }
            },
        }
        self.pools = pools;
    }
}

} // verus!
