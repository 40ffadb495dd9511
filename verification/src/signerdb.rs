//! The signer's block-info store: a mapping from `(reward cycle, signer
//! signature hash)` to the stored [`BlockInfo`], with upsert semantics.
//!
//! This is the store's semantics, verified; the surrounding driver may lay a
//! durable copy of every update on disk and reload it on restart.

use vstd::prelude::*;

use crate::assoc::{AssocMap, MapKey};
use crate::blocks::{BlockInfo, BlockInfoV};
use crate::types::{bytes_eq, clone_bytes};

verus! {

/// The composite key of one stored row.
pub struct StoreKey {
    pub reward_cycle: u64,
    pub hash: Vec<u8>,
}

/// The mathematical value of a [`StoreKey`].
pub ghost struct StoreKeyV {
    pub reward_cycle: u64,
    pub hash: Seq<u8>,
}

impl View for StoreKey {
    type V = StoreKeyV;

    open spec fn view(&self) -> StoreKeyV {
        StoreKeyV { reward_cycle: self.reward_cycle, hash: self.hash@ }
    }
}

impl MapKey for StoreKey {
    fn key_eq(&self, other: &Self) -> (r: bool)
        ensures
            r == (self@ == other@),
    {
        self.reward_cycle == other.reward_cycle && bytes_eq(&self.hash, &other.hash)
    }
}

/// The store, viewed as a map from row key to the stored block info's value.
pub struct SignerDb {
    pub rows: AssocMap<StoreKey, BlockInfo>,
}

impl View for SignerDb {
    type V = Map<StoreKeyV, BlockInfoV>;

    open spec fn view(&self) -> Map<StoreKeyV, BlockInfoV> {
        Map::new(|k: StoreKeyV| self.rows@.contains_key(k), |k: StoreKeyV| self.rows@[k]@)
    }
}

impl SignerDb {
    /// The representation invariant.
    pub open spec fn wf(&self) -> bool {
        self.rows.wf()
    }

    /// Creates an empty store.
    pub fn new() -> (db: SignerDb)
        ensures
            db.wf(),
            db@ == Map::<StoreKeyV, BlockInfoV>::empty(),
    {
        let db = SignerDb { rows: AssocMap::new() };
        proof {
            assert(db@ =~= Map::<StoreKeyV, BlockInfoV>::empty());
        }
        db
    }

    /// Inserts or replaces the row for `(reward_cycle, hash of block_info)`.
    pub fn insert_block(&mut self, reward_cycle: u64, block_info: &BlockInfo)
        requires
            old(self).wf(),
        ensures
            final(self).wf(),
            final(self)@ == old(self)@.insert(
                (StoreKeyV {
                    reward_cycle,
                    hash: block_info.block.signer_signature_hash@,
                }),
                block_info@,
            ),
    {
        let key = StoreKey {
            reward_cycle,
            hash: clone_bytes(&block_info.block.signer_signature_hash),
        };
        self.rows.insert(key, block_info.duplicate());
        proof {
            assert(self@ =~= old(self)@.insert(
                (StoreKeyV {
                    reward_cycle,
                    hash: block_info.block.signer_signature_hash@,
                }),
                block_info@,
            ));
        }
    }

    /// Fetches the row for `(reward_cycle, hash)`, if any.
    pub fn block_lookup(&self, reward_cycle: u64, hash: &Vec<u8>) -> (r: Option<BlockInfo>)
        requires
            self.wf(),
        ensures
            match r {
                Some(bi) => self@.contains_key(
                    (StoreKeyV { reward_cycle, hash: hash@ }),
                ) && bi@ == self@[(StoreKeyV { reward_cycle, hash: hash@ })],
                None => !self@.contains_key((StoreKeyV { reward_cycle, hash: hash@ })),
            },
    {
        let key = StoreKey { reward_cycle, hash: clone_bytes(hash) };
        match self.rows.get(&key) {
            Some(bi) => Some(bi.duplicate()),
            None => None,
        }
    }

    /// Removes the row for `(reward_cycle, hash)`, if any.
    pub fn remove_block(&mut self, reward_cycle: u64, hash: &Vec<u8>)
        requires
            old(self).wf(),
        ensures
            final(self).wf(),
            final(self)@ == old(self)@.remove((StoreKeyV { reward_cycle, hash: hash@ })),
    {
        let key = StoreKey { reward_cycle, hash: clone_bytes(hash) };
        let _ = self.rows.remove(&key);
        proof {
            assert(self@ =~= old(self)@.remove((StoreKeyV { reward_cycle, hash: hash@ })));
        }
    }
}

/// The store round-trip law: after storing a block's info under a cycle, a
/// lookup with that cycle and the block's hash yields exactly what was
/// stored; a lookup under any other cycle is untouched by the store; and a
/// removal erases exactly that row.
pub proof fn law_block_store_round_trip(
    m: Map<StoreKeyV, BlockInfoV>,
    reward_cycle: u64,
    other_cycle: u64,
    hash: Seq<u8>,
    info: BlockInfoV,
)
    requires
        other_cycle != reward_cycle,
    ensures
        m.insert((StoreKeyV { reward_cycle, hash }), info)[(StoreKeyV {
            reward_cycle,
            hash,
        })] == info,
        m.insert((StoreKeyV { reward_cycle, hash }), info).contains_key(
            (StoreKeyV { reward_cycle: other_cycle, hash }),
        ) == m.contains_key((StoreKeyV { reward_cycle: other_cycle, hash })),
        !m.insert((StoreKeyV { reward_cycle, hash }), info).remove(
            (StoreKeyV { reward_cycle, hash }),
        ).contains_key((StoreKeyV { reward_cycle, hash })),
{
    assert(StoreKeyV { reward_cycle, hash } != StoreKeyV { reward_cycle: other_cycle, hash });
}

} // verus!
