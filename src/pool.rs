use std::collections::HashMap;
use vstd::prelude::*;
use crate::types::{Operation, ProverData};

verus! {

broadcast use vstd::std_specs::hash::group_hash_axioms;

/// In-memory store of blocks loaded for proving (`operations`) and of the
/// prover data already built for them (`prepared`), both keyed by block
/// number.
pub struct ProversDataPool {
    last_prepared: i64,
    last_loaded: i64,
    limit: i64,
    operations: HashMap<i64, Operation>,
    prepared: HashMap<i64, ProverData>,
}

/// Message of the error that `take_next_to_prove` returns when nothing is
/// pending.
pub open spec fn inconsistent_msg() -> Seq<char> {
    "data is inconsistent"@
}

/// The pending map after queueing `ops` in order, each under its block
/// number.
pub open spec fn stored_all(m: Map<i64, Operation>, ops: Seq<Operation>) -> Map<i64, Operation>
    decreases ops.len(),
{
    if ops.len() == 0 {
        m
    } else {
        stored_all(m, ops.drop_last()).insert(ops.last().block_number as i64, ops.last())
    }
}

/// Look-ahead bound of a fresh pool.
pub const DEFAULT_LIMIT: i64 = 10;

impl ProversDataPool {
    pub closed spec fn spec_last_prepared(&self) -> int {
        self.last_prepared as int
    }

    pub closed spec fn spec_last_loaded(&self) -> int {
        self.last_loaded as int
    }

    pub closed spec fn spec_limit(&self) -> int {
        self.limit as int
    }

    /// Blocks loaded and not yet taken for preparation.
    pub closed spec fn pending(&self) -> Map<i64, Operation> {
        self.operations@
    }

    /// Prover data ready for consumption.
    pub closed spec fn ready(&self) -> Map<i64, ProverData> {
        self.prepared@
    }

    /// The look-ahead window: blocks loaded but not prepared plus blocks
    /// prepared but not consumed.
    pub open spec fn window(&self) -> int {
        self.spec_last_loaded() - self.spec_last_prepared() + self.ready().len()
    }

    /// Both maps are finite, and every pending block sits under its own
    /// block number.
    pub open spec fn wf(&self) -> bool {
        &&& self.pending().dom().finite()
        &&& self.ready().dom().finite()
        &&& self.keys_match()
    }

    pub closed spec fn keys_match(&self) -> bool {
        forall|k: i64|
            self.operations@.contains_key(k) ==> (#[trigger] self.operations@[k]).block_number
                as i64 == k
    }

    pub open spec fn spec_has_capacity(&self) -> bool {
        self.window() < self.spec_limit()
    }

    pub fn new() -> (r: Self)
        ensures
            r.wf(),
            r.spec_last_prepared() == 0,
            r.spec_last_loaded() == 0,
            r.spec_limit() == DEFAULT_LIMIT,
            r.pending() == Map::<i64, Operation>::empty(),
            r.ready() == Map::<i64, ProverData>::empty(),
    {
        ProversDataPool {
            last_prepared: 0,
            last_loaded: 0,
            limit: DEFAULT_LIMIT,
            operations: HashMap::new(),
            prepared: HashMap::new(),
        }
    }

    pub fn last_loaded(&self) -> (r: i64)
        ensures
            r as int == self.spec_last_loaded(),
    {
        self.last_loaded
    }

    pub fn last_prepared(&self) -> (r: i64)
        ensures
            r as int == self.spec_last_prepared(),
    {
        self.last_prepared
    }

    pub fn limit(&self) -> (r: i64)
        ensures
            r as int == self.spec_limit(),
    {
        self.limit
    }

    /// Looks up the prover data prepared for `block`.
    pub fn get(&self, block: i64) -> (r: Option<&ProverData>)
        ensures
            match r {
                Some(v) => self.ready().contains_key(block) && *v == self.ready()[block],
                None => !self.ready().contains_key(block),
            },
    {
        self.prepared.get(&block)
    }

    /// Drops the prover data prepared for `block`, if there is any.
    pub fn clean_up(&mut self, block: i64)
        requires
            old(self).wf(),
        ensures
            final(self).wf(),
            final(self).ready() == old(self).ready().remove(block),
            !old(self).ready().contains_key(block) ==> final(self).ready() == old(self).ready(),
            old(self).ready().contains_key(block) ==> final(self).window() == old(self).window()
                - 1,
            final(self).pending() == old(self).pending(),
            final(self).spec_last_loaded() == old(self).spec_last_loaded(),
            final(self).spec_last_prepared() == old(self).spec_last_prepared(),
            final(self).spec_limit() == old(self).spec_limit(),
    {
        self.prepared.remove(&block);
    }

    /// Whether the look-ahead window still has room for more blocks.
    pub fn has_capacity(&self) -> (r: bool)
        ensures
            r == self.spec_has_capacity(),
    {
        let window: i128 = self.last_loaded as i128 - self.last_prepared as i128
            + self.prepared.len() as i128;
        window < self.limit as i128
    }

    /// True when no loaded block is waiting for preparation.
    pub fn all_prepared(&self) -> (r: bool)
        ensures
            r == self.pending().is_empty(),
    {
        self.operations.is_empty()
    }

    /// Queues `op` for preparation under its block number, which becomes the
    /// last loaded block.
    pub fn store_to_prove(&mut self, op: Operation)
        requires
            old(self).wf(),
        ensures
            final(self).wf(),
            final(self).spec_last_loaded() == op.block_number as int,
            final(self).pending() == old(self).pending().insert(op.block_number as i64, op),
            final(self).ready() == old(self).ready(),
            final(self).spec_last_prepared() == old(self).spec_last_prepared(),
            final(self).spec_limit() == old(self).spec_limit(),
    {
        let block = op.block_number as i64;
        self.last_loaded = block;
        self.operations.insert(block, op);
    }

    /// Queues a batch of loaded blocks, in order; the last one becomes the
    /// last loaded block.
    pub fn store_all(&mut self, ops: Vec<Operation>)
        requires
            old(self).wf(),
        ensures
            final(self).wf(),
            ops@.len() == 0 ==> final(self).spec_last_loaded() == old(self).spec_last_loaded(),
            ops@.len() > 0 ==> final(self).spec_last_loaded() == ops@.last().block_number as int,
            final(self).pending() == stored_all(old(self).pending(), ops@),
            final(self).ready() == old(self).ready(),
            final(self).spec_last_prepared() == old(self).spec_last_prepared(),
            final(self).spec_limit() == old(self).spec_limit(),
    {
        let mut i: usize = 0;
        while i < ops.len()
            invariant
                i <= ops@.len(),
                self.wf(),
                i == 0 ==> self.spec_last_loaded() == old(self).spec_last_loaded(),
                i > 0 ==> self.spec_last_loaded() == ops@[i - 1].block_number as int,
                self.pending() == stored_all(old(self).pending(), ops@.take(i as int)),
                self.ready() == old(self).ready(),
                self.spec_last_prepared() == old(self).spec_last_prepared(),
                self.spec_limit() == old(self).spec_limit(),
            decreases ops@.len() - i,
        {
            self.store_to_prove(ops[i]);
            proof {
                assert(ops@.take(i + 1).drop_last() =~= ops@.take(i as int));
            }
            i = i + 1;
        }
        proof {
            assert(ops@.take(i as int) =~= ops@);
        }
    }

    /// The lowest pending block, taken out of the pool, or `None` when every
    /// loaded block has been taken already.
    pub fn next_to_prepare(&mut self) -> (r: Option<Operation>)
        requires
            old(self).wf(),
        ensures
            final(self).wf(),
            r is None <==> old(self).pending().is_empty(),
            r is None ==> final(self).pending() == old(self).pending(),
            r matches Some(op) ==> {
                &&& old(self).pending().contains_key(op.block_number as i64)
                &&& old(self).pending()[op.block_number as i64] == op
                &&& forall|k: i64|
                    #[trigger] old(self).pending().contains_key(k) ==> op.block_number as i64
                        <= k
                &&& final(self).pending() == old(self).pending().remove(op.block_number as i64)
            },
            final(self).ready() == old(self).ready(),
            final(self).spec_last_loaded() == old(self).spec_last_loaded(),
            final(self).spec_last_prepared() == old(self).spec_last_prepared(),
            final(self).spec_limit() == old(self).spec_limit(),
    {
        if self.all_prepared() {
            return None;
        }
        match self.take_next_to_prove() {
            Ok(op) => Some(op),
            Err(_) => None,
        }
    }

    /// Files the prover data built for `block` and counts one more prepared
    /// block.
    pub fn record_prepared(&mut self, block: i64, pd: ProverData)
        requires
            old(self).wf(),
            old(self).spec_last_prepared() < i64::MAX,
        ensures
            final(self).wf(),
            final(self).spec_last_prepared() == old(self).spec_last_prepared() + 1,
            final(self).ready() == old(self).ready().insert(block, pd),
            !old(self).ready().contains_key(block) ==> final(self).window() == old(self).window(),
            final(self).pending() == old(self).pending(),
            final(self).spec_last_loaded() == old(self).spec_last_loaded(),
            final(self).spec_limit() == old(self).spec_limit(),
    {
        self.last_prepared = self.last_prepared + 1;
        self.prepared.insert(block, pd);
    }

    /// Removes and returns the pending block with the smallest number.
    pub fn take_next_to_prove(&mut self) -> (r: Result<Operation, String>)
        requires
            old(self).wf(),
        ensures
            final(self).wf(),
            match r {
                Ok(op) => {
                    &&& old(self).pending().contains_key(op.block_number as i64)
                    &&& old(self).pending()[op.block_number as i64] == op
                    &&& forall|k: i64|
                        #[trigger] old(self).pending().contains_key(k) ==> op.block_number as i64
                            <= k
                    &&& final(self).pending() == old(self).pending().remove(
                        op.block_number as i64,
                    )
                },
                Err(e) => {
                    &&& old(self).pending().is_empty()
                    &&& e@ == inconsistent_msg()
                    &&& final(self).pending() == old(self).pending()
                },
            },
            r is Ok <==> !old(self).pending().is_empty(),
            final(self).ready() == old(self).ready(),
            final(self).spec_last_loaded() == old(self).spec_last_loaded(),
            final(self).spec_last_prepared() == old(self).spec_last_prepared(),
            final(self).spec_limit() == old(self).spec_limit(),
    {
        let mut first: Option<i64> = None;
        let ghost mut seen: Set<i64> = Set::empty();
        for key in it: self.operations.keys()
            invariant
                it.seq().unref().to_set() == self.operations@.dom(),
                forall|k: i64|
                    seen.contains(k) <==> exists|i: int|
                        0 <= i < it.index() && *it.seq()[i] == k,
                match first {
                    Some(f) => seen.contains(f) && forall|k: i64| seen.contains(k) ==> f <= k,
                    None => seen.is_empty(),
                },
                seen.subset_of(self.operations@.dom()),
                it.index() == it.seq().len() ==> forall|k: i64|
                    #[trigger] self.operations@.dom().contains(k) ==> seen.contains(k),
        {
            proof {
                seen = seen.insert(*key);
                assert(*it.seq()[it.index()] == *key);
            }
            first = match first {
                Some(f) => if *key < f { Some(*key) } else { Some(f) },
                None => Some(*key),
            };
            proof {
                assert forall|k: i64|
                    it.index() + 1 == it.seq().len() && #[trigger] self.operations@.dom().contains(
                        k,
                    ) implies seen.contains(k) by {
                    assert(it.seq().unref().to_set().contains(k));
                    let i = choose|i: int|
                        0 <= i < it.seq().unref().len() && it.seq().unref()[i] == k;
                    assert(*it.seq()[i] == k);
                }
                assert(it.seq().unref()[it.index()] == *key);
                assert(it.seq().unref().to_set().contains(*key));
            }
        }
        match first {
            Some(f) => {
                match self.operations.remove(&f) {
                    Some(v) => Ok(v),
                    None => Err("data is inconsistent".to_owned()),
                }
            },
            None => {
                Err("data is inconsistent".to_owned())
            },
        }
    }
}

} // verus!
