//! The read-only view of local chain state the verifier consumes.
//!
//! `ChainView` is one snapshot a header is verified against: the head
//! status, the active epoch, the recorded block infos, the DAG block store,
//! the consensus verdicts, the chain topology, and the local clock.
//! `ChainReader` adds what only the top-level block verification needs: the
//! epoch's recorded uncles, the main-chain block ids, the sender blacklist,
//! and the historical views reachable by forking at an ancestor.

use vstd::prelude::*;
use crate::address_filter::AddressFilter;
use crate::block::{BlockHeader, BlockInfo, HashValue};
use crate::startup_info::ChainStatus;

verus! {

/// Chain topology: single-parent, or DAG once multiple parents are allowed.
#[derive(Clone, Copy, Debug, PartialEq, Eq, Structural)]
pub enum ChainType {
    Single,
    Dag,
}

/// The proof-of-work strategy an epoch prescribes. The verifier treats the
/// strategy as an interface and reads its verdicts from the chain view.
#[derive(Clone, Copy, Debug, PartialEq, Eq, Structural)]
pub enum ConsensusStrategy {
    Dummy,
    Argon,
    Keccak,
    CryptoNight,
}

/// What the consensus strategy says about one header: a verdict, or a
/// failure that is no verdict.
#[derive(Clone, Copy, Debug, PartialEq, Eq, Structural)]
pub enum ConsensusOutcome {
    Valid,
    Invalid,
    Unavailable,
}

/// Consensus parameters for a contiguous height range `(start, end]`.
#[derive(Clone, Copy, Debug, PartialEq, Eq, Structural)]
pub struct Epoch {
    pub start_block_number: u64,
    pub end_block_number: u64,
    pub max_uncles_per_block: u64,
    pub block_gas_limit: u64,
    pub strategy: ConsensusStrategy,
}

impl Epoch {
    pub fn start_block_number(&self) -> (r: u64)
        ensures
            r == self.start_block_number,
    {
        self.start_block_number
    }

    pub fn end_block_number(&self) -> (r: u64)
        ensures
            r == self.end_block_number,
    {
        self.end_block_number
    }

    pub fn max_uncles_per_block(&self) -> (r: u64)
        ensures
            r == self.max_uncles_per_block,
    {
        self.max_uncles_per_block
    }

    pub fn block_gas_limit(&self) -> (r: u64)
        ensures
            r == self.block_gas_limit,
    {
        self.block_gas_limit
    }

    pub fn strategy(&self) -> (r: ConsensusStrategy)
        ensures
            r == self.strategy,
    {
        self.strategy
    }
}

/// Whether a hash occurs in a list of hashes.
pub open spec fn spec_contains_hash(s: Seq<HashValue>, h: HashValue) -> bool {
    exists|i: int| 0 <= i < s.len() && s[i] == h
}

/// The first block info recorded under `id`, if any.
pub open spec fn spec_lookup_info(s: Seq<(HashValue, BlockInfo)>, id: HashValue) -> Option<
    BlockInfo,
>
    decreases s.len(),
{
    if s.len() == 0 {
        Option::None
    } else if s[0].0 == id {
        Option::Some(s[0].1)
    } else {
        spec_lookup_info(s.drop_first(), id)
    }
}

/// The consensus verdict recorded for `id`; a header the strategy was never
/// run on is invalid.
pub open spec fn spec_consensus_outcome(
    s: Seq<(HashValue, ConsensusOutcome)>,
    id: HashValue,
) -> ConsensusOutcome
    decreases s.len(),
{
    if s.len() == 0 {
        ConsensusOutcome::Invalid
    } else if s[0].0 == id {
        s[0].1
    } else {
        spec_consensus_outcome(s.drop_first(), id)
    }
}

/// Whether a hash occurs in a list of hashes: executable form.
pub fn contains_hash(s: &Vec<HashValue>, h: HashValue) -> (r: bool)
    ensures
        r == spec_contains_hash(s@, h),
{
    let mut i: usize = 0;
    while i < s.len()
        invariant
            i <= s@.len(),
            forall|j: int| 0 <= j < i ==> s@[j] != h,
        decreases s@.len() - i,
    {
        if s[i] == h {
            return true;
        }
        i += 1;
    }
    false
}

/// One snapshot of chain state a header is verified against.
#[derive(Clone, Debug, PartialEq, Eq)]
pub struct ChainView {
    /// The head block's header and info.
    pub status: ChainStatus,
    /// The epoch active at the head.
    pub epoch: Epoch,
    /// The block infos recorded by id.
    pub block_infos: Vec<(HashValue, BlockInfo)>,
    /// The ids the DAG block store holds.
    pub dag_blocks: Vec<HashValue>,
    /// The ids on which a DAG store query fails instead of answering.
    pub dag_query_errors: Vec<HashValue>,
    /// The consensus verdicts by header id.
    pub consensus: Vec<(HashValue, ConsensusOutcome)>,
    /// The topology the chain runs under at this height.
    pub chain_type: ChainType,
    /// The local clock, in milliseconds.
    pub now_millis: u64,
}

/// What `get_block_info` answers: the head's own info for `None`, else the
/// recorded info under the given id.
pub open spec fn spec_get_block_info(v: ChainView, id: Option<HashValue>) -> Option<BlockInfo> {
    match id {
        Option::None => Option::Some(v.status.info),
        Option::Some(h) => spec_lookup_info(v.block_infos@, h),
    }
}

/// What `has_dag_block` answers: an error on the ids whose query fails,
/// else membership in the DAG store.
pub open spec fn spec_has_dag_block(v: ChainView, h: HashValue) -> Result<bool, ()> {
    if spec_contains_hash(v.dag_query_errors@, h) {
        Result::Err(())
    } else {
        Result::Ok(spec_contains_hash(v.dag_blocks@, h))
    }
}

impl ChainView {
    /// The recorded info of a block; `None` asks for the head's.
    pub fn get_block_info(&self, id: Option<HashValue>) -> (r: Option<&BlockInfo>)
        ensures
            match r {
                Option::Some(info) => spec_get_block_info(*self, id) == Option::Some(*info),
                Option::None => spec_get_block_info(*self, id) is None,
            },
    {
        match id {
            Option::None => Option::Some(&self.status.info),
            Option::Some(h) => {
                let mut i: usize = 0;
                proof {
                    assert(self.block_infos@.skip(0) =~= self.block_infos@);
                }
                while i < self.block_infos.len()
                    invariant
                        id == Option::Some(h),
                        i <= self.block_infos@.len(),
                        spec_lookup_info(self.block_infos@.skip(i as int), h) == spec_lookup_info(
                            self.block_infos@,
                            h,
                        ),
                        forall|j: int| 0 <= j < i ==> self.block_infos@[j].0 != h,
                    decreases self.block_infos@.len() - i,
                {
                    if self.block_infos[i].0 == h {
                        proof {
                            assert(self.block_infos@.skip(i as int)[0]
                                == self.block_infos@[i as int]);
                        }
                        return Option::Some(&self.block_infos[i].1);
                    }
                    proof {
                        assert(self.block_infos@.skip(i as int).drop_first() =~= self.block_infos@
                            .skip(i + 1));
                    }
                    i += 1;
                }
                proof {
                    assert(self.block_infos@.skip(self.block_infos@.len() as int) =~= Seq::<(
                        HashValue,
                        BlockInfo,
                    )>::empty());
                }
                Option::None
            },
        }
    }

    /// The consensus verdict recorded for a header id.
    pub fn consensus_outcome(&self, id: HashValue) -> (r: ConsensusOutcome)
        ensures
            r == spec_consensus_outcome(self.consensus@, id),
    {
        let mut i: usize = 0;
        proof {
            assert(self.consensus@.skip(0) =~= self.consensus@);
        }
        while i < self.consensus.len()
            invariant
                i <= self.consensus@.len(),
                spec_consensus_outcome(self.consensus@.skip(i as int), id)
                    == spec_consensus_outcome(self.consensus@, id),
                forall|j: int| 0 <= j < i ==> self.consensus@[j].0 != id,
            decreases self.consensus@.len() - i,
        {
            if self.consensus[i].0 == id {
                proof {
                    assert(self.consensus@.skip(i as int)[0] == self.consensus@[i as int]);
                }
                return self.consensus[i].1;
            }
            proof {
                assert(self.consensus@.skip(i as int).drop_first() =~= self.consensus@.skip(
                    i + 1,
                ));
            }
            i += 1;
        }
        proof {
            assert(self.consensus@.skip(self.consensus@.len() as int) =~= Seq::<(
                HashValue,
                ConsensusOutcome,
            )>::empty());
        }
        ConsensusOutcome::Invalid
    }

    /// Whether the DAG block store holds this id, or an error where the
    /// query itself fails.
    pub fn has_dag_block(&self, h: HashValue) -> (r: Result<bool, ()>)
        ensures
            r == spec_has_dag_block(*self, h),
    {
        if contains_hash(&self.dag_query_errors, h) {
            Result::Err(())
        } else {
            Result::Ok(contains_hash(&self.dag_blocks, h))
        }
    }
}

/// The first historical view recorded under `root`, if any.
pub open spec fn spec_lookup_fork(s: Seq<(HashValue, ChainView)>, root: HashValue) -> Option<
    ChainView,
>
    decreases s.len(),
{
    if s.len() == 0 {
        Option::None
    } else if s[0].0 == root {
        Option::Some(s[0].1)
    } else {
        spec_lookup_fork(s.drop_first(), root)
    }
}

/// The full read-only handle the top-level verifier consumes.
#[derive(Clone, Debug, PartialEq, Eq)]
pub struct ChainReader {
    /// The snapshot at the head.
    pub view: ChainView,
    /// The uncle ids already recorded in the current epoch.
    pub epoch_uncles: Vec<HashValue>,
    /// The block ids on the main chain.
    pub blocks: Vec<HashValue>,
    /// The sender blacklist in force.
    pub address_filter: AddressFilter,
    /// The historical views reachable by forking, by root hash.
    pub forks: Vec<(HashValue, ChainView)>,
}

impl ChainReader {
    /// The head block's header and info.
    pub fn status(&self) -> (r: &ChainStatus)
        ensures
            *r == self.view.status,
    {
        &self.view.status
    }

    /// The head block's header.
    pub fn current_header(&self) -> (r: &BlockHeader)
        ensures
            *r == self.view.status.head,
    {
        &self.view.status.head
    }

    /// The epoch active at the head.
    pub fn epoch(&self) -> (r: Epoch)
        ensures
            r == self.view.epoch,
    {
        self.view.epoch
    }

    /// The uncle ids already recorded in the current epoch.
    pub fn epoch_uncles(&self) -> (r: &Vec<HashValue>)
        ensures
            r@ == self.epoch_uncles@,
    {
        &self.epoch_uncles
    }

    /// Whether the main chain holds a block with this id.
    pub fn exist_block(&self, h: HashValue) -> (r: bool)
        ensures
            r == spec_contains_hash(self.blocks@, h),
    {
        contains_hash(&self.blocks, h)
    }

    /// The recorded info of a block; `None` asks for the head's.
    pub fn get_block_info(&self, id: Option<HashValue>) -> (r: Option<&BlockInfo>)
        ensures
            match r {
                Option::Some(info) => spec_get_block_info(self.view, id) == Option::Some(*info),
                Option::None => spec_get_block_info(self.view, id) is None,
            },
    {
        self.view.get_block_info(id)
    }

    /// The topology the chain runs under.
    pub fn check_chain_type(&self) -> (r: ChainType)
        ensures
            r == self.view.chain_type,
    {
        self.view.chain_type
    }

    /// The local clock, in milliseconds.
    pub fn now_millis(&self) -> (r: u64)
        ensures
            r == self.view.now_millis,
    {
        self.view.now_millis
    }

    /// The historical view rooted at `root`, or `None` where the store
    /// holds none.
    pub fn fork(&self, root: HashValue) -> (r: Option<&ChainView>)
        ensures
            match r {
                Option::Some(v) => spec_lookup_fork(self.forks@, root) == Option::Some(*v),
                Option::None => spec_lookup_fork(self.forks@, root) is None,
            },
    {
        let mut i: usize = 0;
        proof {
            assert(self.forks@.skip(0) =~= self.forks@);
        }
        while i < self.forks.len()
            invariant
                i <= self.forks@.len(),
                spec_lookup_fork(self.forks@.skip(i as int), root) == spec_lookup_fork(
                    self.forks@,
                    root,
                ),
                forall|j: int| 0 <= j < i ==> self.forks@[j].0 != root,
            decreases self.forks@.len() - i,
        {
            if self.forks[i].0 == root {
                proof {
                    assert(self.forks@.skip(i as int)[0] == self.forks@[i as int]);
                }
                return Option::Some(&self.forks[i].1);
            }
            proof {
                assert(self.forks@.skip(i as int).drop_first() =~= self.forks@.skip(i + 1));
            }
            i += 1;
        }
        proof {
            assert(self.forks@.skip(self.forks@.len() as int) =~= Seq::<(
                HashValue,
                ChainView,
            )>::empty());
        }
        Option::None
    }
}

} // verus!
