//! Chain-state summary types: the chain's identity and latest status, the
//! persisted startup pointer, the snapshot height range, and the hard-fork
//! markers.

use vstd::prelude::*;
use crate::block::{AccumulatorInfo, BlockHeader, BlockInfo, HashValue};

verus! {

/// The id of a chain network.
#[derive(Clone, Copy, Debug, PartialEq, Eq, Structural)]
pub struct ChainId {
    pub id: u8,
}

impl ChainId {
    pub fn new(id: u8) -> (r: Self)
        ensures
            r.id == id,
    {
        Self { id }
    }

    /// The id reserved for test networks.
    pub fn test() -> (r: Self)
        ensures
            r.id == 255,
    {
        Self { id: 255 }
    }
}

/// The latest status of a chain: its head block's header and the recorded
/// info of that block.
#[derive(Clone, Debug, PartialEq, Eq)]
pub struct ChainStatus {
    /// Chain head block's header.
    pub head: BlockHeader,
    /// Chain block info.
    pub info: BlockInfo,
}

/// The shape `ChainStatus::sample` promises: an all-zero genesis-like head
/// whose info commits to the head's own roots.
pub open spec fn is_sample_status(s: ChainStatus) -> bool {
    &&& s.head.id == HashValue(0)
    &&& s.head.parent_hash == HashValue(0)
    &&& s.head.parents_hash is None
    &&& s.head.number == 0
    &&& s.head.timestamp == 0
    &&& s.head.body_hash == HashValue(0)
    &&& s.head.gas_used == 0
    &&& s.head.block_accumulator_root == HashValue(0)
    &&& s.head.txn_accumulator_root == HashValue(0)
    &&& s.info.block_id == s.head.id
    &&& s.info.total_difficulty == 0
    &&& s.info.txn_accumulator_info.accumulator_root == s.head.txn_accumulator_root
    &&& s.info.txn_accumulator_info.frozen_subtree_roots@.len() == 0
    &&& s.info.txn_accumulator_info.num_leaves == 0
    &&& s.info.txn_accumulator_info.num_nodes == 0
    &&& s.info.block_accumulator_info.accumulator_root == s.head.block_accumulator_root
    &&& s.info.block_accumulator_info.frozen_subtree_roots@.len() == 0
    &&& s.info.block_accumulator_info.num_leaves == 0
    &&& s.info.block_accumulator_info.num_nodes == 0
}

/// A header whose fields are drawn from the generator; only its shape as a
/// single-parent header is promised.
fn random_header() -> (r: BlockHeader)
    ensures
        r.parents_hash is None,
{
    BlockHeader {
        id: HashValue(rand::random::<u64>()),
        parent_hash: HashValue(rand::random::<u64>()),
        parents_hash: Option::None,
        number: rand::random::<u64>(),
        timestamp: rand::random::<u64>(),
        body_hash: HashValue(rand::random::<u64>()),
        gas_used: rand::random::<u64>(),
        block_accumulator_root: HashValue(rand::random::<u64>()),
        txn_accumulator_root: HashValue(rand::random::<u64>()),
    }
}

impl ChainStatus {
    pub fn new(head: BlockHeader, info: BlockInfo) -> (r: Self)
        ensures
            r.head == head,
            r.info == info,
    {
        Self { head, info }
    }

    /// A randomly drawn status whose info is structurally consistent with
    /// its head: same id, matching accumulator roots, no frozen subtrees,
    /// and a block-accumulator leaf count one below the head's height.
    pub fn random() -> (r: Self)
        ensures
            r.head.parents_hash is None,
            r.info.block_id == r.head.id,
            r.info.txn_accumulator_info.accumulator_root == r.head.txn_accumulator_root,
            r.info.txn_accumulator_info.frozen_subtree_roots@.len() == 0,
            r.info.block_accumulator_info.accumulator_root == r.head.block_accumulator_root,
            r.info.block_accumulator_info.frozen_subtree_roots@.len() == 0,
            r.info.block_accumulator_info.num_leaves == r.head.number.saturating_sub(1),
    {
        let head = random_header();
        let leaves = head.number.saturating_sub(1);
        let info = BlockInfo::new(
            head.id,
            rand::random::<u64>() as u128,
            AccumulatorInfo::new(
                head.txn_accumulator_root,
                Vec::new(),
                rand::random::<u64>(),
                rand::random::<u64>(),
            ),
            AccumulatorInfo::new(
                head.block_accumulator_root,
                Vec::new(),
                leaves,
                rand::random::<u64>(),
            ),
        );
        Self { head, info }
    }

    /// A fixed genesis-like status.
    pub fn sample() -> (r: Self)
        ensures
            is_sample_status(r),
    {
        let head = BlockHeader {
            id: HashValue(0),
            parent_hash: HashValue(0),
            parents_hash: Option::None,
            number: 0,
            timestamp: 0,
            body_hash: HashValue(0),
            gas_used: 0,
            block_accumulator_root: HashValue(0),
            txn_accumulator_root: HashValue(0),
        };
        let info = BlockInfo::new(
            HashValue(0),
            0,
            AccumulatorInfo::new(HashValue(0), Vec::new(), 0, 0),
            AccumulatorInfo::new(HashValue(0), Vec::new(), 0, 0),
        );
        Self { head, info }
    }

    pub fn head(&self) -> (r: &BlockHeader)
        ensures
            *r == self.head,
    {
        &self.head
    }

    pub fn info(&self) -> (r: &BlockInfo)
        ensures
            *r == self.info,
    {
        &self.info
    }

    pub fn total_difficulty(&self) -> (r: u128)
        ensures
            r == self.info.total_difficulty,
    {
        self.info.total_difficulty
    }

    pub fn into_inner(self) -> (r: (BlockHeader, BlockInfo))
        ensures
            r.0 == self.head,
            r.1 == self.info,
    {
        (self.head, self.info)
    }
}

/// The info of a chain: its network id, genesis hash, and latest status.
#[derive(Clone, Debug, PartialEq, Eq)]
pub struct ChainInfo {
    pub chain_id: ChainId,
    pub genesis_hash: HashValue,
    pub status: ChainStatus,
}

impl ChainInfo {
    pub fn new(chain_id: ChainId, genesis_hash: HashValue, status: ChainStatus) -> (r: Self)
        ensures
            r.chain_id == chain_id,
            r.genesis_hash == genesis_hash,
            r.status == status,
    {
        Self { chain_id, genesis_hash, status }
    }

    pub fn chain_id(&self) -> (r: ChainId)
        ensures
            r == self.chain_id,
    {
        self.chain_id
    }

    pub fn genesis_hash(&self) -> (r: HashValue)
        ensures
            r == self.genesis_hash,
    {
        self.genesis_hash
    }

    pub fn status(&self) -> (r: &ChainStatus)
        ensures
            *r == self.status,
    {
        &self.status
    }

    pub fn update_status(&mut self, status: ChainStatus)
        ensures
            final(self).status == status,
            final(self).chain_id == old(self).chain_id,
            final(self).genesis_hash == old(self).genesis_hash,
    {
        self.status = status;
    }

    pub fn head(&self) -> (r: &BlockHeader)
        ensures
            *r == self.status.head,
    {
        &self.status.head
    }

    pub fn total_difficulty(&self) -> (r: u128)
        ensures
            r == self.status.info.total_difficulty,
    {
        self.status.info.total_difficulty
    }

    pub fn into_inner(self) -> (r: (ChainId, HashValue, ChainStatus))
        ensures
            r.0 == self.chain_id,
            r.1 == self.genesis_hash,
            r.2 == self.status,
    {
        (self.chain_id, self.genesis_hash, self.status)
    }

    /// A randomly drawn chain info whose status has the structure
    /// `ChainStatus::random` promises.
    pub fn random() -> (r: Self)
        ensures
            r.status.info.block_id == r.status.head.id,
    {
        Self {
            chain_id: ChainId::new(rand::random::<u8>()),
            genesis_hash: HashValue(rand::random::<u64>()),
            status: ChainStatus::random(),
        }
    }
}

impl Default for ChainInfo {
    /// The test network with a zero genesis hash and the sample status.
    fn default() -> (r: Self)
        ensures
            r.chain_id.id == 255,
            r.genesis_hash == HashValue(0),
            is_sample_status(r.status),
    {
        Self {
            chain_id: ChainId::test(),
            genesis_hash: HashValue(0),
            status: ChainStatus::sample(),
        }
    }
}

/// The persisted pointer to the main chain's head block.
#[derive(Clone, Copy, Debug, PartialEq, Eq, Structural)]
pub struct StartupInfo {
    /// Main chain head block hash.
    pub main: HashValue,
}

impl StartupInfo {
    pub fn new(main: HashValue) -> (r: Self)
        ensures
            r.main == main,
    {
        Self { main }
    }

    pub fn update_main(&mut self, new_head: HashValue)
        ensures
            final(self).main == new_head,
    {
        self.main = new_head;
    }

    pub fn get_main(&self) -> (r: &HashValue)
        ensures
            *r == self.main,
    {
        &self.main
    }
}

/// The inclusive height range `[start, end]` a snapshot covers.
#[derive(Clone, Copy, Debug, PartialEq, Eq, Structural)]
pub struct SnapshotRange {
    pub start: u64,
    pub end: u64,
}

impl SnapshotRange {
    pub fn new(start: u64, end: u64) -> (r: Self)
        ensures
            r.start == start,
            r.end == end,
    {
        Self { start, end }
    }

    pub fn update_range(&mut self, start: u64, end: u64)
        ensures
            final(self).start == start,
            final(self).end == end,
    {
        self.start = start;
        self.end = end;
    }

    pub fn get_start(&self) -> (r: u64)
        ensures
            r == self.start,
    {
        self.start
    }

    pub fn get_end(&self) -> (r: u64)
        ensures
            r == self.end,
    {
        self.end
    }
}

/// Marker of the hard fork that removes blocks from `number` on.
#[derive(Clone, Copy, Debug, PartialEq, Eq, Structural)]
pub struct BarnardHardFork {
    pub number: u64,
    pub hash: HashValue,
}

impl BarnardHardFork {
    pub fn new(number: u64, hash: HashValue) -> (r: Self)
        ensures
            r.number == number,
            r.hash == hash,
    {
        Self { number, hash }
    }

    pub fn get_number(&self) -> (r: u64)
        ensures
            r == self.number,
    {
        self.number
    }

    pub fn get_hash(&self) -> (r: HashValue)
        ensures
            r == self.hash,
    {
        self.hash
    }
}

/// Marker of the hard fork that purges blocks above `number`.
#[derive(Clone, Copy, Debug, PartialEq, Eq, Structural)]
pub struct DragonHardFork {
    pub number: u64,
    pub hash: HashValue,
}

impl DragonHardFork {
    pub fn new(number: u64, hash: HashValue) -> (r: Self)
        ensures
            r.number == number,
            r.hash == hash,
    {
        Self { number, hash }
    }

    pub fn get_number(&self) -> (r: u64)
        ensures
            r == self.number,
    {
        self.number
    }

    pub fn get_hash(&self) -> (r: HashValue)
        ensures
            r == self.hash,
    {
        self.hash
    }
}

} // verus!
