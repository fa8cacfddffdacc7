//! The decisions of the sync pipeline, separated from the orchestration
//! that performs network and storage work: what to fetch first, how wide
//! the buffers are, whether the local store can be trusted for blocks, and
//! which headers' bodies to request.

use vstd::prelude::*;
use crate::block::{BlockHeader, BlockInfo, HashValue};
use crate::chain::spec_lookup_info;

verus! {

/// A block id together with its height.
#[derive(Clone, Copy, Debug, PartialEq, Eq, Structural)]
pub struct BlockIdAndNumber {
    pub id: HashValue,
    pub number: u64,
}

/// How many accumulator leaves one fetch batch asks for.
pub const ACCUMULATOR_BATCH_SIZE: u64 = 100;

/// The plan the sync task runs: computed once from the ancestor, the two
/// difficulty records, the accumulator size, and the peer count.
#[derive(Clone, Copy, Debug, PartialEq, Eq, Structural)]
pub struct SyncPlan {
    /// The first block number to fetch: the ancestor is local already.
    pub start_number: u64,
    /// How many accumulator leaves one fetch batch asks for.
    pub batch_size: u64,
    /// The buffer width of the block task: one slot per peer.
    pub buffer_size: u64,
    /// The buffer width of the accumulator task: no wider than the number
    /// of items to fetch.
    pub acc_buffer_size: u64,
    /// Whether locally stored blocks may be reused: only where the
    /// ancestor's chain does not outweigh the current one.
    pub check_local_store: bool,
}

impl SyncPlan {
    /// Compute the plan of one inner sync round.
    pub fn new(
        ancestor: BlockIdAndNumber,
        ancestor_block_info: &BlockInfo,
        current_block_info: &BlockInfo,
        total_items: u64,
        peer_count: u64,
    ) -> (r: SyncPlan)
        ensures
            r.start_number == ancestor.number.saturating_add(1),
            r.batch_size == ACCUMULATOR_BATCH_SIZE,
            r.buffer_size == peer_count,
            r.acc_buffer_size == if total_items <= peer_count {
                total_items
            } else {
                peer_count
            },
            r.check_local_store == (ancestor_block_info.total_difficulty
                <= current_block_info.total_difficulty),
    {
        let acc_buffer_size = if total_items <= peer_count {
            total_items
        } else {
            peer_count
        };
        SyncPlan {
            start_number: ancestor.number.saturating_add(1),
            batch_size: ACCUMULATOR_BATCH_SIZE,
            buffer_size: peer_count,
            acc_buffer_size,
            check_local_store: ancestor_block_info.total_difficulty
                <= current_block_info.total_difficulty,
        }
    }
}

/// The recorded info of the sync ancestor; its absence is a local-state
/// error carrying the ancestor's id, not a verdict on any block.
pub fn ancestor_block_info<'a>(
    storage: &'a Vec<(HashValue, BlockInfo)>,
    ancestor: &BlockIdAndNumber,
) -> (r: Result<&'a BlockInfo, HashValue>)
    ensures
        match r {
            Result::Ok(info) => spec_lookup_info(storage@, ancestor.id) == Option::Some(*info),
            Result::Err(id) => id == ancestor.id && spec_lookup_info(storage@, ancestor.id)
                is None,
        },
{
    let mut i: usize = 0;
    proof {
        assert(storage@.skip(0) =~= storage@);
    }
    while i < storage.len()
        invariant
            i <= storage@.len(),
            spec_lookup_info(storage@.skip(i as int), ancestor.id) == spec_lookup_info(
                storage@,
                ancestor.id,
            ),
        decreases storage@.len() - i,
    {
        proof {
            assert(storage@.skip(i as int)[0] == storage@[i as int]);
        }
        if storage[i].0 == ancestor.id {
            return Result::Ok(&storage[i].1);
        }
        proof {
            assert(storage@.skip(i as int).drop_first() =~= storage@.skip(i + 1));
        }
        i += 1;
    }
    proof {
        assert(storage@.skip(storage@.len() as int) =~= Seq::<(HashValue, BlockInfo)>::empty());
    }
    Result::Err(ancestor.id)
}

/// The ids of a batch of headers, in order: the payload of a body
/// download request.
pub fn header_ids(headers: &Vec<BlockHeader>) -> (r: Vec<HashValue>)
    ensures
        r@.len() == headers@.len(),
        forall|i: int| 0 <= i < headers@.len() ==> r@[i] == headers@[i].id,
{
    let mut ids: Vec<HashValue> = Vec::new();
    let mut i: usize = 0;
    while i < headers.len()
        invariant
            i <= headers@.len(),
            ids@.len() == i,
            forall|j: int| 0 <= j < i ==> ids@[j] == headers@[j].id,
        decreases headers@.len() - i,
    {
        ids.push(headers[i].id);
        i += 1;
    }
    ids
}

} // verus!
