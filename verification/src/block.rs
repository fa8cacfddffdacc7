//! Block data model: hashes, transactions, headers, bodies, blocks, and the
//! accumulator summaries (`AccumulatorInfo`, `BlockInfo`) that accompany a
//! block on the chain.
//!
//! The body-hash commitment recomputed by the verifier is defined here as a
//! deterministic fold over the body's contents, so that every node derives
//! the same value from the same body.

use vstd::prelude::*;

verus! {

/// Milliseconds a block timestamp may run ahead of the local clock.
pub const ALLOWED_FUTURE_BLOCKTIME: u64 = 30000;

/// A cryptographic digest, modelled as an opaque machine word. The verifier
/// never inspects a hash beyond comparing it for equality.
#[derive(Clone, Copy, Debug, PartialEq, Eq, Structural)]
pub struct HashValue(pub u64);

/// An account address, as carried by a transaction's sender field.
#[derive(Clone, Copy, Debug, PartialEq, Eq, Structural)]
pub struct AccountAddress(pub u64);

/// A signed transaction, reduced to the one field the verifier reads.
#[derive(Clone, Copy, Debug, PartialEq, Eq, Structural)]
pub struct SignedUserTransaction {
    pub sender: AccountAddress,
}

/// A block header. `id` is the digest of the header; `body_hash` commits to
/// the body; `parents_hash` lists the parent ids of a DAG block and is
/// `None` or empty for a single-parent block.
#[derive(Clone, Debug, PartialEq, Eq)]
pub struct BlockHeader {
    pub id: HashValue,
    pub parent_hash: HashValue,
    pub parents_hash: Option<Vec<HashValue>>,
    pub number: u64,
    pub timestamp: u64,
    pub body_hash: HashValue,
    pub gas_used: u64,
    pub block_accumulator_root: HashValue,
    pub txn_accumulator_root: HashValue,
}

/// A block body: the ordered transactions and the optional uncle headers.
#[derive(Clone, Debug, PartialEq, Eq)]
pub struct BlockBody {
    pub transactions: Vec<SignedUserTransaction>,
    pub uncles: Option<Vec<BlockHeader>>,
}

/// A candidate block: a header plus the body it commits to.
#[derive(Clone, Debug, PartialEq, Eq)]
pub struct Block {
    pub header: BlockHeader,
    pub body: BlockBody,
}

/// Summary of an accumulator: its root and size counters.
#[derive(Clone, Debug, PartialEq, Eq)]
pub struct AccumulatorInfo {
    pub accumulator_root: HashValue,
    pub frozen_subtree_roots: Vec<HashValue>,
    pub num_leaves: u64,
    pub num_nodes: u64,
}

impl AccumulatorInfo {
    pub fn new(
        accumulator_root: HashValue,
        frozen_subtree_roots: Vec<HashValue>,
        num_leaves: u64,
        num_nodes: u64,
    ) -> (r: Self)
        ensures
            r.accumulator_root == accumulator_root,
            r.frozen_subtree_roots@ == frozen_subtree_roots@,
            r.num_leaves == num_leaves,
            r.num_nodes == num_nodes,
    {
        Self { accumulator_root, frozen_subtree_roots, num_leaves, num_nodes }
    }

    pub fn get_accumulator_root(&self) -> (r: HashValue)
        ensures
            r == self.accumulator_root,
    {
        self.accumulator_root
    }
}

/// The chain's record of an executed block: its id, the total difficulty up
/// to it, and the two accumulator summaries.
#[derive(Clone, Debug, PartialEq, Eq)]
pub struct BlockInfo {
    pub block_id: HashValue,
    pub total_difficulty: u128,
    pub txn_accumulator_info: AccumulatorInfo,
    pub block_accumulator_info: AccumulatorInfo,
}

impl BlockInfo {
    pub fn new(
        block_id: HashValue,
        total_difficulty: u128,
        txn_accumulator_info: AccumulatorInfo,
        block_accumulator_info: AccumulatorInfo,
    ) -> (r: Self)
        ensures
            r.block_id == block_id,
            r.total_difficulty == total_difficulty,
            r.txn_accumulator_info == txn_accumulator_info,
            r.block_accumulator_info == block_accumulator_info,
    {
        Self { block_id, total_difficulty, txn_accumulator_info, block_accumulator_info }
    }

    pub fn get_block_accumulator_info(&self) -> (r: &AccumulatorInfo)
        ensures
            *r == self.block_accumulator_info,
    {
        &self.block_accumulator_info
    }

    pub fn get_total_difficulty(&self) -> (r: u128)
        ensures
            r == self.total_difficulty,
    {
        self.total_difficulty
    }
}

/// Seed of the body-hash fold.
pub const BODY_HASH_SEED: u64 = 0xcbf29ce484222325;

/// Multiplier of the body-hash fold.
pub const BODY_HASH_MULT: u64 = 0x100000001b3;

/// One step of the body-hash fold.
pub open spec fn spec_mix(h: u64, x: u64) -> u64 {
    (h ^ x).wrapping_mul(BODY_HASH_MULT)
}

/// Fold a token sequence into a digest, front to back.
pub open spec fn spec_fold_hash(h: u64, s: Seq<u64>) -> u64
    decreases s.len(),
{
    if s.len() == 0 {
        h
    } else {
        spec_fold_hash(spec_mix(h, s[0]), s.drop_first())
    }
}

/// The tokens contributed by the transactions: one per sender, in order.
pub open spec fn spec_txn_tokens(s: Seq<SignedUserTransaction>) -> Seq<u64> {
    s.map(|i: int, t: SignedUserTransaction| t.sender.0)
}

/// The tokens contributed by the uncle list: one per uncle id, in order.
pub open spec fn spec_uncle_tokens(s: Seq<BlockHeader>) -> Seq<u64> {
    s.map(|i: int, h: BlockHeader| h.id.0)
}

/// The token sequence a body hashes to: transaction count and senders, then
/// a tag distinguishing an absent uncle list from a present one, then the
/// uncle count and ids.
pub open spec fn spec_body_tokens(b: BlockBody) -> Seq<u64> {
    let txn_part = seq![b.transactions@.len() as u64] + spec_txn_tokens(b.transactions@);
    match b.uncles {
        Option::None => txn_part + seq![0u64],
        Option::Some(u) => txn_part + seq![1u64, u@.len() as u64] + spec_uncle_tokens(u@),
    }
}

/// The digest a body must match against its header's `body_hash`.
pub open spec fn spec_body_hash(b: BlockBody) -> HashValue {
    HashValue(spec_fold_hash(BODY_HASH_SEED, spec_body_tokens(b)))
}

/// Folding one more token on the right applies one more mix step.
proof fn lemma_fold_hash_snoc(h: u64, s: Seq<u64>, x: u64)
    ensures
        spec_fold_hash(h, s + seq![x]) == spec_mix(spec_fold_hash(h, s), x),
    decreases s.len(),
{
    if s.len() == 0 {
        assert(s + seq![x] =~= seq![x]);
        assert((seq![x]).drop_first() =~= Seq::<u64>::empty());
        assert(spec_fold_hash(h, seq![x]) == spec_fold_hash(
            spec_mix(h, x),
            (seq![x]).drop_first(),
        ));
    } else {
        assert((s + seq![x])[0] == s[0]);
        assert((s + seq![x]).drop_first() =~= s.drop_first() + seq![x]);
        lemma_fold_hash_snoc(spec_mix(h, s[0]), s.drop_first(), x);
        assert(spec_fold_hash(h, s + seq![x]) == spec_fold_hash(
            spec_mix(h, s[0]),
            s.drop_first() + seq![x],
        ));
    }
}

impl BlockBody {
    /// Recompute the digest this body commits to.
    pub fn hash(&self) -> (r: HashValue)
        ensures
            r == spec_body_hash(*self),
    {
        let mut toks: Vec<u64> = Vec::new();
        toks.push(self.transactions.len() as u64);
        let mut i: usize = 0;
        while i < self.transactions.len()
            invariant
                i <= self.transactions@.len(),
                toks@ =~= seq![self.transactions@.len() as u64]
                    + spec_txn_tokens(self.transactions@.take(i as int)),
            decreases self.transactions@.len() - i,
        {
            toks.push(self.transactions[i].sender.0);
            proof {
                assert(self.transactions@.take(i + 1) =~= self.transactions@.take(i as int).push(
                    self.transactions@[i as int],
                ));
                assert(spec_txn_tokens(self.transactions@.take(i + 1)) =~= spec_txn_tokens(
                    self.transactions@.take(i as int),
                ).push(self.transactions@[i as int].sender.0));
            }
            i += 1;
        }
        proof {
            assert(self.transactions@.take(self.transactions@.len() as int)
                =~= self.transactions@);
        }
        match &self.uncles {
            Option::None => {
                toks.push(0u64);
                proof {
                    assert(toks@ =~= spec_body_tokens(*self));
                }
            },
            Option::Some(u) => {
                toks.push(1u64);
                toks.push(u.len() as u64);
                let mut j: usize = 0;
                while j < u.len()
                    invariant
                        j <= u@.len(),
                        toks@ =~= seq![self.transactions@.len() as u64]
                            + spec_txn_tokens(self.transactions@)
                            + seq![1u64, u@.len() as u64]
                            + spec_uncle_tokens(u@.take(j as int)),
                    decreases u@.len() - j,
                {
                    toks.push(u[j].id.0);
                    proof {
                        assert(u@.take(j + 1) =~= u@.take(j as int).push(u@[j as int]));
                        assert(spec_uncle_tokens(u@.take(j + 1)) =~= spec_uncle_tokens(
                            u@.take(j as int),
                        ).push(u@[j as int].id.0));
                    }
                    j += 1;
                }
                proof {
                    assert(u@.take(u@.len() as int) =~= u@);
                    assert(toks@ =~= spec_body_tokens(*self));
                }
            },
        }
        let mut h: u64 = BODY_HASH_SEED;
        let mut k: usize = 0;
        while k < toks.len()
            invariant
                k <= toks@.len(),
                toks@ == spec_body_tokens(*self),
                h == spec_fold_hash(BODY_HASH_SEED, toks@.take(k as int)),
            decreases toks@.len() - k,
        {
            proof {
                assert(toks@.take(k + 1) =~= toks@.take(k as int) + seq![toks@[k as int]]);
                lemma_fold_hash_snoc(BODY_HASH_SEED, toks@.take(k as int), toks@[k as int]);
            }
            h = (h ^ toks[k]).wrapping_mul(BODY_HASH_MULT);
            k += 1;
        }
        proof {
            assert(toks@.take(toks@.len() as int) =~= toks@);
        }
        HashValue(h)
    }
}

impl Block {
    /// The header of this block.
    pub fn header(&self) -> (r: &BlockHeader)
        ensures
            *r == self.header,
    {
        &self.header
    }

    /// The transactions of this block's body.
    pub fn transactions(&self) -> (r: &Vec<SignedUserTransaction>)
        ensures
            r@ == self.body.transactions@,
    {
        &self.body.transactions
    }
}

} // verus!
