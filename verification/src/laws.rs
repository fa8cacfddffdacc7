//! The laws the verifier obeys, each proved from the specification
//! functions that the executable checks are pinned to.

use vstd::prelude::*;
use crate::block::{Block, BlockHeader, HashValue, spec_body_hash};
use crate::block_verifier::{
    spec_basic_verify_header, spec_can_be_uncle, spec_dag_verify_header, spec_header_parents,
    spec_parse_verifier, spec_unique_hashes, spec_verifier_token, spec_verify_blacklisted,
    spec_verify_block, spec_verify_header, spec_verify_uncles, spec_verify_uncles_iter, Verifier,
    VerifierKind,
};
use crate::chain::{spec_contains_hash, spec_lookup_fork, ChainReader, ChainView};
use crate::errors::{ConnectBlockError, VerifyBlockField};

verus! {

/// A verdict is a function of the strategy, the reader snapshot and the
/// block alone: any two results meeting the verifier's contract on the
/// same inputs are the same verdict.
pub proof fn lemma_verify_block_deterministic(
    k: VerifierKind,
    r: ChainReader,
    b: Block,
    r1: Result<(), ConnectBlockError>,
    r2: Result<(), ConnectBlockError>,
)
    requires
        r1 == spec_verify_block(k, r, b),
        r2 == spec_verify_block(k, r, b),
    ensures
        r1 == r2,
{
}

/// A block whose body does not hash to the header's commitment is never
/// accepted; and where the blacklist and header checks pass, it is
/// rejected with the `Body` category.
pub proof fn lemma_body_hash_mismatch_rejected(k: VerifierKind, r: ChainReader, b: Block)
    requires
        spec_body_hash(b.body) != b.header.body_hash,
    ensures
        !(spec_verify_block(k, r, b) is Ok),
        (spec_verify_blacklisted(r.address_filter, b.body.transactions@, b.header.number) is Ok
            && spec_verify_header(k, r.view, b.header) is Ok) ==> spec_verify_block(k, r, b)
            matches Err(ConnectBlockError::VerifyBlockFailed(VerifyBlockField::Body, _)),
{
}

/// A block whose height is not the head's plus one, or whose parent hash
/// is not the head's id, is rejected by the basic rules with the `Header`
/// category.
pub proof fn lemma_basic_rejects_bad_linkage(v: ChainView, h: BlockHeader)
    requires
        h.number != v.status.head.number.saturating_add(1) || h.parent_hash != v.status.head.id,
    ensures
        spec_basic_verify_header(v, h) matches Err(
            ConnectBlockError::VerifyBlockFailed(VerifyBlockField::Header, _),
        ),
{
}

/// A block whose timestamp is not strictly after the head's is rejected
/// by the basic rules with the `Header` category.
pub proof fn lemma_basic_rejects_stale_timestamp(v: ChainView, h: BlockHeader)
    requires
        h.timestamp <= v.status.head.timestamp,
    ensures
        spec_basic_verify_header(v, h) matches Err(
            ConnectBlockError::VerifyBlockFailed(VerifyBlockField::Header, _),
        ),
{
}

/// A block whose timestamp runs further ahead of the local clock than the
/// allowed future blocktime is rejected by the basic rules with the
/// `Header` category.
pub proof fn lemma_basic_rejects_future_timestamp(v: ChainView, h: BlockHeader)
    requires
        h.timestamp > crate::block::ALLOWED_FUTURE_BLOCKTIME.saturating_add(v.now_millis),
    ensures
        spec_basic_verify_header(v, h) matches Err(
            ConnectBlockError::VerifyBlockFailed(VerifyBlockField::Header, _),
        ),
{
}

/// A block at the epoch-terminating height carrying any uncles is
/// rejected by the default uncle check with the `Uncle` category.
pub proof fn lemma_uncles_forbidden_at_epoch_boundary(
    k: VerifierKind,
    r: ChainReader,
    uncles: Seq<BlockHeader>,
    h: BlockHeader,
)
    requires
        h.number == r.view.epoch.end_block_number,
        uncles.len() > 0,
    ensures
        spec_verify_uncles(k, r, uncles, h) matches Err(
            ConnectBlockError::VerifyBlockFailed(VerifyBlockField::Uncle, _),
        ),
{
}

/// A block carrying more uncles than the epoch allows is rejected by the
/// default uncle check with the `Uncle` category.
pub proof fn lemma_too_many_uncles_rejected(
    k: VerifierKind,
    r: ChainReader,
    uncles: Seq<BlockHeader>,
    h: BlockHeader,
)
    requires
        uncles.len() > r.view.epoch.max_uncles_per_block,
    ensures
        spec_verify_uncles(k, r, uncles, h) matches Err(
            ConnectBlockError::VerifyBlockFailed(VerifyBlockField::Uncle, _),
        ),
{
}

/// One uncle, taken alone, passes every per-uncle step of the walk: its
/// height is below the block's, it is admissible, the chain can fork at
/// its parent, and the strategy's header rules accept it there.
pub open spec fn spec_uncle_step_ok(
    k: VerifierKind,
    r: ChainReader,
    u: BlockHeader,
    h: BlockHeader,
) -> bool {
    &&& u.number < h.number
    &&& spec_can_be_uncle(r, u)
    &&& spec_lookup_fork(r.forks@, u.parent_hash) is Some
    &&& spec_verify_header(k, spec_lookup_fork(r.forks@, u.parent_hash).unwrap(), u) is Ok
}

/// The uncle walk never succeeds on a list holding a duplicate id, or an
/// id already seen; and where every uncle passes its own steps, the walk
/// fails with the `Uncle` category.
proof fn lemma_uncles_iter_dup(
    k: VerifierKind,
    r: ChainReader,
    uncles: Seq<BlockHeader>,
    h: BlockHeader,
    seen: Seq<HashValue>,
)
    requires
        (exists|i: int, j: int| 0 <= i < j < uncles.len() && uncles[i].id == uncles[j].id) || (
        exists|i: int| 0 <= i < uncles.len() && spec_contains_hash(seen, uncles[i].id)),
    ensures
        !(spec_verify_uncles_iter(k, r, uncles, h, seen) is Ok),
        (forall|i: int| 0 <= i < uncles.len() ==> spec_uncle_step_ok(k, r, uncles[i], h))
            ==> spec_verify_uncles_iter(k, r, uncles, h, seen) matches Err(
            ConnectBlockError::VerifyBlockFailed(VerifyBlockField::Uncle, _),
        ),
    decreases uncles.len(),
{
    if uncles.len() == 0 {
        assert(false);
    } else {
        let u = uncles[0];
        if spec_contains_hash(seen, u.id) {
            // the walk stops at once with a repeated uncle
        } else {
            let fork = spec_lookup_fork(r.forks@, u.parent_hash);
            if u.number < h.number && spec_can_be_uncle(r, u) && fork is Some
                && spec_verify_header(k, fork.unwrap(), u) is Ok {
                let rest = uncles.drop_first();
                let seen2 = seen.push(u.id);
                // membership in `seen` survives the push
                assert(forall|x: HashValue|
                    spec_contains_hash(seen, x) ==> spec_contains_hash(seen2, x)) by {
                    assert forall|x: HashValue|
                        spec_contains_hash(seen, x) implies spec_contains_hash(seen2, x) by {
                        let w = choose|w: int| 0 <= w < seen.len() && seen[w] == x;
                        assert(seen2[w] == x);
                    }
                }
                // the duplicate or the seen id persists into the tail
                if exists|i: int, j: int|
                    0 <= i < j < uncles.len() && uncles[i].id == uncles[j].id {
                    let (i, j) = choose|i: int, j: int|
                        0 <= i < j < uncles.len() && uncles[i].id == uncles[j].id;
                    if i == 0 {
                        assert(spec_contains_hash(seen2, u.id)) by {
                            assert(seen2[seen.len() as int] == u.id);
                        }
                        assert(rest[j - 1].id == u.id);
                        assert(exists|m: int|
                            0 <= m < rest.len() && spec_contains_hash(seen2, rest[m].id)) by {
                            assert(spec_contains_hash(seen2, rest[j - 1].id));
                        }
                    } else {
                        assert(rest[i - 1].id == rest[j - 1].id);
                        assert(exists|p: int, q: int|
                            0 <= p < q < rest.len() && rest[p].id == rest[q].id) by {
                            assert(0 <= i - 1 < j - 1 < rest.len() && rest[i - 1].id == rest[j
                                - 1].id);
                        }
                    }
                } else {
                    let i = choose|i: int|
                        0 <= i < uncles.len() && spec_contains_hash(seen, uncles[i].id);
                    assert(i != 0);
                    assert(rest[i - 1].id == uncles[i].id);
                    assert(exists|m: int|
                        0 <= m < rest.len() && spec_contains_hash(seen2, rest[m].id)) by {
                        assert(spec_contains_hash(seen2, rest[i - 1].id));
                    }
                }
                lemma_uncles_iter_dup(k, r, rest, h, seen2);
                if forall|i: int| 0 <= i < uncles.len() ==> spec_uncle_step_ok(
                    k,
                    r,
                    uncles[i],
                    h,
                ) {
                    assert forall|i: int| 0 <= i < rest.len() implies spec_uncle_step_ok(
                        k,
                        r,
                        rest[i],
                        h,
                    ) by {
                        assert(rest[i] == uncles[i + 1]);
                        assert(spec_uncle_step_ok(k, r, uncles[i + 1], h));
                    }
                }
            } else {
                // the walk stops at this uncle; were every step claimed to
                // pass, this very uncle would contradict the claim
                if forall|i: int| 0 <= i < uncles.len() ==> spec_uncle_step_ok(
                    k,
                    r,
                    uncles[i],
                    h,
                ) {
                    assert(spec_uncle_step_ok(k, r, uncles[0], h));
                }
            }
        }
    }
}

/// A block carrying the same uncle id twice is never accepted by the
/// default uncle check.
pub proof fn lemma_duplicate_uncles_never_accepted(
    k: VerifierKind,
    r: ChainReader,
    uncles: Seq<BlockHeader>,
    h: BlockHeader,
)
    requires
        exists|i: int, j: int| 0 <= i < j < uncles.len() && uncles[i].id == uncles[j].id,
    ensures
        !(spec_verify_uncles(k, r, uncles, h) is Ok),
{
    let (i, j) = choose|i: int, j: int|
        0 <= i < j < uncles.len() && uncles[i].id == uncles[j].id;
    assert(uncles.len() >= 2);
    if !(h.number == r.view.epoch.end_block_number) && uncles.len()
        <= r.view.epoch.max_uncles_per_block {
        lemma_uncles_iter_dup(k, r, uncles, h, Seq::empty());
    }
}

/// A block carrying the same uncle id twice, all of whose uncles pass
/// their own per-uncle steps, is rejected by the default uncle check with
/// the `Uncle` category.
pub proof fn lemma_duplicate_uncles_rejected_as_uncle(
    k: VerifierKind,
    r: ChainReader,
    uncles: Seq<BlockHeader>,
    h: BlockHeader,
)
    requires
        exists|i: int, j: int| 0 <= i < j < uncles.len() && uncles[i].id == uncles[j].id,
        forall|i: int| 0 <= i < uncles.len() ==> spec_uncle_step_ok(k, r, uncles[i], h),
    ensures
        spec_verify_uncles(k, r, uncles, h) matches Err(
            ConnectBlockError::VerifyBlockFailed(VerifyBlockField::Uncle, _),
        ),
{
    let (i, j) = choose|i: int, j: int|
        0 <= i < j < uncles.len() && uncles[i].id == uncles[j].id;
    assert(uncles.len() >= 2);
    if !(h.number == r.view.epoch.end_block_number) && uncles.len()
        <= r.view.epoch.max_uncles_per_block {
        lemma_uncles_iter_dup(k, r, uncles, h, Seq::empty());
    }
}

/// A DAG block declaring no parents, declaring one twice, or not
/// declaring its selected parent, is rejected by the DAG header rules
/// with the `Header` category.
pub proof fn lemma_dag_rejects_bad_parents(v: ChainView, h: BlockHeader)
    requires
        spec_header_parents(h).len() == 0 || !spec_unique_hashes(spec_header_parents(h))
            || !spec_contains_hash(spec_header_parents(h), h.parent_hash),
    ensures
        spec_dag_verify_header(v, h) matches Err(
            ConnectBlockError::VerifyBlockFailed(VerifyBlockField::Header, _),
        ),
{
}

/// Parsing round-trips exactly the four documented lowercase tokens: each
/// strategy's token parses back to it, and whatever parses at all is one
/// of the four tokens.
pub proof fn lemma_parse_round_trip()
    ensures
        forall|v: Verifier| #![trigger spec_verifier_token(v)]
            spec_parse_verifier(spec_verifier_token(v)) == Option::Some(v),
        forall|s: Seq<char>| #![trigger spec_parse_verifier(s)]
            spec_parse_verifier(s) matches Some(v) ==> s == spec_verifier_token(v),
{
    reveal_strlit("basic");
    reveal_strlit("consensus");
    reveal_strlit("full");
    reveal_strlit("none");
    assert forall|v: Verifier| #![trigger spec_verifier_token(v)]
        spec_parse_verifier(spec_verifier_token(v)) == Option::Some(v) by {
        reveal_strlit("basic");
        reveal_strlit("consensus");
        reveal_strlit("full");
        reveal_strlit("none");
        assert("basic"@.len() == 5);
        assert("consensus"@.len() == 9);
        assert("full"@.len() == 4);
        assert("none"@.len() == 4);
        match v {
            Verifier::Basic => {},
            Verifier::Consensus => {
                assert("consensus"@ != "basic"@);
            },
            Verifier::Full => {
                assert("full"@ != "basic"@);
                assert("full"@ != "consensus"@);
            },
            Verifier::NoOp => {
                assert("none"@ != "basic"@);
                assert("none"@ != "consensus"@);
                assert("none"@ != "full"@) by {
                    assert("none"@[0] != "full"@[0]);
                }
            },
        }
    }
}

} // verus!
