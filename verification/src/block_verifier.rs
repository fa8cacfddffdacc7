//! The block verification strategies and their composition.
//!
//! A strategy is the triple (header check, body-hash check, uncle check);
//! `verify_block_with` composes them in fixed order for a chosen strategy.
//! The unit structs `BasicVerifier`, `ConsensusVerifier`, `FullVerifier`,
//! `NoneVerifier` and `DagVerifier` expose the strategies by name. Every
//! executable check is pinned to a specification function computing the
//! exact verdict, so a verdict is a function of the reader snapshot and the
//! candidate block alone.

use vstd::prelude::*;
use vstd::string::StrSliceExecFns;
use crate::address_filter::AddressFilter;
use crate::block::{
    Block, BlockHeader, HashValue, SignedUserTransaction, spec_body_hash, ALLOWED_FUTURE_BLOCKTIME,
};
use crate::chain::{
    spec_contains_hash, spec_get_block_info, spec_has_dag_block, spec_lookup_fork, contains_hash,
    ChainReader, ChainType, ChainView,
};
use crate::errors::{ConnectBlockError, VerifyBlockField, VerifyFailure};

verus! {

/// The selectable verification strategies, as configuration names them.
#[derive(Debug, Clone)]
pub enum Verifier {
    Basic,
    Consensus,
    Full,
    /// Selected by the token `"none"`: no verification at all.
    NoOp,
}

/// The token each strategy parses from.
pub open spec fn spec_verifier_token(v: Verifier) -> Seq<char> {
    match v {
        Verifier::Basic => "basic"@,
        Verifier::Consensus => "consensus"@,
        Verifier::Full => "full"@,
        Verifier::NoOp => "none"@,
    }
}

/// The strategy a token selects: exactly the four lowercase names, and
/// nothing else.
pub open spec fn spec_parse_verifier(s: Seq<char>) -> Option<Verifier> {
    if s == "basic"@ {
        Option::Some(Verifier::Basic)
    } else if s == "consensus"@ {
        Option::Some(Verifier::Consensus)
    } else if s == "full"@ {
        Option::Some(Verifier::Full)
    } else if s == "none"@ {
        Option::Some(Verifier::NoOp)
    } else {
        Option::None
    }
}

/// Whether two strings hold the same characters.
fn str_eq(a: &str, b: &str) -> (r: bool)
    ensures
        r == (a@ == b@),
{
    let an = a.unicode_len();
    let bn = b.unicode_len();
    if an != bn {
        return false;
    }
    let mut i: usize = 0;
    while i < an
        invariant
            an == a@.len(),
            bn == b@.len(),
            an == bn,
            i <= an,
            forall|j: int| 0 <= j < i ==> a@[j] == b@[j],
        decreases an - i,
    {
        if a.get_char(i) != b.get_char(i) {
            return false;
        }
        i += 1;
    }
    proof {
        assert(a@ =~= b@);
    }
    true
}

impl Verifier {
    /// The four tokens `parse` accepts, in a fixed order.
    pub fn variants() -> (r: [&'static str; 4])
        ensures
            r@.len() == 4,
            r@[0]@ == spec_verifier_token(Verifier::Basic),
            r@[1]@ == spec_verifier_token(Verifier::Consensus),
            r@[2]@ == spec_verifier_token(Verifier::Full),
            r@[3]@ == spec_verifier_token(Verifier::NoOp),
    {
        ["basic", "consensus", "full", "none"]
    }

    /// Select a strategy by its lowercase token; any other string is
    /// returned unrecognised.
    pub fn parse(s: &str) -> (r: Result<Verifier, String>)
        ensures
            spec_parse_verifier(s@) matches Some(v) ==> (r matches Ok(got) && got
                == v),
            spec_parse_verifier(s@) is None ==> (r matches Err(m) && m@ == s@),
    {
        if str_eq(s, "basic") {
            Result::Ok(Verifier::Basic)
        } else if str_eq(s, "consensus") {
            Result::Ok(Verifier::Consensus)
        } else if str_eq(s, "full") {
            Result::Ok(Verifier::Full)
        } else if str_eq(s, "none") {
            Result::Ok(Verifier::NoOp)
        } else {
            Result::Err(s.to_owned())
        }
    }
}

impl core::str::FromStr for Verifier {
    type Err = String;

    fn from_str(s: &str) -> Result<Verifier, String> {
        Verifier::parse(s)
    }
}

/// A block every applicable strategy accepted. Only the verifier
/// constructs one.
#[derive(Clone, Debug, PartialEq, Eq)]
pub struct VerifiedBlock {
    block: Block,
}

impl VerifiedBlock {
    /// The block this wrapper certifies.
    pub closed spec fn spec_block(self) -> Block {
        self.block
    }

    /// The block this wrapper certifies.
    pub fn block(&self) -> (r: &Block)
        ensures
            *r == self.spec_block(),
    {
        &self.block
    }

    /// Unwrap the certified block.
    pub fn into_inner(self) -> (r: Block)
        ensures
            r == self.spec_block(),
    {
        self.block
    }
}

/// The strategy tag the composed checks dispatch on. `NoneVerifier` needs
/// no tag: it overrides the whole composition.
#[derive(Clone, Copy, Debug, PartialEq, Eq, Structural)]
pub enum VerifierKind {
    Basic,
    Consensus,
    Full,
    Dag,
}

/// The parent ids a header declares; empty where it declares none.
pub open spec fn spec_header_parents(h: BlockHeader) -> Seq<HashValue> {
    match h.parents_hash {
        Option::None => Seq::empty(),
        Option::Some(v) => v@,
    }
}

/// Whether no hash occurs twice.
pub open spec fn spec_unique_hashes(s: Seq<HashValue>) -> bool {
    forall|i: int, j: int| 0 <= i < j < s.len() ==> s[i] != s[j]
}

/// The verdict of the body-hash check: the recomputed digest must equal
/// the header's commitment.
pub open spec fn spec_verify_body_hash(b: Block) -> Result<(), ConnectBlockError> {
    if spec_body_hash(b.body) != b.header.body_hash {
        Result::Err(
            ConnectBlockError::VerifyBlockFailed(
                VerifyBlockField::Body,
                VerifyFailure::BodyHashMismatch {
                    expect: b.header.body_hash,
                    got: spec_body_hash(b.body),
                },
            ),
        )
    } else {
        Result::Ok(())
    }
}

/// The verdict of the blacklist check: the first barred sender, in block
/// order, is reported.
pub open spec fn spec_verify_blacklisted(
    filter: AddressFilter,
    txns: Seq<SignedUserTransaction>,
    block_number: u64,
) -> Result<(), ConnectBlockError>
    decreases txns.len(),
{
    if txns.len() == 0 {
        Result::Ok(())
    } else if filter.spec_is_blacklisted(txns[0].sender, block_number) {
        Result::Err(
            ConnectBlockError::VerifyBlockFailed(
                VerifyBlockField::Body,
                VerifyFailure::BlacklistedSender { sender: txns[0].sender },
            ),
        )
    } else {
        spec_verify_blacklisted(filter, txns.drop_first(), block_number)
    }
}

/// The verdict of the structural and temporal header rules checked against
/// the parent chain head, in their fixed order.
pub open spec fn spec_basic_verify_header(v: ChainView, h: BlockHeader) -> Result<
    (),
    ConnectBlockError,
> {
    let current = v.status.head;
    let expect_number = current.number.saturating_add(1);
    if expect_number != h.number {
        Result::Err(
            ConnectBlockError::VerifyBlockFailed(
                VerifyBlockField::Header,
                VerifyFailure::UnexpectedNumber { expect: expect_number, got: h.number },
            ),
        )
    } else if current.id != h.parent_hash {
        Result::Err(
            ConnectBlockError::VerifyBlockFailed(
                VerifyBlockField::Header,
                VerifyFailure::ParentIdMismatch {
                    expect: current.id,
                    got: h.parent_hash,
                    number: h.number,
                },
            ),
        )
    } else if !(h.timestamp > current.timestamp) {
        Result::Err(
            ConnectBlockError::VerifyBlockFailed(
                VerifyBlockField::Header,
                VerifyFailure::TimestampTooOld {
                    parent_time: current.timestamp,
                    block_time: h.timestamp,
                    number: h.number,
                },
            ),
        )
    } else if !(h.timestamp <= ALLOWED_FUTURE_BLOCKTIME.saturating_add(v.now_millis)) {
        Result::Err(
            ConnectBlockError::VerifyBlockFailed(
                VerifyBlockField::Header,
                VerifyFailure::TimestampTooNew { now: v.now_millis, block_time: h.timestamp },
            ),
        )
    } else if !(h.number > v.epoch.start_block_number && h.number <= v.epoch.end_block_number) {
        Result::Err(
            ConnectBlockError::VerifyBlockFailed(
                VerifyBlockField::Header,
                VerifyFailure::OutsideEpochWindow {
                    number: h.number,
                    epoch_start: v.epoch.start_block_number,
                    epoch_end: v.epoch.end_block_number,
                },
            ),
        )
    } else if !(h.gas_used <= v.epoch.block_gas_limit) {
        Result::Err(
            ConnectBlockError::VerifyBlockFailed(
                VerifyBlockField::Header,
                VerifyFailure::GasUsedExceedsLimit {
                    gas_used: h.gas_used,
                    limit: v.epoch.block_gas_limit,
                },
            ),
        )
    } else {
        match spec_get_block_info(v, Option::Some(current.id)) {
            Option::None => Result::Err(ConnectBlockError::BlockInfoMissing { id: current.id }),
            Option::Some(info) => {
                if info.block_accumulator_info.accumulator_root != h.block_accumulator_root {
                    Result::Err(
                        ConnectBlockError::VerifyBlockFailed(
                            VerifyBlockField::Header,
                            VerifyFailure::AccumulatorRootMismatch {
                                expect: info.block_accumulator_info.accumulator_root,
                                got: h.block_accumulator_root,
                            },
                        ),
                    )
                } else if !(v.chain_type == ChainType::Single && spec_header_parents(h).len()
                    == 0) {
                    Result::Err(
                        ConnectBlockError::VerifyBlockFailed(
                            VerifyBlockField::Header,
                            VerifyFailure::NotSingleChainShape { number: h.number },
                        ),
                    )
                } else {
                    Result::Ok(())
                }
            },
        }
    }
}

/// The verdict of the consensus delegation: the strategy's recorded
/// verdict, a rejection wrapped as a `Consensus` failure, or its failure
/// to answer passed through.
pub open spec fn spec_consensus_verify_header(v: ChainView, h: BlockHeader) -> Result<
    (),
    ConnectBlockError,
> {
    match crate::chain::spec_consensus_outcome(v.consensus@, h.id) {
        crate::chain::ConsensusOutcome::Valid => Result::Ok(()),
        crate::chain::ConsensusOutcome::Invalid => Result::Err(
            ConnectBlockError::VerifyBlockFailed(
                VerifyBlockField::Consensus,
                VerifyFailure::ConsensusVerifyFailed { block_id: h.id },
            ),
        ),
        crate::chain::ConsensusOutcome::Unavailable => Result::Err(
            ConnectBlockError::ConsensusStateUnavailable { block_id: h.id },
        ),
    }
}

/// The verdict of the full strategy: the basic rules, then consensus.
pub open spec fn spec_full_verify_header(v: ChainView, h: BlockHeader) -> Result<
    (),
    ConnectBlockError,
> {
    match spec_basic_verify_header(v, h) {
        Result::Err(e) => Result::Err(e),
        Result::Ok(()) => spec_consensus_verify_header(v, h),
    }
}

/// The verdict of checking each declared DAG parent against the store, in
/// declaration order: a failed query is wrapped as a `Header` failure, a
/// missing parent rejects the block.
pub open spec fn spec_dag_parents_check(
    v: ChainView,
    block_id: HashValue,
    parents: Seq<HashValue>,
) -> Result<(), ConnectBlockError>
    decreases parents.len(),
{
    if parents.len() == 0 {
        Result::Ok(())
    } else {
        match spec_has_dag_block(v, parents[0]) {
            Result::Err(()) => Result::Err(
                ConnectBlockError::VerifyBlockFailed(
                    VerifyBlockField::Header,
                    VerifyFailure::DagParentQueryFailed { block_id, parent: parents[0] },
                ),
            ),
            Result::Ok(present) => {
                if !present {
                    Result::Err(
                        ConnectBlockError::VerifyBlockFailed(
                            VerifyBlockField::Header,
                            VerifyFailure::DagParentMissing { parent: parents[0] },
                        ),
                    )
                } else {
                    spec_dag_parents_check(v, block_id, parents.drop_first())
                }
            },
        }
    }
}

/// The verdict of the DAG header rules: a non-empty duplicate-free parent
/// list that contains the selected parent, a recorded info for the
/// selected parent, every declared parent known to the DAG store, then
/// consensus.
pub open spec fn spec_dag_verify_header(v: ChainView, h: BlockHeader) -> Result<
    (),
    ConnectBlockError,
> {
    let parents = spec_header_parents(h);
    if !(parents.len() > 0 && spec_unique_hashes(parents)) {
        Result::Err(
            ConnectBlockError::VerifyBlockFailed(
                VerifyBlockField::Header,
                VerifyFailure::InvalidParentsHash { number: h.number },
            ),
        )
    } else if !(spec_contains_hash(parents, h.parent_hash) && spec_get_block_info(
        v,
        Option::Some(h.parent_hash),
    ) is Some) {
        Result::Err(
            ConnectBlockError::VerifyBlockFailed(
                VerifyBlockField::Header,
                VerifyFailure::DagParentMissing { parent: h.parent_hash },
            ),
        )
    } else {
        match spec_dag_parents_check(v, h.id, parents) {
            Result::Err(e) => Result::Err(e),
            Result::Ok(()) => spec_consensus_verify_header(v, h),
        }
    }
}

/// The header verdict of each strategy.
pub open spec fn spec_verify_header(k: VerifierKind, v: ChainView, h: BlockHeader) -> Result<
    (),
    ConnectBlockError,
> {
    match k {
        VerifierKind::Basic => spec_basic_verify_header(v, h),
        VerifierKind::Consensus => spec_consensus_verify_header(v, h),
        VerifierKind::Full => spec_full_verify_header(v, h),
        VerifierKind::Dag => spec_dag_verify_header(v, h),
    }
}

/// Uncle admissibility: inside the epoch window, parent on the chain, not
/// itself on the chain, not already recorded, and not above the head.
pub open spec fn spec_can_be_uncle(r: ChainReader, u: BlockHeader) -> bool {
    &&& r.view.epoch.start_block_number <= u.number
    &&& r.view.epoch.end_block_number > u.number
    &&& spec_contains_hash(r.blocks@, u.parent_hash)
    &&& !spec_contains_hash(r.blocks@, u.id)
    &&& !spec_contains_hash(r.epoch_uncles@, u.id)
    &&& u.number <= r.view.status.head.number
}

/// The verdict of walking the uncle list in order with the set of ids seen
/// so far: duplicates, height, admissibility, then the strategy's own
/// header rules against the view forked at the uncle's parent.
pub open spec fn spec_verify_uncles_iter(
    k: VerifierKind,
    r: ChainReader,
    uncles: Seq<BlockHeader>,
    h: BlockHeader,
    seen: Seq<HashValue>,
) -> Result<(), ConnectBlockError>
    decreases uncles.len(),
{
    if uncles.len() == 0 {
        Result::Ok(())
    } else {
        let u = uncles[0];
        if spec_contains_hash(seen, u.id) {
            Result::Err(
                ConnectBlockError::VerifyBlockFailed(
                    VerifyBlockField::Uncle,
                    VerifyFailure::RepeatedUncle { uncle_id: u.id, block_id: h.id },
                ),
            )
        } else if !(u.number < h.number) {
            Result::Err(
                ConnectBlockError::VerifyBlockFailed(
                    VerifyBlockField::Uncle,
                    VerifyFailure::UncleNumberTooBig {
                        uncle_number: u.number,
                        block_number: h.number,
                    },
                ),
            )
        } else if !spec_can_be_uncle(r, u) {
            Result::Err(
                ConnectBlockError::VerifyBlockFailed(
                    VerifyBlockField::Uncle,
                    VerifyFailure::CannotBeUncle { uncle_id: u.id },
                ),
            )
        } else {
            match spec_lookup_fork(r.forks@, u.parent_hash) {
                Option::None => Result::Err(
                    ConnectBlockError::ForkFailed { root: u.parent_hash },
                ),
                Option::Some(fork_view) => match spec_verify_header(k, fork_view, u) {
                    Result::Err(e) => Result::Err(e),
                    Result::Ok(()) => spec_verify_uncles_iter(
                        k,
                        r,
                        uncles.drop_first(),
                        h,
                        seen.push(u.id),
                    ),
                },
            }
        }
    }
}

/// The verdict of the default uncle check: no uncles on the
/// epoch-terminating block, an empty list passes, the epoch's cap holds,
/// then the walk over the list.
pub open spec fn spec_verify_uncles(
    k: VerifierKind,
    r: ChainReader,
    uncles: Seq<BlockHeader>,
    h: BlockHeader,
) -> Result<(), ConnectBlockError> {
    if h.number == r.view.epoch.end_block_number && uncles.len() > 0 {
        Result::Err(
            ConnectBlockError::VerifyBlockFailed(
                VerifyBlockField::Uncle,
                VerifyFailure::UnclesAtEpochBoundary,
            ),
        )
    } else if uncles.len() == 0 {
        Result::Ok(())
    } else if !(uncles.len() <= r.view.epoch.max_uncles_per_block) {
        Result::Err(
            ConnectBlockError::VerifyBlockFailed(
                VerifyBlockField::Uncle,
                VerifyFailure::TooManyUncles { count: uncles.len() as u64, block_id: h.id },
            ),
        )
    } else {
        spec_verify_uncles_iter(k, r, uncles, h, Seq::empty())
    }
}

/// The uncles a block carries; empty where it carries none.
pub open spec fn spec_uncles_of(b: Block) -> Seq<BlockHeader> {
    match b.body.uncles {
        Option::None => Seq::empty(),
        Option::Some(u) => u@,
    }
}

/// The uncle verdict of each strategy: the DAG strategy checks nothing.
pub open spec fn spec_verify_uncles_of_kind(
    k: VerifierKind,
    r: ChainReader,
    uncles: Seq<BlockHeader>,
    h: BlockHeader,
) -> Result<(), ConnectBlockError> {
    match k {
        VerifierKind::Dag => Result::Ok(()),
        _ => spec_verify_uncles(k, r, uncles, h),
    }
}

/// The verdict of the whole composition: blacklist, header, body hash,
/// uncles, in that order, stopping at the first failure.
pub open spec fn spec_verify_block(k: VerifierKind, r: ChainReader, b: Block) -> Result<
    (),
    ConnectBlockError,
> {
    match spec_verify_blacklisted(r.address_filter, b.body.transactions@, b.header.number) {
        Result::Err(e) => Result::Err(e),
        Result::Ok(()) => match spec_verify_header(k, r.view, b.header) {
            Result::Err(e) => Result::Err(e),
            Result::Ok(()) => match spec_verify_body_hash(b) {
                Result::Err(e) => Result::Err(e),
                Result::Ok(()) => spec_verify_uncles_of_kind(k, r, spec_uncles_of(b), b.header),
            },
        },
    }
}

/// The structural check needing no chain context: the body must hash to
/// the header's commitment.
pub struct StaticVerifier;

impl StaticVerifier {
    pub fn verify_body_hash(block: &Block) -> (r: Result<(), ConnectBlockError>)
        ensures
            r == spec_verify_body_hash(*block),
    {
        let body_hash = block.body.hash();
        if body_hash == block.header.body_hash {
            Result::Ok(())
        } else {
            Result::Err(
                ConnectBlockError::VerifyBlockFailed(
                    VerifyBlockField::Body,
                    VerifyFailure::BodyHashMismatch {
                        expect: block.header.body_hash,
                        got: body_hash,
                    },
                ),
            )
        }
    }
}

/// Reject the block if any transaction's sender is blacklisted at the
/// block's height.
pub fn verify_blacklisted_txns(current_chain: &ChainReader, new_block: &Block) -> (r: Result<
    (),
    ConnectBlockError,
>)
    ensures
        r == spec_verify_blacklisted(
            current_chain.address_filter,
            new_block.body.transactions@,
            new_block.header.number,
        ),
{
    let block_number = new_block.header.number;
    let txns = &new_block.body.transactions;
    let mut i: usize = 0;
    proof {
        assert(txns@.skip(0) =~= txns@);
    }
    while i < txns.len()
        invariant
            i <= txns@.len(),
            block_number == new_block.header.number,
            txns@ == new_block.body.transactions@,
            spec_verify_blacklisted(current_chain.address_filter, txns@.skip(i as int), block_number)
                == spec_verify_blacklisted(current_chain.address_filter, txns@, block_number),
        decreases txns@.len() - i,
    {
        let txn = &txns[i];
        if current_chain.address_filter.is_blacklisted(txn, block_number) {
            proof {
                assert(txns@.skip(i as int)[0] == txns@[i as int]);
            }
            return Result::Err(
                ConnectBlockError::VerifyBlockFailed(
                    VerifyBlockField::Body,
                    VerifyFailure::BlacklistedSender { sender: txn.sender },
                ),
            );
        }
        proof {
            assert(txns@.skip(i as int)[0] == txns@[i as int]);
            assert(txns@.skip(i as int).drop_first() =~= txns@.skip(i + 1));
        }
        i += 1;
    }
    proof {
        assert(txns@.skip(txns@.len() as int) =~= Seq::<SignedUserTransaction>::empty());
    }
    Result::Ok(())
}

/// Whether no hash occurs twice: executable form.
fn unique_hashes(v: &Vec<HashValue>) -> (r: bool)
    ensures
        r == spec_unique_hashes(v@),
{
    let mut i: usize = 0;
    while i < v.len()
        invariant
            i <= v@.len(),
            forall|p: int, q: int| 0 <= p < q < i ==> v@[p] != v@[q],
        decreases v@.len() - i,
    {
        let mut j: usize = 0;
        while j < i
            invariant
                j <= i < v@.len(),
                forall|p: int, q: int| 0 <= p < q < i ==> v@[p] != v@[q],
                forall|p: int| 0 <= p < j ==> v@[p] != v@[i as int],
            decreases i - j,
        {
            if v[j] == v[i] {
                return false;
            }
            j += 1;
        }
        i += 1;
    }
    true
}

/// Uncle admissibility against the current chain.
pub fn can_be_uncle(current_chain: &ChainReader, block_header: &BlockHeader) -> (r: bool)
    ensures
        r == spec_can_be_uncle(*current_chain, *block_header),
{
    let epoch_start = current_chain.view.epoch.start_block_number;
    let epoch_end = current_chain.view.epoch.end_block_number;
    epoch_start <= block_header.number && epoch_end > block_header.number
        && current_chain.exist_block(block_header.parent_hash) && !current_chain.exist_block(
        block_header.id,
    ) && !contains_hash(&current_chain.epoch_uncles, block_header.id) && block_header.number
        <= current_chain.view.status.head.number
}

/// The header check of the chosen strategy.
pub fn verify_header_with(k: VerifierKind, current_chain: &ChainView, h: &BlockHeader) -> (r:
    Result<(), ConnectBlockError>)
    ensures
        r == spec_verify_header(k, *current_chain, *h),
{
    match k {
        VerifierKind::Basic => BasicVerifier::verify_header(current_chain, h),
        VerifierKind::Consensus => ConsensusVerifier::verify_header(current_chain, h),
        VerifierKind::Full => FullVerifier::verify_header(current_chain, h),
        VerifierKind::Dag => DagVerifier::verify_header(current_chain, h),
    }
}

/// The default uncle check, walking the list with the chosen strategy's
/// header rules.
pub fn verify_uncles_with(
    k: VerifierKind,
    current_chain: &ChainReader,
    uncles: &Vec<BlockHeader>,
    header: &BlockHeader,
) -> (r: Result<(), ConnectBlockError>)
    ensures
        r == spec_verify_uncles(k, *current_chain, uncles@, *header),
{
    let epoch = current_chain.epoch();
    let switch_epoch = header.number == epoch.end_block_number;
    if switch_epoch && uncles.len() > 0 {
        return Result::Err(
            ConnectBlockError::VerifyBlockFailed(
                VerifyBlockField::Uncle,
                VerifyFailure::UnclesAtEpochBoundary,
            ),
        );
    }
    if uncles.len() == 0 {
        return Result::Ok(());
    }
    if !(uncles.len() as u64 <= epoch.max_uncles_per_block) {
        return Result::Err(
            ConnectBlockError::VerifyBlockFailed(
                VerifyBlockField::Uncle,
                VerifyFailure::TooManyUncles { count: uncles.len() as u64, block_id: header.id },
            ),
        );
    }
    let mut uncle_ids: Vec<HashValue> = Vec::new();
    let mut i: usize = 0;
    proof {
        assert(uncles@.skip(0) =~= uncles@);
    }
    while i < uncles.len()
        invariant
            i <= uncles@.len(),
            uncles@.len() > 0,
            !(header.number == current_chain.view.epoch.end_block_number),
            uncles@.len() <= current_chain.view.epoch.max_uncles_per_block,
            uncle_ids@.len() == i,
            forall|j: int| 0 <= j < i ==> uncle_ids@[j] == uncles@[j].id,
            spec_verify_uncles_iter(k, *current_chain, uncles@.skip(i as int), *header, uncle_ids@)
                == spec_verify_uncles_iter(k, *current_chain, uncles@, *header, Seq::empty()),
        decreases uncles@.len() - i,
    {
        let uncle = &uncles[i];
        let uncle_id = uncle.id;
        proof {
            assert(uncles@.skip(i as int)[0] == uncles@[i as int]);
        }
        if contains_hash(&uncle_ids, uncle_id) {
            return Result::Err(
                ConnectBlockError::VerifyBlockFailed(
                    VerifyBlockField::Uncle,
                    VerifyFailure::RepeatedUncle { uncle_id, block_id: header.id },
                ),
            );
        }
        if !(uncle.number < header.number) {
            return Result::Err(
                ConnectBlockError::VerifyBlockFailed(
                    VerifyBlockField::Uncle,
                    VerifyFailure::UncleNumberTooBig {
                        uncle_number: uncle.number,
                        block_number: header.number,
                    },
                ),
            );
        }
        if !can_be_uncle(current_chain, uncle) {
            return Result::Err(
                ConnectBlockError::VerifyBlockFailed(
                    VerifyBlockField::Uncle,
                    VerifyFailure::CannotBeUncle { uncle_id },
                ),
            );
        }
        match current_chain.fork(uncle.parent_hash) {
            Option::None => {
                return Result::Err(ConnectBlockError::ForkFailed { root: uncle.parent_hash });
            },
            Option::Some(uncle_branch) => {
                match verify_header_with(k, uncle_branch, uncle) {
                    Result::Err(e) => {
                        return Result::Err(e);
                    },
                    Result::Ok(()) => {},
                }
            },
        }
        uncle_ids.push(uncle_id);
        proof {
            assert(uncles@.skip(i as int).drop_first() =~= uncles@.skip(i + 1));
        }
        i += 1;
    }
    proof {
        assert(uncles@.skip(uncles@.len() as int) =~= Seq::<BlockHeader>::empty());
    }
    Result::Ok(())
}

/// The fixed composition every strategy but `NoneVerifier` runs:
/// blacklist, header, body hash, uncles; the first failure wins.
pub fn verify_block_with(k: VerifierKind, current_chain: &ChainReader, new_block: Block) -> (r:
    Result<VerifiedBlock, ConnectBlockError>)
    ensures
        spec_verify_block(k, *current_chain, new_block) is Ok ==> (r matches Ok(vb)
            && vb.spec_block() == new_block),
        spec_verify_block(k, *current_chain, new_block) matches Err(e) ==> r == Result::Err::<
            VerifiedBlock,
            ConnectBlockError,
        >(e),
{
    match verify_blacklisted_txns(current_chain, &new_block) {
        Result::Err(e) => {
            return Result::Err(e);
        },
        Result::Ok(()) => {},
    }
    match verify_header_with(k, &current_chain.view, &new_block.header) {
        Result::Err(e) => {
            return Result::Err(e);
        },
        Result::Ok(()) => {},
    }
    match StaticVerifier::verify_body_hash(&new_block) {
        Result::Err(e) => {
            return Result::Err(e);
        },
        Result::Ok(()) => {},
    }
    match k {
        VerifierKind::Dag => {},
        _ => {
            match &new_block.body.uncles {
                Option::None => {
                    proof {
                        assert(spec_uncles_of(new_block) =~= Seq::<BlockHeader>::empty());
                    }
                },
                Option::Some(u) => {
                    match verify_uncles_with(k, current_chain, u, &new_block.header) {
                        Result::Err(e) => {
                            return Result::Err(e);
                        },
                        Result::Ok(()) => {},
                    }
                },
            }
        },
    }
    Result::Ok(VerifiedBlock { block: new_block })
}

/// The structural strategy: temporal and linkage rules against the chain
/// head, no consensus.
pub struct BasicVerifier;

impl BasicVerifier {
    pub fn verify_header(current_chain: &ChainView, new_block_header: &BlockHeader) -> (r: Result<
        (),
        ConnectBlockError,
    >)
        ensures
            r == spec_basic_verify_header(*current_chain, *new_block_header),
    {
        let current = &current_chain.status.head;
        let current_id = current.id;
        let expect_number = current.number.saturating_add(1);
        if expect_number != new_block_header.number {
            return Result::Err(
                ConnectBlockError::VerifyBlockFailed(
                    VerifyBlockField::Header,
                    VerifyFailure::UnexpectedNumber {
                        expect: expect_number,
                        got: new_block_header.number,
                    },
                ),
            );
        }
        if current_id != new_block_header.parent_hash {
            return Result::Err(
                ConnectBlockError::VerifyBlockFailed(
                    VerifyBlockField::Header,
                    VerifyFailure::ParentIdMismatch {
                        expect: current_id,
                        got: new_block_header.parent_hash,
                        number: new_block_header.number,
                    },
                ),
            );
        }
        if !(new_block_header.timestamp > current.timestamp) {
            return Result::Err(
                ConnectBlockError::VerifyBlockFailed(
                    VerifyBlockField::Header,
                    VerifyFailure::TimestampTooOld {
                        parent_time: current.timestamp,
                        block_time: new_block_header.timestamp,
                        number: new_block_header.number,
                    },
                ),
            );
        }
        let now = current_chain.now_millis;
        if !(new_block_header.timestamp <= ALLOWED_FUTURE_BLOCKTIME.saturating_add(now)) {
            return Result::Err(
                ConnectBlockError::VerifyBlockFailed(
                    VerifyBlockField::Header,
                    VerifyFailure::TimestampTooNew {
                        now,
                        block_time: new_block_header.timestamp,
                    },
                ),
            );
        }
        let epoch_start = current_chain.epoch.start_block_number;
        let epoch_end = current_chain.epoch.end_block_number;
        if !(new_block_header.number > epoch_start && new_block_header.number <= epoch_end) {
            return Result::Err(
                ConnectBlockError::VerifyBlockFailed(
                    VerifyBlockField::Header,
                    VerifyFailure::OutsideEpochWindow {
                        number: new_block_header.number,
                        epoch_start,
                        epoch_end,
                    },
                ),
            );
        }
        let block_gas_limit = current_chain.epoch.block_gas_limit;
        if !(new_block_header.gas_used <= block_gas_limit) {
            return Result::Err(
                ConnectBlockError::VerifyBlockFailed(
                    VerifyBlockField::Header,
                    VerifyFailure::GasUsedExceedsLimit {
                        gas_used: new_block_header.gas_used,
                        limit: block_gas_limit,
                    },
                ),
            );
        }
        match current_chain.get_block_info(Option::Some(current_id)) {
            Option::None => {
                return Result::Err(ConnectBlockError::BlockInfoMissing { id: current_id });
            },
            Option::Some(current_block_info) => {
                let recorded_root = current_block_info.block_accumulator_info.accumulator_root;
                if recorded_root != new_block_header.block_accumulator_root {
                    return Result::Err(
                        ConnectBlockError::VerifyBlockFailed(
                            VerifyBlockField::Header,
                            VerifyFailure::AccumulatorRootMismatch {
                                expect: recorded_root,
                                got: new_block_header.block_accumulator_root,
                            },
                        ),
                    );
                }
            },
        }
        let parents_empty = match &new_block_header.parents_hash {
            Option::None => true,
            Option::Some(p) => p.len() == 0,
        };
        let single = match current_chain.chain_type {
            ChainType::Single => true,
            ChainType::Dag => false,
        };
        if !(single && parents_empty) {
            return Result::Err(
                ConnectBlockError::VerifyBlockFailed(
                    VerifyBlockField::Header,
                    VerifyFailure::NotSingleChainShape { number: new_block_header.number },
                ),
            );
        }
        Result::Ok(())
    }

    pub fn verify_block(current_chain: &ChainReader, new_block: Block) -> (r: Result<
        VerifiedBlock,
        ConnectBlockError,
    >)
        ensures
            spec_verify_block(VerifierKind::Basic, *current_chain, new_block) is Ok ==> (r
                matches Ok(vb) && vb.spec_block() == new_block),
            spec_verify_block(VerifierKind::Basic, *current_chain, new_block) matches Err(e) ==> r
                == Result::Err::<VerifiedBlock, ConnectBlockError>(e),
    {
        verify_block_with(VerifierKind::Basic, current_chain, new_block)
    }

    pub fn verify_uncles(
        current_chain: &ChainReader,
        uncles: &Vec<BlockHeader>,
        header: &BlockHeader,
    ) -> (r: Result<(), ConnectBlockError>)
        ensures
            r == spec_verify_uncles(VerifierKind::Basic, *current_chain, uncles@, *header),
    {
        verify_uncles_with(VerifierKind::Basic, current_chain, uncles, header)
    }
}

/// The delegating strategy: the epoch's proof-of-work rules alone.
pub struct ConsensusVerifier;

impl ConsensusVerifier {
    pub fn verify_header(current_chain: &ChainView, new_block_header: &BlockHeader) -> (r: Result<
        (),
        ConnectBlockError,
    >)
        ensures
            r == spec_consensus_verify_header(*current_chain, *new_block_header),
    {
        match current_chain.consensus_outcome(new_block_header.id) {
            crate::chain::ConsensusOutcome::Valid => Result::Ok(()),
            crate::chain::ConsensusOutcome::Invalid => Result::Err(
                ConnectBlockError::VerifyBlockFailed(
                    VerifyBlockField::Consensus,
                    VerifyFailure::ConsensusVerifyFailed { block_id: new_block_header.id },
                ),
            ),
            crate::chain::ConsensusOutcome::Unavailable => Result::Err(
                ConnectBlockError::ConsensusStateUnavailable { block_id: new_block_header.id },
            ),
        }
    }

    pub fn verify_block(current_chain: &ChainReader, new_block: Block) -> (r: Result<
        VerifiedBlock,
        ConnectBlockError,
    >)
        ensures
            spec_verify_block(VerifierKind::Consensus, *current_chain, new_block) is Ok ==> (r
                matches Ok(vb) && vb.spec_block() == new_block),
            spec_verify_block(VerifierKind::Consensus, *current_chain, new_block) matches Err(e)
                ==> r == Result::Err::<VerifiedBlock, ConnectBlockError>(e),
    {
        verify_block_with(VerifierKind::Consensus, current_chain, new_block)
    }

    pub fn verify_uncles(
        current_chain: &ChainReader,
        uncles: &Vec<BlockHeader>,
        header: &BlockHeader,
    ) -> (r: Result<(), ConnectBlockError>)
        ensures
            r == spec_verify_uncles(VerifierKind::Consensus, *current_chain, uncles@, *header),
    {
        verify_uncles_with(VerifierKind::Consensus, current_chain, uncles, header)
    }
}

/// The combined strategy: the basic rules, then consensus.
pub struct FullVerifier;

impl FullVerifier {
    pub fn verify_header(current_chain: &ChainView, new_block_header: &BlockHeader) -> (r: Result<
        (),
        ConnectBlockError,
    >)
        ensures
            r == spec_full_verify_header(*current_chain, *new_block_header),
    {
        match BasicVerifier::verify_header(current_chain, new_block_header) {
            Result::Err(e) => Result::Err(e),
            Result::Ok(()) => ConsensusVerifier::verify_header(current_chain, new_block_header),
        }
    }

    pub fn verify_block(current_chain: &ChainReader, new_block: Block) -> (r: Result<
        VerifiedBlock,
        ConnectBlockError,
    >)
        ensures
            spec_verify_block(VerifierKind::Full, *current_chain, new_block) is Ok ==> (r
                matches Ok(vb) && vb.spec_block() == new_block),
            spec_verify_block(VerifierKind::Full, *current_chain, new_block) matches Err(e) ==> r
                == Result::Err::<VerifiedBlock, ConnectBlockError>(e),
    {
        verify_block_with(VerifierKind::Full, current_chain, new_block)
    }

    pub fn verify_uncles(
        current_chain: &ChainReader,
        uncles: &Vec<BlockHeader>,
        header: &BlockHeader,
    ) -> (r: Result<(), ConnectBlockError>)
        ensures
            r == spec_verify_uncles(VerifierKind::Full, *current_chain, uncles@, *header),
    {
        verify_uncles_with(VerifierKind::Full, current_chain, uncles, header)
    }
}

/// The pass-through strategy: every operation succeeds. Reserved for test
/// fixtures and bootstrap flows.
pub struct NoneVerifier;

impl NoneVerifier {
    pub fn verify_header(_current_chain: &ChainView, _new_block_header: &BlockHeader) -> (r:
        Result<(), ConnectBlockError>)
        ensures
            r is Ok,
    {
        Result::Ok(())
    }

    pub fn verify_block(_current_chain: &ChainReader, new_block: Block) -> (r: Result<
        VerifiedBlock,
        ConnectBlockError,
    >)
        ensures
            r matches Ok(vb) && vb.spec_block() == new_block,
    {
        Result::Ok(VerifiedBlock { block: new_block })
    }

    pub fn verify_uncles(
        _current_chain: &ChainReader,
        _uncles: &Vec<BlockHeader>,
        _header: &BlockHeader,
    ) -> (r: Result<(), ConnectBlockError>)
        ensures
            r is Ok,
    {
        Result::Ok(())
    }
}

/// The multi-parent strategy: DAG parent rules, then consensus; uncles are
/// not checked in the current protocol.
pub struct DagVerifier;

impl DagVerifier {
    pub fn verify_header(current_chain: &ChainView, new_block_header: &BlockHeader) -> (r: Result<
        (),
        ConnectBlockError,
    >)
        ensures
            r == spec_dag_verify_header(*current_chain, *new_block_header),
    {
        match &new_block_header.parents_hash {
            Option::None => {
                return Result::Err(
                    ConnectBlockError::VerifyBlockFailed(
                        VerifyBlockField::Header,
                        VerifyFailure::InvalidParentsHash { number: new_block_header.number },
                    ),
                );
            },
            Option::Some(parents_hash) => {
                if parents_hash.len() == 0 || !unique_hashes(parents_hash) {
                    return Result::Err(
                        ConnectBlockError::VerifyBlockFailed(
                            VerifyBlockField::Header,
                            VerifyFailure::InvalidParentsHash { number: new_block_header.number },
                        ),
                    );
                }
                let selected_parent = new_block_header.parent_hash;
                let mut parent_known = contains_hash(parents_hash, selected_parent);
                if parent_known {
                    parent_known = match current_chain.get_block_info(
                        Option::Some(selected_parent),
                    ) {
                        Option::Some(_) => true,
                        Option::None => false,
                    };
                }
                if !parent_known {
                    return Result::Err(
                        ConnectBlockError::VerifyBlockFailed(
                            VerifyBlockField::Header,
                            VerifyFailure::DagParentMissing { parent: selected_parent },
                        ),
                    );
                }
                let mut i: usize = 0;
                proof {
                    assert(parents_hash@.skip(0) =~= parents_hash@);
                }
                while i < parents_hash.len()
                    invariant
                        i <= parents_hash@.len(),
                        spec_header_parents(*new_block_header) == parents_hash@,
                        parents_hash@.len() > 0,
                        spec_unique_hashes(parents_hash@),
                        spec_contains_hash(parents_hash@, new_block_header.parent_hash),
                        spec_get_block_info(
                            *current_chain,
                            Option::Some(new_block_header.parent_hash),
                        ) is Some,
                        spec_dag_parents_check(
                            *current_chain,
                            new_block_header.id,
                            parents_hash@.skip(i as int),
                        ) == spec_dag_parents_check(
                            *current_chain,
                            new_block_header.id,
                            parents_hash@,
                        ),
                    decreases parents_hash@.len() - i,
                {
                    proof {
                        assert(parents_hash@.skip(i as int)[0] == parents_hash@[i as int]);
                    }
                    let parent = parents_hash[i];
                    match current_chain.has_dag_block(parent) {
                        Result::Err(()) => {
                            return Result::Err(
                                ConnectBlockError::VerifyBlockFailed(
                                    VerifyBlockField::Header,
                                    VerifyFailure::DagParentQueryFailed {
                                        block_id: new_block_header.id,
                                        parent,
                                    },
                                ),
                            );
                        },
                        Result::Ok(present) => {
                            if !present {
                                return Result::Err(
                                    ConnectBlockError::VerifyBlockFailed(
                                        VerifyBlockField::Header,
                                        VerifyFailure::DagParentMissing { parent },
                                    ),
                                );
                            }
                        },
                    }
                    proof {
                        assert(parents_hash@.skip(i as int).drop_first() =~= parents_hash@.skip(
                            i + 1,
                        ));
                    }
                    i += 1;
                }
                proof {
                    assert(parents_hash@.skip(parents_hash@.len() as int) =~= Seq::<
                        HashValue,
                    >::empty());
                }
                ConsensusVerifier::verify_header(current_chain, new_block_header)
            },
        }
    }

    pub fn verify_block(current_chain: &ChainReader, new_block: Block) -> (r: Result<
        VerifiedBlock,
        ConnectBlockError,
    >)
        ensures
            spec_verify_block(VerifierKind::Dag, *current_chain, new_block) is Ok ==> (r
                matches Ok(vb) && vb.spec_block() == new_block),
            spec_verify_block(VerifierKind::Dag, *current_chain, new_block) matches Err(e) ==> r
                == Result::Err::<VerifiedBlock, ConnectBlockError>(e),
    {
        verify_block_with(VerifierKind::Dag, current_chain, new_block)
    }

    /// DAG uncles are not validated in the current protocol.
    pub fn verify_uncles(
        _current_chain: &ChainReader,
        _uncles: &Vec<BlockHeader>,
        _header: &BlockHeader,
    ) -> (r: Result<(), ConnectBlockError>)
        ensures
            r is Ok,
    {
        Result::Ok(())
    }
}

} // verus!
