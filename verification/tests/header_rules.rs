use chain_verifier::address_filter::AddressFilter;
use chain_verifier::block::{
    AccountAddress, AccumulatorInfo, Block, BlockBody, BlockHeader, BlockInfo, HashValue,
    SignedUserTransaction,
};
use chain_verifier::block_verifier::{
    BasicVerifier, ConsensusVerifier, DagVerifier, FullVerifier,
};
use chain_verifier::chain::{
    ChainReader, ChainType, ChainView, ConsensusOutcome, ConsensusStrategy, Epoch,
};
use chain_verifier::errors::{ConnectBlockError, VerifyBlockField, VerifyFailure};
use chain_verifier::startup_info::ChainStatus;

fn header(id: u64, parent: u64, number: u64, timestamp: u64, acc_root: u64) -> BlockHeader {
    BlockHeader {
        id: HashValue(id),
        parent_hash: HashValue(parent),
        parents_hash: None,
        number,
        timestamp,
        body_hash: HashValue(0),
        gas_used: 0,
        block_accumulator_root: HashValue(acc_root),
        txn_accumulator_root: HashValue(0),
    }
}

fn info_with_root(block_id: u64, acc_root: u64) -> BlockInfo {
    BlockInfo {
        block_id: HashValue(block_id),
        total_difficulty: 1,
        txn_accumulator_info: AccumulatorInfo {
            accumulator_root: HashValue(0),
            frozen_subtree_roots: vec![],
            num_leaves: 0,
            num_nodes: 0,
        },
        block_accumulator_info: AccumulatorInfo {
            accumulator_root: HashValue(acc_root),
            frozen_subtree_roots: vec![],
            num_leaves: 0,
            num_nodes: 0,
        },
    }
}

/// Head H(10, 0xA, 1000) with id 0x100 and accumulator root 0x55.
fn base_view() -> ChainView {
    ChainView {
        status: ChainStatus::new(
            header(0x100, 0xA, 10, 1000, 0x55),
            info_with_root(0x100, 0x55),
        ),
        epoch: Epoch {
            start_block_number: 0,
            end_block_number: 100,
            max_uncles_per_block: 10,
            block_gas_limit: 1_000_000,
            strategy: ConsensusStrategy::Dummy,
        },
        block_infos: vec![(HashValue(0x100), info_with_root(0x100, 0x55))],
        dag_blocks: vec![],
        dag_query_errors: vec![],
        consensus: vec![],
        chain_type: ChainType::Single,
        now_millis: 1100,
    }
}

fn candidate() -> BlockHeader {
    header(0x200, 0x100, 11, 1100, 0x55)
}

#[test]
fn wrong_number_rejected() {
    let v = base_view();
    let mut h = candidate();
    h.number = 12;
    assert_eq!(
        BasicVerifier::verify_header(&v, &h).unwrap_err(),
        ConnectBlockError::VerifyBlockFailed(
            VerifyBlockField::Header,
            VerifyFailure::UnexpectedNumber { expect: 11, got: 12 },
        )
    );
}

#[test]
fn wrong_parent_rejected() {
    let v = base_view();
    let mut h = candidate();
    h.parent_hash = HashValue(0xDEAD);
    assert_eq!(
        BasicVerifier::verify_header(&v, &h).unwrap_err(),
        ConnectBlockError::VerifyBlockFailed(
            VerifyBlockField::Header,
            VerifyFailure::ParentIdMismatch {
                expect: HashValue(0x100),
                got: HashValue(0xDEAD),
                number: 11,
            },
        )
    );
}

#[test]
fn outside_epoch_window_rejected() {
    let mut v = base_view();
    // the head sits on the epoch's last block: its successor falls outside
    v.epoch.end_block_number = 10;
    let h = candidate();
    assert_eq!(
        BasicVerifier::verify_header(&v, &h).unwrap_err(),
        ConnectBlockError::VerifyBlockFailed(
            VerifyBlockField::Header,
            VerifyFailure::OutsideEpochWindow { number: 11, epoch_start: 0, epoch_end: 10 },
        )
    );
}

#[test]
fn gas_over_limit_rejected() {
    let v = base_view();
    let mut h = candidate();
    h.gas_used = 1_000_001;
    assert_eq!(
        BasicVerifier::verify_header(&v, &h).unwrap_err(),
        ConnectBlockError::VerifyBlockFailed(
            VerifyBlockField::Header,
            VerifyFailure::GasUsedExceedsLimit { gas_used: 1_000_001, limit: 1_000_000 },
        )
    );
}

#[test]
fn missing_head_info_is_no_verdict() {
    let mut v = base_view();
    v.block_infos.clear();
    let h = candidate();
    let err = BasicVerifier::verify_header(&v, &h).unwrap_err();
    assert_eq!(err, ConnectBlockError::BlockInfoMissing { id: HashValue(0x100) });
    assert!(!err.is_verify_failed());
}

#[test]
fn accumulator_root_mismatch_rejected() {
    let v = base_view();
    let mut h = candidate();
    h.block_accumulator_root = HashValue(0x56);
    assert_eq!(
        BasicVerifier::verify_header(&v, &h).unwrap_err(),
        ConnectBlockError::VerifyBlockFailed(
            VerifyBlockField::Header,
            VerifyFailure::AccumulatorRootMismatch {
                expect: HashValue(0x55),
                got: HashValue(0x56),
            },
        )
    );
}

#[test]
fn dag_shaped_block_rejected_by_basic() {
    let v = base_view();
    let mut h = candidate();
    h.parents_hash = Some(vec![HashValue(1), HashValue(2)]);
    assert_eq!(
        BasicVerifier::verify_header(&v, &h).unwrap_err(),
        ConnectBlockError::VerifyBlockFailed(
            VerifyBlockField::Header,
            VerifyFailure::NotSingleChainShape { number: 11 },
        )
    );
}

#[test]
fn dag_mode_chain_rejected_by_basic() {
    let mut v = base_view();
    v.chain_type = ChainType::Dag;
    let h = candidate();
    assert_eq!(
        BasicVerifier::verify_header(&v, &h).unwrap_err(),
        ConnectBlockError::VerifyBlockFailed(
            VerifyBlockField::Header,
            VerifyFailure::NotSingleChainShape { number: 11 },
        )
    );
}

#[test]
fn empty_parents_list_passes_basic() {
    let v = base_view();
    let mut h = candidate();
    h.parents_hash = Some(vec![]);
    assert!(BasicVerifier::verify_header(&v, &h).is_ok());
}

#[test]
fn consensus_valid_accepts() {
    let mut v = base_view();
    v.consensus.push((HashValue(0x200), ConsensusOutcome::Valid));
    let h = candidate();
    assert!(ConsensusVerifier::verify_header(&v, &h).is_ok());
}

#[test]
fn consensus_invalid_rejects_as_consensus() {
    let mut v = base_view();
    v.consensus.push((HashValue(0x200), ConsensusOutcome::Invalid));
    let h = candidate();
    assert_eq!(
        ConsensusVerifier::verify_header(&v, &h).unwrap_err(),
        ConnectBlockError::VerifyBlockFailed(
            VerifyBlockField::Consensus,
            VerifyFailure::ConsensusVerifyFailed { block_id: HashValue(0x200) },
        )
    );
}

#[test]
fn consensus_unrecorded_header_rejects() {
    let v = base_view();
    let h = candidate();
    assert_eq!(
        ConsensusVerifier::verify_header(&v, &h).unwrap_err(),
        ConnectBlockError::VerifyBlockFailed(
            VerifyBlockField::Consensus,
            VerifyFailure::ConsensusVerifyFailed { block_id: HashValue(0x200) },
        )
    );
}

#[test]
fn consensus_unavailable_is_no_verdict() {
    let mut v = base_view();
    v.consensus.push((HashValue(0x200), ConsensusOutcome::Unavailable));
    let h = candidate();
    let err = ConsensusVerifier::verify_header(&v, &h).unwrap_err();
    assert_eq!(err, ConnectBlockError::ConsensusStateUnavailable { block_id: HashValue(0x200) });
    assert!(!err.is_verify_failed());
}

#[test]
fn full_runs_basic_then_consensus() {
    let mut v = base_view();
    v.consensus.push((HashValue(0x200), ConsensusOutcome::Valid));
    let h = candidate();
    assert!(FullVerifier::verify_header(&v, &h).is_ok());
    // the basic failure wins over the consensus verdict
    let mut stale = h.clone();
    stale.timestamp = 1000;
    assert_eq!(
        FullVerifier::verify_header(&v, &stale).unwrap_err(),
        ConnectBlockError::VerifyBlockFailed(
            VerifyBlockField::Header,
            VerifyFailure::TimestampTooOld { parent_time: 1000, block_time: 1000, number: 11 },
        )
    );
    // and without a consensus verdict the full strategy rejects
    let bare = base_view();
    assert_eq!(
        FullVerifier::verify_header(&bare, &h).unwrap_err(),
        ConnectBlockError::VerifyBlockFailed(
            VerifyBlockField::Consensus,
            VerifyFailure::ConsensusVerifyFailed { block_id: HashValue(0x200) },
        )
    );
}

#[test]
fn blacklisted_sender_rejected() {
    let view = base_view();
    let reader = ChainReader {
        view,
        epoch_uncles: vec![],
        blocks: vec![],
        address_filter: AddressFilter::new(5, vec![AccountAddress(0xBB)]),
        forks: vec![],
    };
    let body = BlockBody {
        transactions: vec![
            SignedUserTransaction { sender: AccountAddress(0x11) },
            SignedUserTransaction { sender: AccountAddress(0xBB) },
        ],
        uncles: None,
    };
    let body_hash = body.hash();
    let mut h = candidate();
    h.body_hash = body_hash;
    let block = Block { header: h, body };
    assert_eq!(
        BasicVerifier::verify_block(&reader, block).unwrap_err(),
        ConnectBlockError::VerifyBlockFailed(
            VerifyBlockField::Body,
            VerifyFailure::BlacklistedSender { sender: AccountAddress(0xBB) },
        )
    );
}

#[test]
fn blacklist_inactive_below_activation_height() {
    let filter = AddressFilter::new(11, vec![AccountAddress(0xBB)]);
    let txn = SignedUserTransaction { sender: AccountAddress(0xBB) };
    assert!(!filter.is_blacklisted(&txn, 11));
    assert!(filter.is_blacklisted(&txn, 12));
}

#[test]
fn dag_duplicate_parents_rejected() {
    let v = base_view();
    let mut h = candidate();
    h.parents_hash = Some(vec![HashValue(1), HashValue(1)]);
    h.parent_hash = HashValue(1);
    assert_eq!(
        DagVerifier::verify_header(&v, &h).unwrap_err(),
        ConnectBlockError::VerifyBlockFailed(
            VerifyBlockField::Header,
            VerifyFailure::InvalidParentsHash { number: 11 },
        )
    );
}

#[test]
fn dag_no_parents_rejected() {
    let v = base_view();
    let mut none_declared = candidate();
    none_declared.parents_hash = None;
    assert_eq!(
        DagVerifier::verify_header(&v, &none_declared).unwrap_err(),
        ConnectBlockError::VerifyBlockFailed(
            VerifyBlockField::Header,
            VerifyFailure::InvalidParentsHash { number: 11 },
        )
    );
    let mut empty_declared = candidate();
    empty_declared.parents_hash = Some(vec![]);
    assert_eq!(
        DagVerifier::verify_header(&v, &empty_declared).unwrap_err(),
        ConnectBlockError::VerifyBlockFailed(
            VerifyBlockField::Header,
            VerifyFailure::InvalidParentsHash { number: 11 },
        )
    );
}

#[test]
fn dag_selected_parent_not_declared_rejected() {
    let v = base_view();
    let mut h = candidate();
    h.parents_hash = Some(vec![HashValue(1), HashValue(2)]);
    h.parent_hash = HashValue(3);
    assert_eq!(
        DagVerifier::verify_header(&v, &h).unwrap_err(),
        ConnectBlockError::VerifyBlockFailed(
            VerifyBlockField::Header,
            VerifyFailure::DagParentMissing { parent: HashValue(3) },
        )
    );
}

#[test]
fn dag_parent_store_error_wrapped_as_header_failure() {
    let p1 = HashValue(0xD1);
    let p2 = HashValue(0xD2);
    let mut v = base_view();
    v.chain_type = ChainType::Dag;
    v.block_infos.push((p1, info_with_root(0xD1, 0x99)));
    v.dag_blocks = vec![p1, p2];
    v.dag_query_errors = vec![p2];
    let mut h = candidate();
    h.id = HashValue(0x300);
    h.parent_hash = p1;
    h.parents_hash = Some(vec![p1, p2]);
    let err = DagVerifier::verify_header(&v, &h).unwrap_err();
    assert_eq!(
        err,
        ConnectBlockError::VerifyBlockFailed(
            VerifyBlockField::Header,
            VerifyFailure::DagParentQueryFailed { block_id: HashValue(0x300), parent: p2 },
        )
    );
    assert!(err.is_verify_failed());
}

#[test]
fn dag_all_parents_known_runs_consensus() {
    let p1 = HashValue(0xD1);
    let p2 = HashValue(0xD2);
    let mut v = base_view();
    v.chain_type = ChainType::Dag;
    v.block_infos.push((p1, info_with_root(0xD1, 0x99)));
    v.dag_blocks = vec![p1, p2];
    v.consensus.push((HashValue(0x300), ConsensusOutcome::Valid));
    let mut h = candidate();
    h.id = HashValue(0x300);
    h.parent_hash = p1;
    h.parents_hash = Some(vec![p1, p2]);
    assert!(DagVerifier::verify_header(&v, &h).is_ok());
}

#[test]
fn height_check_saturates_at_the_top() {
    let mut v = base_view();
    v.status.head.number = u64::MAX;
    v.epoch.end_block_number = u64::MAX;
    let mut h = candidate();
    // the expected successor height saturates instead of wrapping
    h.number = u64::MAX;
    h.parent_hash = HashValue(0x100);
    let r = BasicVerifier::verify_header(&v, &h);
    assert!(!matches!(
        r,
        Err(ConnectBlockError::VerifyBlockFailed(
            VerifyBlockField::Header,
            VerifyFailure::UnexpectedNumber { .. },
        ))
    ));
    let mut wrapped = h.clone();
    wrapped.number = 0;
    assert_eq!(
        BasicVerifier::verify_header(&v, &wrapped).unwrap_err(),
        ConnectBlockError::VerifyBlockFailed(
            VerifyBlockField::Header,
            VerifyFailure::UnexpectedNumber { expect: u64::MAX, got: 0 },
        )
    );
}
