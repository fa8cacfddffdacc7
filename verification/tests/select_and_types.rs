use std::str::FromStr;

use chain_verifier::block::{
    AccumulatorInfo, BlockBody, BlockInfo, HashValue, SignedUserTransaction, AccountAddress,
};
use chain_verifier::block_verifier::Verifier;
use chain_verifier::startup_info::{
    BarnardHardFork, ChainId, ChainInfo, ChainStatus, DragonHardFork, SnapshotRange, StartupInfo,
};

#[test]
fn parse_round_trips_the_four_tokens() {
    assert!(matches!(Verifier::parse("basic"), Ok(Verifier::Basic)));
    assert!(matches!(Verifier::parse("consensus"), Ok(Verifier::Consensus)));
    assert!(matches!(Verifier::parse("full"), Ok(Verifier::Full)));
    assert!(matches!(Verifier::parse("none"), Ok(Verifier::NoOp)));
}

#[test]
fn parse_rejects_everything_else() {
    for bad in ["", "Basic", "NONE", "fulll", "ful", "basic ", " none", "dag"] {
        let err = Verifier::parse(bad).unwrap_err();
        assert_eq!(err, bad);
    }
}

#[test]
fn from_str_matches_parse() {
    assert!(matches!(Verifier::from_str("full"), Ok(Verifier::Full)));
    assert_eq!(Verifier::from_str("pow").unwrap_err(), "pow");
}

#[test]
fn variants_list_the_four_tokens() {
    assert_eq!(Verifier::variants(), ["basic", "consensus", "full", "none"]);
}

#[test]
fn body_hash_is_deterministic_and_sensitive() {
    let body = BlockBody {
        transactions: vec![
            SignedUserTransaction { sender: AccountAddress(1) },
            SignedUserTransaction { sender: AccountAddress(2) },
        ],
        uncles: None,
    };
    assert_eq!(body.hash(), body.clone().hash());
    let mut reordered = body.clone();
    reordered.transactions.reverse();
    assert_ne!(body.hash(), reordered.hash());
    // an empty uncle list is a different commitment than no list at all
    let mut with_list = body.clone();
    with_list.uncles = Some(vec![]);
    assert_ne!(body.hash(), with_list.hash());
}

#[test]
fn chain_status_accessors() {
    let status = ChainStatus::sample();
    let head = status.head().clone();
    let info = status.info().clone();
    assert_eq!(status.total_difficulty(), 0);
    let (h, i) = status.into_inner();
    assert_eq!(h, head);
    assert_eq!(i, info);
}

#[test]
fn chain_status_random_is_self_consistent() {
    let status = ChainStatus::random();
    assert_eq!(status.info.block_id, status.head.id);
    assert_eq!(
        status.info.txn_accumulator_info.accumulator_root,
        status.head.txn_accumulator_root
    );
    assert_eq!(
        status.info.block_accumulator_info.accumulator_root,
        status.head.block_accumulator_root
    );
    assert_eq!(
        status.info.block_accumulator_info.num_leaves,
        status.head.number.saturating_sub(1)
    );
    assert!(status.info.block_accumulator_info.frozen_subtree_roots.is_empty());
}

#[test]
fn chain_info_accessors_and_update() {
    let status = ChainStatus::sample();
    let mut info = ChainInfo::new(ChainId::new(7), HashValue(0xABC), status);
    assert_eq!(info.chain_id(), ChainId::new(7));
    assert_eq!(info.genesis_hash(), HashValue(0xABC));
    assert_eq!(info.head().number, 0);
    assert_eq!(info.total_difficulty(), 0);
    let new_status = ChainStatus::random();
    info.update_status(new_status.clone());
    assert_eq!(info.status(), &new_status);
    let (id, genesis, status) = info.into_inner();
    assert_eq!(id, ChainId::new(7));
    assert_eq!(genesis, HashValue(0xABC));
    assert_eq!(status, new_status);
}

#[test]
fn chain_info_default_is_test_network() {
    let info = ChainInfo::default();
    assert_eq!(info.chain_id(), ChainId::test());
    assert_eq!(info.chain_id().id, 255);
    assert_eq!(info.genesis_hash(), HashValue(0));
    assert_eq!(info.status(), &ChainStatus::sample());
}

#[test]
fn chain_info_random_is_self_consistent() {
    let info = ChainInfo::random();
    assert_eq!(info.status().info.block_id, info.status().head.id);
}

#[test]
fn startup_info_update() {
    let mut s = StartupInfo::new(HashValue(1));
    assert_eq!(*s.get_main(), HashValue(1));
    s.update_main(HashValue(2));
    assert_eq!(*s.get_main(), HashValue(2));
}

#[test]
fn snapshot_range_update() {
    let mut r = SnapshotRange::new(1, 10);
    assert_eq!(r.get_start(), 1);
    assert_eq!(r.get_end(), 10);
    r.update_range(5, 20);
    assert_eq!(r.get_start(), 5);
    assert_eq!(r.get_end(), 20);
}

#[test]
fn hard_fork_markers() {
    let barnard = BarnardHardFork::new(100, HashValue(0xB));
    assert_eq!(barnard.get_number(), 100);
    assert_eq!(barnard.get_hash(), HashValue(0xB));
    let dragon = DragonHardFork::new(200, HashValue(0xD));
    assert_eq!(dragon.get_number(), 200);
    assert_eq!(dragon.get_hash(), HashValue(0xD));
}

#[test]
fn block_info_accessors() {
    let info = BlockInfo::new(
        HashValue(5),
        42,
        AccumulatorInfo::new(HashValue(6), vec![HashValue(7)], 8, 9),
        AccumulatorInfo::new(HashValue(10), vec![], 11, 12),
    );
    assert_eq!(info.get_total_difficulty(), 42);
    assert_eq!(info.get_block_accumulator_info().get_accumulator_root(), HashValue(10));
    assert_eq!(info.get_block_accumulator_info().num_leaves, 11);
    assert_eq!(info.txn_accumulator_info.frozen_subtree_roots, vec![HashValue(7)]);
}

#[test]
fn body_hash_of_empty_body_is_pinned() {
    // the fold seeds with BODY_HASH_SEED and mixes the two zero tokens of
    // an empty body without an uncle list; the result is bit-exact
    let body = BlockBody { transactions: vec![], uncles: None };
    assert_eq!(body.hash(), HashValue(0x8328807b4eb6fed));
}
