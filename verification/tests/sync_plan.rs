use chain_verifier::block::{AccumulatorInfo, BlockHeader, BlockInfo, HashValue};
use chain_verifier::sync::{ancestor_block_info, header_ids, BlockIdAndNumber, SyncPlan};

fn info(block_id: u64, difficulty: u128) -> BlockInfo {
    BlockInfo {
        block_id: HashValue(block_id),
        total_difficulty: difficulty,
        txn_accumulator_info: AccumulatorInfo {
            accumulator_root: HashValue(0),
            frozen_subtree_roots: vec![],
            num_leaves: 0,
            num_nodes: 0,
        },
        block_accumulator_info: AccumulatorInfo {
            accumulator_root: HashValue(0),
            frozen_subtree_roots: vec![],
            num_leaves: 0,
            num_nodes: 0,
        },
    }
}

#[test]
fn sync_plan_computes_its_decisions() {
    let ancestor = BlockIdAndNumber { id: HashValue(0xA), number: 41 };
    let plan = SyncPlan::new(ancestor, &info(0xA, 100), &info(0xB, 100), 3, 8);
    assert_eq!(plan.start_number, 42);
    assert_eq!(plan.batch_size, 100);
    assert_eq!(plan.buffer_size, 8);
    assert_eq!(plan.acc_buffer_size, 3);
    assert!(plan.check_local_store);
}

#[test]
fn sync_plan_caps_buffer_at_peer_count() {
    let ancestor = BlockIdAndNumber { id: HashValue(0xA), number: 0 };
    let plan = SyncPlan::new(ancestor, &info(0xA, 100), &info(0xB, 99), 500, 8);
    assert_eq!(plan.acc_buffer_size, 8);
    // the ancestor's chain outweighs the current one: local blocks are
    // not trusted
    assert!(!plan.check_local_store);
}

#[test]
fn sync_plan_start_saturates_at_the_top() {
    let ancestor = BlockIdAndNumber { id: HashValue(0xA), number: u64::MAX };
    let plan = SyncPlan::new(ancestor, &info(0xA, 1), &info(0xB, 1), 1, 1);
    assert_eq!(plan.start_number, u64::MAX);
}

#[test]
fn ancestor_info_found_and_missing() {
    let storage = vec![(HashValue(1), info(1, 10)), (HashValue(2), info(2, 20))];
    let ancestor = BlockIdAndNumber { id: HashValue(2), number: 7 };
    let found = ancestor_block_info(&storage, &ancestor).expect("recorded");
    assert_eq!(found.total_difficulty, 20);
    let missing = BlockIdAndNumber { id: HashValue(3), number: 8 };
    assert_eq!(ancestor_block_info(&storage, &missing).unwrap_err(), HashValue(3));
}

#[test]
fn header_ids_keep_order() {
    let mk = |id: u64, number: u64| BlockHeader {
        id: HashValue(id),
        parent_hash: HashValue(0),
        parents_hash: None,
        number,
        timestamp: 0,
        body_hash: HashValue(0),
        gas_used: 0,
        block_accumulator_root: HashValue(0),
        txn_accumulator_root: HashValue(0),
    };
    let headers = vec![mk(5, 1), mk(3, 2), mk(9, 3)];
    assert_eq!(header_ids(&headers), vec![HashValue(5), HashValue(3), HashValue(9)]);
    assert_eq!(header_ids(&vec![]), vec![]);
}
