//! Typed failures of block verification.
//!
//! A failed check yields `ConnectBlockError::VerifyBlockFailed(field,
//! failure)`, tagging the category of the offending field and carrying the
//! offending values. A reader whose local state cannot answer a query is a
//! different kind of failure and is reported by the other variants, so that
//! "invalid block" stays distinct from "local state unavailable". The one
//! exception is a failed DAG parent-store query, which is wrapped as a
//! `Header` verification failure (`DagParentQueryFailed`).

use vstd::prelude::*;
use crate::block::{AccountAddress, HashValue};

verus! {

/// The field category a verification failure is tagged with.
#[derive(Clone, Copy, Debug, PartialEq, Eq, Structural)]
pub enum VerifyBlockField {
    Header,
    Body,
    Uncle,
    Consensus,
}

/// The reason a check rejected a block, with the offending values.
#[derive(Clone, Copy, Debug, PartialEq, Eq, Structural)]
pub enum VerifyFailure {
    /// The block's height is not the head's height plus one.
    UnexpectedNumber { expect: u64, got: u64 },
    /// The block's parent hash is not the head's id.
    ParentIdMismatch { expect: HashValue, got: HashValue, number: u64 },
    /// The block's timestamp is not strictly after the head's.
    TimestampTooOld { parent_time: u64, block_time: u64, number: u64 },
    /// The block's timestamp runs too far ahead of the local clock.
    TimestampTooNew { now: u64, block_time: u64 },
    /// The block's height falls outside the current epoch's window.
    OutsideEpochWindow { number: u64, epoch_start: u64, epoch_end: u64 },
    /// The block used more gas than the epoch allows.
    GasUsedExceedsLimit { gas_used: u64, limit: u64 },
    /// The header's block-accumulator root differs from the head's.
    AccumulatorRootMismatch { expect: HashValue, got: HashValue },
    /// A single-parent strategy saw a DAG-shaped block or a DAG-mode chain.
    NotSingleChainShape { number: u64 },
    /// The body's digest differs from the header's commitment.
    BodyHashMismatch { expect: HashValue, got: HashValue },
    /// A transaction's sender is blacklisted at this height.
    BlacklistedSender { sender: AccountAddress },
    /// The epoch-terminating block carries uncles.
    UnclesAtEpochBoundary,
    /// The block carries more uncles than the epoch allows.
    TooManyUncles { count: u64, block_id: HashValue },
    /// The same uncle id occurs twice in one block.
    RepeatedUncle { uncle_id: HashValue, block_id: HashValue },
    /// An uncle's height is not below the block's.
    UncleNumberTooBig { uncle_number: u64, block_number: u64 },
    /// An uncle fails the admissibility predicate.
    CannotBeUncle { uncle_id: HashValue },
    /// A DAG block declares no parents, or declares one twice.
    InvalidParentsHash { number: u64 },
    /// A declared DAG parent is unknown to the chain.
    DagParentMissing { parent: HashValue },
    /// The store could not answer whether a DAG parent exists.
    DagParentQueryFailed { block_id: HashValue, parent: HashValue },
    /// The epoch's consensus strategy rejected the header.
    ConsensusVerifyFailed { block_id: HashValue },
}

/// The error surface of block verification. `VerifyBlockFailed` is a verdict
/// on the block; the remaining variants report local chain state that could
/// not be read and carry no verdict.
#[derive(Clone, Copy, Debug, PartialEq, Eq, Structural)]
pub enum ConnectBlockError {
    VerifyBlockFailed(VerifyBlockField, VerifyFailure),
    /// No block info is recorded for this id.
    BlockInfoMissing { id: HashValue },
    /// No historical chain view is available at this root.
    ForkFailed { root: HashValue },
    /// The consensus strategy failed for a reason that is not a verdict.
    ConsensusStateUnavailable { block_id: HashValue },
}

impl ConnectBlockError {
    /// Whether this error is a verdict on the block (as opposed to a report
    /// that local state was unavailable).
    pub open spec fn spec_is_verify_failed(self) -> bool {
        self matches ConnectBlockError::VerifyBlockFailed(_, _)
    }

    /// Whether this error is a verdict on the block.
    pub fn is_verify_failed(&self) -> (r: bool)
        ensures
            r == self.spec_is_verify_failed(),
    {
        match self {
            ConnectBlockError::VerifyBlockFailed(_, _) => true,
            _ => false,
        }
    }
}

} // verus!
