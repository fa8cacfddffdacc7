//! Block verification core of a proof-of-work blockchain node.
//!
//! A candidate block must pass one of several composable verification
//! strategies (basic, consensus, full, none, dag) before it may be appended
//! to the local chain. The verifier reads chain state through a read-only
//! chain reader and returns either a verified block or a typed failure.

pub mod address_filter;
pub mod block;
pub mod block_verifier;
pub mod chain;
pub mod errors;
pub mod laws;
pub mod rng;
pub mod startup_info;
pub mod sync;

pub use block::ALLOWED_FUTURE_BLOCKTIME;
