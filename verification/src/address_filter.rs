//! The sender blacklist: a predicate deciding whether a transaction's sender
//! is barred from blocks at a given height. The filter applies from its
//! activation height on.

use vstd::prelude::*;
use crate::block::{AccountAddress, SignedUserTransaction};

verus! {

/// Whether an address occurs in a list of addresses.
pub open spec fn spec_contains_address(s: Seq<AccountAddress>, a: AccountAddress) -> bool {
    exists|i: int| 0 <= i < s.len() && s[i] == a
}

/// The sender blacklist in force on this node, with the height from which
/// it applies.
#[derive(Clone, Debug, PartialEq, Eq)]
pub struct AddressFilter {
    /// The filter rejects senders only in blocks strictly above this height.
    pub activation_number: u64,
    /// The barred addresses.
    pub blacklist: Vec<AccountAddress>,
}

impl AddressFilter {
    /// Whether `sender` is barred from a block at height `block_number`.
    pub open spec fn spec_is_blacklisted(self, sender: AccountAddress, block_number: u64) -> bool {
        block_number > self.activation_number && spec_contains_address(self.blacklist@, sender)
    }

    pub fn new(activation_number: u64, blacklist: Vec<AccountAddress>) -> (r: Self)
        ensures
            r.activation_number == activation_number,
            r.blacklist@ == blacklist@,
    {
        Self { activation_number, blacklist }
    }

    /// A filter that bars nothing.
    pub fn empty() -> (r: Self)
        ensures
            forall|s: AccountAddress, n: u64| !r.spec_is_blacklisted(s, n),
    {
        Self { activation_number: 0, blacklist: Vec::new() }
    }

    /// Whether this transaction's sender is barred at `block_number`.
    pub fn is_blacklisted(&self, txn: &SignedUserTransaction, block_number: u64) -> (r: bool)
        ensures
            r == self.spec_is_blacklisted(txn.sender, block_number),
    {
        if block_number <= self.activation_number {
            return false;
        }
        let mut i: usize = 0;
        while i < self.blacklist.len()
            invariant
                i <= self.blacklist@.len(),
                block_number > self.activation_number,
                forall|j: int| 0 <= j < i ==> self.blacklist@[j] != txn.sender,
            decreases self.blacklist@.len() - i,
        {
            if self.blacklist[i] == txn.sender {
                proof {
                    assert(spec_contains_address(self.blacklist@, txn.sender)) by {
                        assert(self.blacklist@[i as int] == txn.sender);
                    }
                }
                return true;
            }
            i += 1;
        }
        false
    }
}

} // verus!
