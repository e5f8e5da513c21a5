//! The engines that agree on transactions.

use vstd::prelude::*;
use crate::ledger::transaction::Transaction;

verus! {

/// What an engine of authority holds for one transaction.
pub struct PoaEngine {
    pub contract_address: [u8; 20],
    pub target_transaction: Transaction,
    pub committed_transaction: Transaction,
    pub dirty_state: Vec<([u8; 32], [u8; 32])>,
    pub authority: bool,
}

impl PoaEngine {
    /// An engine for the contract at `contract_address` with the touched
    /// slots `dirty_state`. It starts without authority and with empty
    /// transactions: the transaction that it is given is not kept.
    pub fn new(
        contract_address: &[u8; 20],
        transaction: Transaction,
        dirty_state: Vec<([u8; 32], [u8; 32])>,
    ) -> (r: PoaEngine)
        ensures
            r.contract_address == *contract_address,
            r.dirty_state == dirty_state,
            !r.authority,
            r.target_transaction.is_blank(),
            r.committed_transaction.is_blank(),
    {
        PoaEngine {
            contract_address: *contract_address,
            target_transaction: Transaction::empty(),
            committed_transaction: Transaction::empty(),
            dirty_state,
            authority: false,
        }
    }
}

/// What an engine of stake holds.
pub struct PosEngine {
    pub contract_address: [u8; 20],
}

impl PosEngine {
    /// An engine for the contract at `contract_address`.
    pub fn new(contract_address: &[u8; 20]) -> (r: PosEngine)
        ensures
            r.contract_address == *contract_address,
    {
        PosEngine { contract_address: *contract_address }
    }
}

} // verus!
