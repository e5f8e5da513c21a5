//! Accounts and their storage slots.

use vstd::prelude::*;

verus! {

/// What the ledger keeps of an account.
pub struct AccountNode {
    pub key: [u8; 32],
    pub nonce: [u8; 32],
    pub storage_root: [u8; 32],
    pub codehash: Vec<u8>,
}

impl AccountNode {
    /// The account that the ledger gives for an address that it does not
    /// know: `key`, the hash of the address, and nothing else.
    pub fn not_found(key: [u8; 32]) -> (r: AccountNode)
        ensures
            r.key == key,
            r.nonce@ == Seq::new(32, |i: int| 0u8),
            r.storage_root@ == Seq::new(32, |i: int| 0u8),
            r.codehash@ == Seq::<u8>::empty(),
    {
        let r = AccountNode {
            key,
            nonce: [0u8;32],
            storage_root: [0u8;32],
            codehash: Vec::new(),
        };
        assert(r.nonce@ =~= Seq::new(32, |i: int| 0u8));
        assert(r.storage_root@ =~= Seq::new(32, |i: int| 0u8));
        r
    }
}

impl Default for AccountNode {
    /// An account of zeros, without code.
    fn default() -> (r: AccountNode)
        ensures
            r.key@ == Seq::new(32, |i: int| 0u8),
            r.nonce@ == Seq::new(32, |i: int| 0u8),
            r.storage_root@ == Seq::new(32, |i: int| 0u8),
            r.codehash@ == Seq::<u8>::empty(),
    {
        let r = AccountNode::not_found([0u8;32]);
        assert(r.key@ =~= Seq::new(32, |i: int| 0u8));
        r
    }
}

/// One slot of a contract's storage.
pub struct AccountStorage {
    pub key: [u8; 32],
    pub value: [u8; 32],
}

impl AccountStorage {
    /// A slot of zeros.
    pub fn new() -> (r: AccountStorage)
        ensures
            r.key@ == Seq::new(32, |i: int| 0u8),
            r.value@ == Seq::new(32, |i: int| 0u8),
    {
        let r = AccountStorage { key: [0u8;32], value: [0u8;32] };
        assert(r.key@ =~= Seq::new(32, |i: int| 0u8));
        assert(r.value@ =~= Seq::new(32, |i: int| 0u8));
        r
    }

    /// Whether the slot is one of zeros, which stands for a slot that the
    /// storage does not hold.
    pub fn is_unset(&self) -> (r: bool)
        ensures
            r == (self.key@ == Seq::new(32, |i: int| 0u8) && self.value@ == Seq::new(
                32,
                |i: int| 0u8,
            )),
    {
        let mut i: usize = 0;
        while i < 32
            invariant
                i <= 32,
                forall|j: int| 0 <= j < i ==> self.key@[j] == 0u8 && self.value@[j] == 0u8,
            decreases 32 - i,
        {
            if self.key[i] != 0 || self.value[i] != 0 {
                return false;
            }
            i += 1;
        }
        assert(self.key@ =~= Seq::new(32, |i: int| 0u8));
        assert(self.value@ =~= Seq::new(32, |i: int| 0u8));
        true
    }
}

} // verus!
