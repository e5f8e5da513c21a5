//! Transactions as they come in and as they are kept.

use vstd::prelude::*;
use crate::hash::{keccak256, keccak256_of};
use crate::secp256k1::{ecdsa_recovered, recover_from_vrs};
use crate::vecutil::{copy_between, copy_from, copy_to_bytes32, filled32};
use crate::word::Word;

verus! {

/// A signed transaction as a client sends it.
pub struct RawTransaction {
    pub nonce: usize,
    pub gas_price: Word,
    pub gas: Word,
    pub recipient: [u8; 20],
    pub value: Word,
    pub data: Vec<u8>,
    pub v: usize,
    pub r: Vec<u8>,
    pub s: Vec<u8>,
}

impl RawTransaction {
    /// The address of the key that signed the transaction, `rlp_tx` being
    /// the transaction in its encoding: the key is found from the digest of
    /// the encoding and the signature, whose halves are padded with zeros
    /// to 32 bytes. Nothing where a half of the signature is longer than
    /// 32 bytes, where the number `v` is beyond 32 bits, and where no key
    /// is found.
    pub fn get_sender(&self, rlp_tx: &[u8]) -> (r: Option<[u8; 20]>)
        ensures
            r.is_some() == (self.r@.len() <= 32 && self.s@.len() <= 32 && self.v <= i32::MAX
                && ecdsa_recovered(
                self.v as i32,
                filled32(self.r@) + filled32(self.s@),
                keccak256_of(rlp_tx@),
            ).is_some()),
            r.is_some() ==> r.unwrap()@ == ecdsa_recovered(
                self.v as i32,
                filled32(self.r@) + filled32(self.s@),
                keccak256_of(rlp_tx@),
            ).unwrap().subrange(12, 32),
    {
        if self.r.len() > 32 || self.s.len() > 32 || self.v > 0x7fff_ffff {
            return None;
        }
        let hmsg = keccak256(rlp_tx);
        let r = copy_to_bytes32(&self.r);
        let s = copy_to_bytes32(&self.s);
        match recover_from_vrs(&hmsg, self.v as i32, r, s) {
            Some(public_key) => Some(public_key.address()),
            None => None,
        }
    }
}

/// A list of addresses.
pub struct Hash160Vector(pub Vec<[u8; 20]>);

/// The addresses that a byte string holds, 20 bytes each, in their order;
/// none where its length is no multiple of 20.
pub open spec fn addresses_in(value: Seq<u8>) -> Seq<Seq<u8>> {
    if value.len() % 20 != 0 {
        Seq::empty()
    } else {
        Seq::new(value.len() / 20, |k: int| value.subrange(20 * k, 20 * k + 20))
    }
}

/// The addresses as byte strings.
pub open spec fn address_views(l: Seq<[u8; 20]>) -> Seq<Seq<u8>> {
    Seq::new(l.len(), |i: int| l[i]@)
}

impl Hash160Vector {
    /// An empty list.
    pub fn new() -> (r: Hash160Vector)
        ensures
            r.0@ == Seq::<[u8; 20]>::empty(),
    {
        Hash160Vector(Vec::new())
    }

    /// The addresses that `value` holds, 20 bytes each; none where its
    /// length is no multiple of 20.
    pub fn from_bytes(value: &Vec<u8>) -> (r: Hash160Vector)
        ensures
            address_views(r.0@) == addresses_in(value@),
    {
        let n = value.len();
        let mut addresses: Vec<[u8; 20]> = Vec::new();
        if n % 20 != 0 {
            assert(address_views(addresses@) =~= addresses_in(value@));
            return Hash160Vector(addresses);
        }
        let count: usize = n / 20;
        let mut k: usize = 0;
        while k < count
            invariant
                n == value@.len(),
                n % 20 == 0,
                count == n / 20,
                k <= count,
                addresses@.len() == k,
                forall|j: int|
                    0 <= j < k ==> (#[trigger] addresses@[j])@ == value@.subrange(
                        20 * j,
                        20 * j + 20,
                    ),
            decreases count - k,
        {
            let mut address = [0u8;20];
            let mut i: usize = 0;
            while i < 20
                invariant
                    n == value@.len(),
                    n % 20 == 0,
                    count == n / 20,
                    k < count,
                    i <= 20,
                    forall|j: int| 0 <= j < i ==> address@[j] == value@[20 * k + j],
                decreases 20 - i,
            {
                address[i] = value[20 * k + i];
                i += 1;
            }
            assert(address@ =~= value@.subrange(20 * k, 20 * k + 20));
            addresses.push(address);
            k += 1;
        }
        assert(address_views(addresses@) =~= addresses_in(value@));
        Hash160Vector(addresses)
    }
}

/// A transaction as the ledger keeps it.
pub struct Transaction {
    pub nonce: usize,
    pub recipient: [u8; 20],
    pub data: Vec<u8>,
    pub v: usize,
    pub r: Vec<u8>,
    pub s: Vec<u8>,
    pub timestamp: u64,
    pub state_hash: [u8; 32],
    pub parent_hash: Vec<u8>,
    pub committer: [u8; 20],
    pub validators: Hash160Vector,
}

impl Transaction {
    /// Whether the transaction is without content: zeros and empty byte
    /// strings.
    pub open spec fn is_blank(&self) -> bool {
        &&& self.nonce == 0
        &&& self.recipient@ == Seq::new(20, |i: int| 0u8)
        &&& self.data@ == Seq::<u8>::empty()
        &&& self.v == 0
        &&& self.r@ == Seq::<u8>::empty()
        &&& self.s@ == Seq::<u8>::empty()
        &&& self.timestamp == 0
        &&& self.state_hash@ == Seq::new(32, |i: int| 0u8)
        &&& self.parent_hash@ == Seq::<u8>::empty()
        &&& self.committer@ == Seq::new(20, |i: int| 0u8)
        &&& self.validators.0@ == Seq::<[u8; 20]>::empty()
    }

    /// A transaction without content.
    pub fn empty() -> (r: Transaction)
        ensures
            r.is_blank(),
    {
        let r = Transaction {
            nonce: 0,
            recipient: [0u8;20],
            data: Vec::new(),
            v: 0,
            r: Vec::new(),
            s: Vec::new(),
            timestamp: 0,
            state_hash: [0u8;32],
            parent_hash: Vec::new(),
            committer: [0u8;20],
            validators: Hash160Vector::new(),
        };
        assert(r.recipient@ =~= Seq::new(20, |i: int| 0u8));
        assert(r.committer@ =~= Seq::new(20, |i: int| 0u8));
        assert(r.state_hash@ =~= Seq::new(32, |i: int| 0u8));
        r
    }

    /// The transaction that the ledger keeps for `ptx` before it is
    /// committed: nonce, recipient, data and signature of `ptx`, and
    /// nothing else yet.
    pub fn from_raw_transaction(ptx: &RawTransaction) -> (r: Transaction)
        ensures
            r.nonce == ptx.nonce,
            r.recipient == ptx.recipient,
            r.data@ == ptx.data@,
            r.v == ptx.v,
            r.r@ == ptx.r@,
            r.s@ == ptx.s@,
            r.timestamp == 0,
            r.state_hash@ == Seq::new(32, |i: int| 0u8),
            r.parent_hash@ == Seq::<u8>::empty(),
            r.committer@ == Seq::new(20, |i: int| 0u8),
            r.validators.0@ == Seq::<[u8; 20]>::empty(),
    {
        let mut tx = Transaction::empty();
        tx.nonce = ptx.nonce;
        tx.recipient = ptx.recipient;
        tx.data = copy_from(&ptx.data);
        tx.v = ptx.v;
        copy_between(&ptx.r, &mut tx.r);
        copy_between(&ptx.s, &mut tx.s);
        tx.committer = [0u8;20];
        tx.validators = Hash160Vector::new();
        assert(tx.committer@ =~= Seq::new(20, |i: int| 0u8));
        tx
    }
}

impl Default for Transaction {
    /// A transaction without content.
    fn default() -> (r: Transaction)
        ensures
            r.is_blank(),
    {
        Transaction::empty()
    }
}

} // verus!
