//! The pool of transactions that wait to be committed.

use vstd::prelude::*;
use crate::ledger::transaction::RawTransaction;

verus! {

/// Whether two transactions are the same as far as the pool is concerned:
/// same recipient, same nonce, same data.
pub open spec fn same_transaction(a: RawTransaction, b: RawTransaction) -> bool {
    a.recipient@ == b.recipient@ && a.nonce == b.nonce && a.data@ == b.data@
}

/// The first place in the pool at which a transaction like `tx` stands, or
/// the length of the pool where there is none.
pub open spec fn first_like(pool: Seq<RawTransaction>, tx: RawTransaction) -> int
    decreases pool.len(),
{
    if pool.len() == 0 {
        0
    } else if same_transaction(pool[0], tx) {
        0
    } else {
        1 + first_like(pool.subrange(1, pool.len() as int), tx)
    }
}

/// The place `k` is the first at which a transaction like `tx` stands.
proof fn lemma_first_like_is(pool: Seq<RawTransaction>, tx: RawTransaction, k: int)
    requires
        0 <= k <= pool.len(),
        forall|i: int| 0 <= i < k ==> !same_transaction(#[trigger] pool[i], tx),
        k < pool.len() ==> same_transaction(pool[k], tx),
    ensures
        first_like(pool, tx) == k,
    decreases pool.len(),
{
    if pool.len() > 0 && k > 0 {
        let rest = pool.subrange(1, pool.len() as int);
        assert(!same_transaction(pool[0], tx));
        assert forall|i: int| 0 <= i < k - 1 implies !same_transaction(#[trigger] rest[i], tx) by {
            assert(rest[i] == pool[i + 1]);
        }
        if k < pool.len() {
            assert(rest[k - 1] == pool[k]);
        }
        lemma_first_like_is(rest, tx, k - 1);
    }
}

/// Whether the two hold the same bytes.
fn same_bytes(a: &[u8], b: &[u8]) -> (r: bool)
    ensures
        r == (a@ == b@),
{
    if a.len() != b.len() {
        return false;
    }
    let mut i: usize = 0;
    while i < a.len()
        invariant
            i <= a@.len(),
            a@.len() == b@.len(),
            forall|j: int| 0 <= j < i ==> a@[j] == b@[j],
        decreases a.len() - i,
    {
        if a[i] != b[i] {
            return false;
        }
        i += 1;
    }
    assert(a@ =~= b@);
    true
}

/// The transactions that wait, in the order in which they came.
pub struct TxPool {
    value: Vec<RawTransaction>,
}

impl View for TxPool {
    type V = Seq<RawTransaction>;

    closed spec fn view(&self) -> Seq<RawTransaction> {
        self.value@
    }
}

impl TxPool {
    /// An empty pool.
    pub fn new() -> (r: TxPool)
        ensures
            r@ == Seq::<RawTransaction>::empty(),
    {
        TxPool { value: Vec::new() }
    }

    /// Puts `raw_tx` at the end of the pool.
    pub fn push(&mut self, raw_tx: RawTransaction)
        ensures
            final(self)@ == old(self)@.push(raw_tx),
    {
        self.value.push(raw_tx);
    }

    /// Takes the first transaction like `raw_tx` out of the pool; leaves the
    /// pool as it is where there is none.
    pub fn remove(&mut self, raw_tx: RawTransaction)
        ensures
            first_like(old(self)@, raw_tx) < old(self)@.len() ==> final(self)@ == old(self)@.remove(
                first_like(old(self)@, raw_tx),
            ),
            first_like(old(self)@, raw_tx) >= old(self)@.len() ==> final(self)@ == old(self)@,
    {
        let mut idx: usize = 0;
        while idx < self.value.len()
            invariant
                idx <= self.value@.len(),
                self.value@ == old(self).value@,
                forall|i: int|
                    0 <= i < idx ==> !same_transaction(#[trigger] self.value@[i], raw_tx),
            decreases self.value.len() - idx,
        {
            let element = &self.value[idx];
            if same_bytes(element.recipient.as_slice(), raw_tx.recipient.as_slice())
                && element.nonce == raw_tx.nonce && same_bytes(
                element.data.as_slice(),
                raw_tx.data.as_slice(),
            ) {
                proof {
                    lemma_first_like_is(self.value@, raw_tx, idx as int);
                }
                let _ = self.value.remove(idx);
                return ;
            }
            idx += 1;
        }
        proof {
            lemma_first_like_is(self.value@, raw_tx, idx as int);
        }
    }

    /// The number of transactions that wait.
    pub fn len(&self) -> (r: usize)
        ensures
            r == self@.len(),
    {
        self.value.len()
    }
}

} // verus!
