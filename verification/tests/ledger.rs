use biiot::engine::{PoaEngine, PosEngine};
use biiot::key::{Pk, Sk};
use biiot::ledger::account::{AccountNode, AccountStorage};
use biiot::ledger::dirty_state::{less_than, DirtyKeyValue, DirtyKeyValues, DirtyState, DirtyStates};
use biiot::ledger::pool::TxPool;
use biiot::ledger::table::{AccountStorageTable, Table, TransactionTable, WorldStateTable};
use biiot::ledger::transaction::{Hash160Vector, RawTransaction, Transaction};
use biiot::sql_util::{to_h256, to_u256};
use biiot::u256util::u256_to_le_u8vec;
use biiot::word::Word;

fn raw(nonce: usize, recipient: u8, data: Vec<u8>) -> RawTransaction {
    RawTransaction {
        nonce,
        gas_price: Word::zero(),
        gas: Word::from_u64(21000),
        recipient: [recipient; 20],
        value: Word::zero(),
        data,
        v: 27,
        r: vec![1; 32],
        s: vec![2; 32],
    }
}

#[test]
fn a_transaction_from_a_raw_one() {
    let tx = Transaction::from_raw_transaction(&raw(3, 9, vec![1, 2]));
    assert_eq!(tx.nonce, 3);
    assert_eq!(tx.recipient, [9u8; 20]);
    assert_eq!(tx.data, vec![1, 2]);
    assert_eq!(tx.v, 27);
    assert_eq!(tx.r, vec![1; 32]);
    assert_eq!(tx.s, vec![2; 32]);
    assert_eq!(tx.timestamp, 0);
    assert_eq!(tx.state_hash, [0u8; 32]);
    assert!(tx.parent_hash.is_empty());
    assert_eq!(tx.committer, [0u8; 20]);
    assert!(tx.validators.0.is_empty());
    let d = Transaction::default();
    assert_eq!((d.nonce, d.v, d.timestamp), (0, 0, 0));
    assert!(Hash160Vector::new().0.is_empty());
}

#[test]
fn the_pool_removes_the_first_like_transaction() {
    let mut pool = TxPool::new();
    pool.push(raw(1, 1, vec![1]));
    pool.push(raw(2, 1, vec![1]));
    pool.push(raw(1, 1, vec![1]));
    assert_eq!(pool.len(), 3);
    pool.remove(raw(1, 1, vec![1]));
    assert_eq!(pool.len(), 2);
    pool.remove(raw(1, 2, vec![1]));
    pool.remove(raw(1, 1, vec![2]));
    pool.remove(raw(3, 1, vec![1]));
    assert_eq!(pool.len(), 2);
    pool.remove(raw(1, 1, vec![1]));
    pool.remove(raw(2, 1, vec![1]));
    assert_eq!(pool.len(), 0);
    pool.remove(raw(2, 1, vec![1]));
    assert_eq!(pool.len(), 0);
}

#[test]
fn accounts_and_slots() {
    let a = AccountNode::default();
    assert_eq!((a.key, a.nonce, a.storage_root), ([0u8; 32], [0u8; 32], [0u8; 32]));
    assert!(a.codehash.is_empty());
    let n = AccountNode::not_found([7u8; 32]);
    assert_eq!(n.key, [7u8; 32]);
    assert_eq!(n.nonce, [0u8; 32]);
    let s = AccountStorage::new();
    assert!(s.is_unset());
    assert!(!AccountStorage { key: [0; 32], value: [1; 32] }.is_unset());
}

#[test]
fn query_texts() {
    assert_eq!(AccountStorageTable {}.get_table_name(), "storage");
    assert_eq!(WorldStateTable {}.get_table_name(), "account");
    assert_eq!(TransactionTable {}.get_table_name(), "tx");
    assert_eq!(WorldStateTable {}.get_drop_table_query(), "DROP TABLE account");
    assert_eq!(
        AccountStorageTable {}.get_select_query("key"),
        "SELECT * FROM storage WHERE key = ?"
    );
    assert_eq!(TransactionTable {}.get_delete_query("nonce"), "DELETE FROM tx WHERE nonce = ?");
}

#[test]
fn byte_strings_in_dictionary_order() {
    assert!(less_than(&[1, 2], &[1, 3]));
    assert!(less_than(&[1], &[1, 0]));
    assert!(less_than(&[], &[0]));
    assert!(!less_than(&[1, 3], &[1, 3]));
    assert!(!less_than(&[2], &[1, 9]));
    assert!(!less_than(&[], &[]));
}

fn slot(key: u8) -> DirtyKeyValue {
    DirtyKeyValue([key; 32], [key + 100; 32])
}

#[test]
fn slots_go_before_the_first_smaller_key() {
    let list = vec![slot(5), slot(3)];
    assert_eq!(DirtyKeyValues::get_pos(&list, &[4u8; 32]), 1);
    assert_eq!(DirtyKeyValues::get_pos(&list, &[9u8; 32]), 0);
    assert_eq!(DirtyKeyValues::get_pos(&list, &[1u8; 32]), 0);
    assert_eq!(DirtyKeyValues::get_pos(&vec![], &[1u8; 32]), 0);
    let keys: Vec<u8> = DirtyKeyValues(vec![slot(3), slot(5), slot(4), slot(1)])
        .sort_to_vec()
        .iter()
        .map(|s| s.0[0])
        .collect();
    assert_eq!(keys, vec![1, 5, 4, 3]);
    assert!(DirtyKeyValues::new().sort_to_vec().is_empty());
}

#[test]
fn accounts_go_before_the_first_smaller_address() {
    let states = DirtyStates(vec![
        DirtyState([3; 20], DirtyKeyValues(vec![slot(1)])),
        DirtyState([5; 20], DirtyKeyValues::new()),
        DirtyState([4; 20], DirtyKeyValues(vec![slot(2), slot(3)])),
    ]);
    let sorted = states.sort_to_vec();
    let order: Vec<(u8, usize)> = sorted.iter().map(|s| (s.0[0], s.1 .0.len())).collect();
    assert_eq!(order, vec![(5, 0), (4, 2), (3, 1)]);
    assert!(DirtyStates::new().sort_to_vec().is_empty());
    assert_eq!(DirtyStates::get_pos(&sorted, &[9u8; 20]), 0);
}

#[test]
fn stored_bytes_as_hash_and_word() {
    let mut expected = [0u8; 32];
    expected[0] = 1;
    expected[1] = 2;
    assert_eq!(to_h256(vec![1, 2]), expected);
    assert_eq!(to_u256(vec![1, 2]), Word::from_u64(0x0201));
    assert_eq!(to_u256(vec![]), Word::zero());
    let le = u256_to_le_u8vec(&Word::from_u64(0x0102));
    assert_eq!(le.len(), 32);
    assert_eq!((le[0], le[1], le[2]), (0x02, 0x01, 0x00));
    assert_eq!(to_u256(le), Word::from_u64(0x0102));
}

#[test]
fn keys_and_engines() {
    let sk = Sk::new(&[7u8; 32]);
    assert_eq!(sk.as_ref(), &[7u8; 32]);
    let pk = Pk::from([9u8; 33]);
    assert_eq!(pk.to_vec(), vec![9u8; 33]);
    assert_eq!(pk.as_ref(), &[9u8; 33]);
    let poa = PoaEngine::new(&[1u8; 20], Transaction::from_raw_transaction(&raw(5, 1, vec![])), vec![([1; 32], [2; 32])]);
    assert_eq!(poa.contract_address, [1u8; 20]);
    assert_eq!(poa.target_transaction.nonce, 0);
    assert_eq!(poa.dirty_state.len(), 1);
    assert!(!poa.authority);
    assert_eq!(PosEngine::new(&[2u8; 20]).contract_address, [2u8; 20]);
}

#[test]
fn addresses_in_a_byte_string() {
    assert!(Hash160Vector::from_bytes(&vec![]).0.is_empty());
    assert!(Hash160Vector::from_bytes(&vec![1; 19]).0.is_empty());
    assert!(Hash160Vector::from_bytes(&vec![1; 41]).0.is_empty());
    let mut two = vec![1u8; 20];
    two.extend(vec![2u8; 20]);
    assert_eq!(Hash160Vector::from_bytes(&two).0, vec![[1u8; 20], [2u8; 20]]);
}
