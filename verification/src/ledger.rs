//! What the ledger holds, short of the database that it is kept in:
//! accounts, transactions, the pool of transactions to come, the states
//! that a block has touched, and the text of the queries.

pub mod account;
pub mod dirty_state;
pub mod pool;
pub mod table;
pub mod transaction;
