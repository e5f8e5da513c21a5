//! The tables of the ledger and the text of their queries.

use vstd::prelude::*;
use vstd::string::StringExecFns;

verus! {

/// The tables that the ledger keeps.
#[derive(Clone, Copy, Debug, PartialEq, Eq, Structural)]
pub enum TableKind {
    /// The slots of one contract's storage.
    Storage,
    /// The accounts.
    Account,
    /// The transactions.
    Tx,
}

/// The name of a table.
pub open spec fn table_name(kind: TableKind) -> Seq<char> {
    match kind {
        TableKind::Storage => "storage"@,
        TableKind::Account => "account"@,
        TableKind::Tx => "tx"@,
    }
}

/// What a table of the ledger can say of itself.
pub trait Table {
    /// Which table this is.
    spec fn kind(&self) -> TableKind;

    /// The name of the table.
    fn get_table_name(&self) -> (r: String)
        ensures
            r@ == table_name(self.kind()),
    ;

    /// The query that takes the table away.
    fn get_drop_table_query(&self) -> (r: String)
        ensures
            r@ == "DROP TABLE "@ + table_name(self.kind()),
    ;

    /// The query that reads the rows whose column `where_type` has a given value.
    fn get_select_query(&self, where_type: &str) -> (r: String)
        ensures
            r@ == "SELECT * FROM "@ + table_name(self.kind()) + " WHERE "@ + where_type@ + " = ?"@,
    ;

    /// The query that takes out the rows whose column `where_type` has a
    /// given value.
    fn get_delete_query(&self, where_type: &str) -> (r: String)
        ensures
            r@ == "DELETE FROM "@ + table_name(self.kind()) + " WHERE "@ + where_type@ + " = ?"@,
    ;
}

/// The name of the table `kind`.
fn name_of(kind: TableKind) -> (r: &'static str)
    ensures
        r@ == table_name(kind),
{
    match kind {
        TableKind::Storage => "storage",
        TableKind::Account => "account",
        TableKind::Tx => "tx",
    }
}

/// `before`, the name of the table, `between`, `column` and `after`.
fn query(kind: TableKind, before: &str, between: &str, column: &str, after: &str) -> (r: String)
    ensures
        r@ == before@ + table_name(kind) + between@ + column@ + after@,
{
    let mut out = before.to_owned();
    out.append(name_of(kind));
    out.append(between);
    out.append(column);
    out.append(after);
    assert(out@ =~= before@ + table_name(kind) + between@ + column@ + after@);
    out
}

/// The table of one contract's storage.
pub struct AccountStorageTable {}

/// The table of the accounts.
pub struct WorldStateTable {}

/// The table of the transactions.
pub struct TransactionTable {}

impl Table for AccountStorageTable {
    open spec fn kind(&self) -> TableKind {
        TableKind::Storage
    }

    fn get_table_name(&self) -> (r: String) {
        name_of(TableKind::Storage).to_owned()
    }

    fn get_drop_table_query(&self) -> (r: String) {
        let r = query(TableKind::Storage, "DROP TABLE ", "", "", "");
        proof {
            reveal_strlit("");
            assert(r@ =~= "DROP TABLE "@ + table_name(TableKind::Storage));
        }
        r
    }

    fn get_select_query(&self, where_type: &str) -> (r: String) {
        query(TableKind::Storage, "SELECT * FROM ", " WHERE ", where_type, " = ?")
    }

    fn get_delete_query(&self, where_type: &str) -> (r: String) {
        query(TableKind::Storage, "DELETE FROM ", " WHERE ", where_type, " = ?")
    }
}

impl Table for WorldStateTable {
    open spec fn kind(&self) -> TableKind {
        TableKind::Account
    }

    fn get_table_name(&self) -> (r: String) {
        name_of(TableKind::Account).to_owned()
    }

    fn get_drop_table_query(&self) -> (r: String) {
        let r = query(TableKind::Account, "DROP TABLE ", "", "", "");
        proof {
            reveal_strlit("");
            assert(r@ =~= "DROP TABLE "@ + table_name(TableKind::Account));
        }
        r
    }

    fn get_select_query(&self, where_type: &str) -> (r: String) {
        query(TableKind::Account, "SELECT * FROM ", " WHERE ", where_type, " = ?")
    }

    fn get_delete_query(&self, where_type: &str) -> (r: String) {
        query(TableKind::Account, "DELETE FROM ", " WHERE ", where_type, " = ?")
    }
}

impl Table for TransactionTable {
    open spec fn kind(&self) -> TableKind {
        TableKind::Tx
    }

    fn get_table_name(&self) -> (r: String) {
        name_of(TableKind::Tx).to_owned()
    }

    fn get_drop_table_query(&self) -> (r: String) {
        let r = query(TableKind::Tx, "DROP TABLE ", "", "", "");
        proof {
            reveal_strlit("");
            assert(r@ =~= "DROP TABLE "@ + table_name(TableKind::Tx));
        }
        r
    }

    fn get_select_query(&self, where_type: &str) -> (r: String) {
        query(TableKind::Tx, "SELECT * FROM ", " WHERE ", where_type, " = ?")
    }

    fn get_delete_query(&self, where_type: &str) -> (r: String) {
        query(TableKind::Tx, "DELETE FROM ", " WHERE ", where_type, " = ?")
    }
}

} // verus!
